pub mod codec;
pub mod decode;
pub mod document;
pub mod pattern;
pub mod pulumi;
pub mod serializer;
pub mod text;
