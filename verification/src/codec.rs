//! YAML and JSON texts, read and written by `serde_yaml` and `serde_json`.
//!
//! Which tree a text denotes, and which text a tree is written as, is not
//! defined here: the crates decide, and the names below stand for what they
//! decide. The functions that call them say no more than that their results
//! are what the names stand for.

use crate::document::{Node, Tree};
use vstd::prelude::*;

verus! {

#[verifier::external_type_specification]
#[verifier::external_body]
pub struct ExYamlValue(serde_yaml::Value);

#[verifier::external_type_specification]
#[verifier::external_body]
pub struct ExYamlError(serde_yaml::Error);

#[verifier::external_type_specification]
#[verifier::external_body]
pub struct ExJsonValue(serde_json::Value);

#[verifier::external_type_specification]
#[verifier::external_body]
pub struct ExJsonError(serde_json::Error);

/// The value that `serde_yaml` reads from a text, as a tree; `None` where
/// the text is not well-formed YAML.
pub uninterp spec fn yaml_document(text: Seq<char>) -> Option<Tree>;

/// What a `serde_yaml::Value` holds, as a tree.
pub uninterp spec fn yaml_contents(value: serde_yaml::Value) -> Tree;

/// The `serde_yaml::Value` that is made for a tree.
pub uninterp spec fn yaml_value(tree: Tree) -> serde_yaml::Value;

/// The text that `serde_yaml` writes for a value; `None` where it refuses
/// to write one.
pub uninterp spec fn yaml_rendering(value: serde_yaml::Value) -> Option<Seq<char>>;

/// The value that `serde_json` reads from a text, as a tree; `None` where
/// the text is not well-formed JSON.
pub uninterp spec fn json_document(text: Seq<char>) -> Option<Tree>;

/// What a `serde_json::Value` holds, as a tree.
pub uninterp spec fn json_contents(value: serde_json::Value) -> Tree;

/// Reads a text with `serde_yaml::from_str`. What is read depends on the
/// text alone: it holds what [`yaml_document`] names, and reading fails
/// exactly where that names nothing.
#[verifier::external_body]
fn yaml_from_str(text: &str) -> (read: Result<serde_yaml::Value, serde_yaml::Error>)
    ensures
        match read {
            Ok(value) => yaml_document(text@) == Some(yaml_contents(value)),
            Err(_) => yaml_document(text@) is None,
        },
{
    serde_yaml::from_str::<serde_yaml::Value>(text)
}

/// Copies a `serde_yaml::Value` into a [`Node`], variant by variant and
/// item by item: a number keeps what `Number::as_u64` gives, an entry of a
/// mapping becomes an entry of a table, in the mapping's order, and a tagged
/// value is taken for the value under its tag. The outcome is what
/// [`yaml_contents`] names.
#[verifier::external_body]
fn node_from_yaml(value: &serde_yaml::Value) -> (node: Node)
    ensures
        node@ == yaml_contents(*value),
{
    match value {
        serde_yaml::Value::Null => Node::Null,
        serde_yaml::Value::Bool(flag) => Node::Bool(*flag),
        serde_yaml::Value::Number(number) => Node::Number(number.as_u64()),
        serde_yaml::Value::String(text) => Node::Text(text.clone()),
        serde_yaml::Value::Sequence(items) => Node::List(items.iter().map(node_from_yaml).collect()),
        serde_yaml::Value::Mapping(entries) => Node::Table(
            entries.iter().map(|(key, item)| (node_from_yaml(key), node_from_yaml(item))).collect(),
        ),
        serde_yaml::Value::Tagged(tagged) => node_from_yaml(&tagged.value),
    }
}

/// Makes the `serde_yaml::Value` for a [`Node`], variant by variant and
/// item by item: a table becomes a mapping that is filled in the table's
/// order, and a number without a value becomes null. The outcome depends on
/// what the node holds alone: it is what [`yaml_value`] names.
#[verifier::external_body]
fn yaml_from_node(node: &Node) -> (value: serde_yaml::Value)
    ensures
        value == yaml_value(node@),
{
    match node {
        Node::Null | Node::Number(None) => serde_yaml::Value::Null,
        Node::Bool(flag) => serde_yaml::Value::Bool(*flag),
        Node::Number(Some(number)) => serde_yaml::Value::Number((*number).into()),
        Node::Text(text) => serde_yaml::Value::String(text.clone()),
        Node::List(items) => serde_yaml::Value::Sequence(items.iter().map(yaml_from_node).collect()),
        Node::Table(entries) => serde_yaml::Value::Mapping(
            entries.iter().map(|(key, item)| (yaml_from_node(key), yaml_from_node(item))).collect(),
        ),
    }
}

/// Writes a value with `serde_yaml::to_string`. What is written depends on
/// the value alone: it is what [`yaml_rendering`] names, and writing fails
/// exactly where that names nothing.
#[verifier::external_body]
fn yaml_to_string(value: &serde_yaml::Value) -> (written: Result<String, serde_yaml::Error>)
    ensures
        match written {
            Ok(text) => yaml_rendering(*value) == Some(text@),
            Err(_) => yaml_rendering(*value) is None,
        },
{
    serde_yaml::to_string(value)
}

/// Reads a text with `serde_json::from_str`. What is read depends on the
/// text alone: it holds what [`json_document`] names, and reading fails
/// exactly where that names nothing.
#[verifier::external_body]
fn json_from_str(text: &str) -> (read: Result<serde_json::Value, serde_json::Error>)
    ensures
        match read {
            Ok(value) => json_document(text@) == Some(json_contents(value)),
            Err(_) => json_document(text@) is None,
        },
{
    serde_json::from_str::<serde_json::Value>(text)
}

/// Copies a `serde_json::Value` into a [`Node`], variant by variant and
/// item by item: a number keeps what `Number::as_u64` gives, and an entry of
/// an object becomes an entry of a table under its key as a text, in the
/// object's order. The outcome is what [`json_contents`] names.
#[verifier::external_body]
fn node_from_json(value: &serde_json::Value) -> (node: Node)
    ensures
        node@ == json_contents(*value),
{
    match value {
        serde_json::Value::Null => Node::Null,
        serde_json::Value::Bool(flag) => Node::Bool(*flag),
        serde_json::Value::Number(number) => Node::Number(number.as_u64()),
        serde_json::Value::String(text) => Node::Text(text.clone()),
        serde_json::Value::Array(items) => Node::List(items.iter().map(node_from_json).collect()),
        serde_json::Value::Object(entries) => Node::Table(
            entries.iter().map(|(key, item)| (Node::Text(key.clone()), node_from_json(item))).collect(),
        ),
    }
}

/// The text that a tree is written as in YAML.
pub open spec fn yaml_text(tree: Tree) -> Option<Seq<char>> {
    yaml_rendering(yaml_value(tree))
}

/// Reads a YAML text.
pub fn parse_yaml(text: &str) -> (document: Option<Node>)
    ensures
        document.deep_view() == yaml_document(text@),
{
    match yaml_from_str(text) {
        Ok(value) => Some(node_from_yaml(&value)),
        Err(_) => None,
    }
}

/// Reads a JSON text.
pub fn parse_json(text: &str) -> (document: Option<Node>)
    ensures
        document.deep_view() == json_document(text@),
{
    match json_from_str(text) {
        Ok(value) => Some(node_from_json(&value)),
        Err(_) => None,
    }
}

/// Writes a tree as a YAML text.
pub fn emit_yaml(document: &Node) -> (written: Result<String, serde_yaml::Error>)
    ensures
        match written {
            Ok(text) => yaml_text(document@) == Some(text@),
            Err(_) => yaml_text(document@) is None,
        },
{
    let value = yaml_from_node(document);
    yaml_to_string(&value)
}

} // verus!
