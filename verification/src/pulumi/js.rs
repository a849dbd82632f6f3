//! The script front end: blueprints out of the source text of a program
//! that constructs resources.
//!
//! A resource is found by the pattern of its construction. Its properties
//! stand in an object literal, which is turned into JSON line by line and
//! then read as a blueprint.

use crate::codec::{json_document, parse_json};
use crate::decode::{decode_application, decode_image, decoded_application, decoded_image};
use crate::pattern::{
    all_captures, captures_iter, find_first, first_captures, group, group_present, group_text,
    has_group, has_match, is_match,
};
use crate::pulumi::{
    apps_view, build_configuration, converted, images_view, outcome_view, MALFORMED_RESOURCE,
    NOTHING_TO_CONVERT,
};
use crate::serializer::{
    ApplicationModel, ContainerAppBluePrint, ContainerAppConfiguration, ContainerImageBluePrint,
    ImageModel, ServiceModel,
};
use crate::text::{
    chars_of, joined, lines_of, replace_text, replaced, same_text, split_lines, string_of,
    strip_whitespace, texts_view, trim_chars, trimmed, without_whitespace,
};
use vstd::prelude::*;

verus! {

/// The pattern of a line of an object literal: a key, a colon and, unless
/// the line only opens what follows, a value.
pub const KEY_VALUE_PATTERN: &'static str =
    r####"([a-zA-Z"]+)(:)([a-zA-Z0-9-:.`'/"\{}\[\]]+)?"####;

/// The pattern of a value that starts with a digit.
pub const LEADING_DIGITS_PATTERN: &'static str = r"^[0-9]+";

/// The pattern of the construction of an image, with the name that it is
/// bound to, if any, in group 3 and its properties in group 6.
pub const IMAGE_PATTERN: &'static str =
    r####"((const|let) ?(?P<serviceName>.+) ?= ?)?new docker.Image\("(?P<name>.+)",( ?)(?P<value>\{(\n.+)+[^;s"\n.+])"####;

/// The pattern of the construction of an application, with its properties
/// in group 3.
pub const APPLICATION_PATTERN: &'static str =
    r####"new app.ContainerApp\("(?P<name>.+)",( ?)(?P<value>\{(\n.+)+[^;s"\n.+])"####;

/// `s` between double quotes.
pub open spec fn quoted(s: Seq<char>) -> Seq<char> {
    "\""@ + s + "\""@
}

/// `s` with each pair of double quotes made one.
pub open spec fn collapsed(s: Seq<char>) -> Seq<char> {
    replaced(s, "\"\""@, "\""@)
}

/// `s` without back quotes and single quotes.
pub open spec fn undelimited(s: Seq<char>) -> Seq<char> {
    replaced(replaced(s, "`"@, ""@), "'"@, ""@)
}

/// Whether a value only opens an object or a list of objects.
pub open spec fn opens_structure(value: Seq<char>) -> bool {
    value == "{"@ || value == "[{"@
}

/// A value as JSON, before double quotes are collapsed: left as it is where
/// it opens a structure; followed by a comma where it is a number or a truth
/// value; else freed of its delimiters, quoted and followed by a comma.
pub open spec fn rendered_value(value: Seq<char>, leading_digit: bool) -> Seq<char> {
    if opens_structure(value) {
        value
    } else if leading_digit || value == "true"@ || value == "false"@ {
        value + ","@
    } else {
        quoted(undelimited(value)) + ","@
    }
}

/// A line as JSON, given the line without white space, the match of
/// [`KEY_VALUE_PATTERN`] in it and whether its value starts with a digit:
/// the quoted key, a colon and the value, or the line as it is where nothing
/// matched.
pub open spec fn rendered_line(
    stripped: Seq<char>,
    found: Option<Seq<Option<Seq<char>>>>,
    leading_digit: bool,
) -> Seq<char> {
    match found {
        Some(groups) => collapsed(quoted(group_text(groups, 1))) + ":"@ + (if group_present(
            groups,
            3,
        ) {
            collapsed(rendered_value(group_text(groups, 3), leading_digit))
        } else {
            Seq::empty()
        }),
        None => stripped,
    }
}

/// The value of a line, empty where it has none.
pub open spec fn value_of(found: Option<Seq<Option<Seq<char>>>>) -> Seq<char> {
    match found {
        Some(groups) => group_text(groups, 3),
        None => Seq::empty(),
    }
}

/// One line of an object literal as JSON.
pub open spec fn normalized_line(line: Seq<char>) -> Seq<char> {
    let stripped = without_whitespace(line);
    let found = first_captures(KEY_VALUE_PATTERN@, stripped);
    rendered_line(stripped, found, is_match(LEADING_DIGITS_PATTERN@, value_of(found)))
}

/// Writes a value as JSON.
pub fn render_value(value: &str, leading_digit: bool) -> (out: String)
    ensures
        out@ == rendered_value(value@, leading_digit),
{
    if same_text(value, "{") || same_text(value, "[{") {
        String::from_str(value)
    } else if leading_digit || same_text(value, "true") || same_text(value, "false") {
        joined(value, ",")
    } else {
        let without_back = replace_text(value, "`", "");
        let bare = replace_text(without_back.as_str(), "'", "");
        let opened = joined("\"", bare.as_str());
        let closed = joined(opened.as_str(), "\"");
        let out = joined(closed.as_str(), ",");
        assert(out@ =~= quoted(undelimited(value@)) + ","@);
        out
    }
}

/// Writes a line as JSON, given the line without white space, the match of
/// [`KEY_VALUE_PATTERN`] in it and whether its value starts with a digit.
pub fn render_line(stripped: &str, found: &Option<Vec<Option<String>>>, leading_digit: bool) -> (out:
    String)
    ensures
        out@ == rendered_line(stripped@, found.deep_view(), leading_digit),
{
    match found {
        Some(groups) => {
            let key = group(groups, 1);
            let opened = joined("\"", key.as_str());
            let closed = joined(opened.as_str(), "\"");
            assert(closed@ =~= quoted(key@));
            let key_text = replace_text(closed.as_str(), "\"\"", "\"");
            let head = joined(key_text.as_str(), ":");
            if has_group(groups, 3) {
                let value = group(groups, 3);
                let written = render_value(value.as_str(), leading_digit);
                let value_text = replace_text(written.as_str(), "\"\"", "\"");
                joined(head.as_str(), value_text.as_str())
            } else {
                assert(head@ + Seq::<char>::empty() =~= head@);
                head
            }
        },
        None => String::from_str(stripped),
    }
}

/// Turns one line of an object literal into JSON.
pub fn parse_line(line: &str) -> (out: String)
    ensures
        out@ == normalized_line(line@),
{
    let all = chars_of(line);
    let kept = strip_whitespace(&all);
    let stripped = string_of(&kept);
    let found = find_first(KEY_VALUE_PATTERN, stripped.as_str());
    let value = match &found {
        Some(groups) => group(groups, 3),
        None => String::new(),
    };
    let leading_digit = has_match(LEADING_DIGITS_PATTERN, value.as_str());
    render_line(stripped.as_str(), &found, leading_digit)
}

/// `output` with a closing brace in place of each `})` and then of each
/// `,}`.
pub open spec fn pruned(output: Seq<char>) -> Seq<char> {
    replaced(replaced(output, "})"@, "}"@), ",}"@, "}"@)
}

/// Repairs what is left over where lines were put together: the closing
/// parenthesis of the construction and the commas before closing braces.
pub fn prune_output(output: String) -> (out: String)
    ensures
        out@ == pruned(output@),
{
    let without_parenthesis = replace_text(output.as_str(), "})", "}");
    replace_text(without_parenthesis.as_str(), ",}", "}")
}

/// The given lines as JSON, one after the other.
pub open spec fn normalized_lines(lines: Seq<Seq<char>>) -> Seq<char>
    decreases lines.len(),
{
    if lines.len() == 0 {
        Seq::empty()
    } else {
        normalized_lines(lines.drop_last()) + normalized_line(lines.last())
    }
}

/// An object literal as JSON: its lines, each as JSON, put together and
/// repaired.
pub open spec fn normalized_block(block: Seq<char>) -> Seq<char> {
    pruned(normalized_lines(lines_of(block)))
}

/// Turns an object literal into JSON.
pub fn normalize_block(block: &str) -> (out: String)
    ensures
        out@ == normalized_block(block@),
{
    let all = chars_of(block);
    let lines = split_lines(&all);
    let ghost whole = lines_of(block@);
    let mut text: Vec<char> = Vec::new();
    let mut i: usize = 0;
    assert(whole.take(0) =~= Seq::<Seq<char>>::empty());
    while i < lines.len()
        invariant
            i <= lines.len(),
            whole == texts_view(lines@),
            text@ == normalized_lines(whole.take(i as int)),
        decreases lines.len() - i,
    {
        let line = string_of(&lines[i]);
        let parsed = parse_line(line.as_str());
        let added = chars_of(parsed.as_str());
        proof {
            assert(whole.take(i + 1).drop_last() =~= whole.take(i as int));
            assert(whole.take(i + 1).last() == lines@[i as int]@);
        }
        crate::text::append_chars(&mut text, &added);
        i += 1;
    }
    assert(whole.take(whole.len() as int) =~= whole);
    prune_output(string_of(&text))
}

/// The JSON text of the properties of an image: the object literal as JSON,
/// with `name` for the key `imageName`.
pub open spec fn image_json(block: Seq<char>) -> Seq<char> {
    replaced(normalized_block(block), "imageName"@, "name"@)
}

/// An image under the name that the script binds it to: the binding is its
/// name, and containers refer to it by the binding's property `imageName`.
pub open spec fn bound_image(image: ImageModel, binding: Option<Seq<char>>) -> ImageModel {
    match binding {
        Some(binding) => ImageModel {
            name: Some(binding),
            build: image.build,
            reference_name: Some(binding + ".imageName"@),
        },
        None => image,
    }
}

/// The image of one construction, given what its properties read as: none
/// where they are no JSON or do not match the blueprint.
pub open spec fn image_of(document: Option<crate::document::Tree>, binding: Option<Seq<char>>) -> Option<
    ImageModel,
> {
    match document {
        Some(tree) => match decoded_image(tree) {
            Some(image) => Some(bound_image(image, binding)),
            None => None,
        },
        None => None,
    }
}

/// The name that a construction is bound to, without the white space
/// around it.
pub open spec fn binding_of(groups: Seq<Option<Seq<char>>>) -> Option<Seq<char>> {
    if group_present(groups, 3) {
        Some(trimmed(group_text(groups, 3)))
    } else {
        None
    }
}

/// The image of one match of [`IMAGE_PATTERN`].
pub open spec fn image_of_match(groups: Seq<Option<Seq<char>>>) -> Option<ImageModel> {
    image_of(json_document(image_json(group_text(groups, 6))), binding_of(groups))
}

/// The images of a list of matches of [`IMAGE_PATTERN`], in order; the
/// first that cannot be read fails them all.
pub open spec fn images_of_matches(found: Seq<Seq<Option<Seq<char>>>>) -> Result<
    Seq<ImageModel>,
    Seq<char>,
>
    decreases found.len(),
{
    if found.len() == 0 {
        Ok(Seq::empty())
    } else {
        match (images_of_matches(found.drop_last()), image_of_match(found.last())) {
            (Ok(before), Some(image)) => Ok(before.push(image)),
            _ => Err(MALFORMED_RESOURCE@),
        }
    }
}

/// The images that a script constructs.
pub open spec fn script_images(input: Seq<char>) -> Result<Seq<ImageModel>, Seq<char>> {
    images_of_matches(all_captures(IMAGE_PATTERN@, input))
}

proof fn lemma_images_fail(found: Seq<Seq<Option<Seq<char>>>>, upto: int)
    requires
        0 <= upto <= found.len(),
        images_of_matches(found.take(upto)) is Err,
    ensures
        images_of_matches(found) == Err::<Seq<ImageModel>, Seq<char>>(MALFORMED_RESOURCE@),
    decreases found.len() - upto,
{
    if upto < found.len() {
        assert(found.take(upto + 1).drop_last() =~= found.take(upto));
        lemma_images_fail(found, upto + 1);
    } else {
        assert(found.take(upto) =~= found);
    }
}

/// Builds the image of one construction out of what its properties read
/// as and the name it is bound to.
pub fn image_from_document(document: Option<crate::document::Node>, binding: Option<String>) -> (image:
    Option<ContainerImageBluePrint>)
    ensures
        image.deep_view() == image_of(document.deep_view(), binding.deep_view()),
{
    match document {
        Some(node) => match decode_image(&node) {
            Some(read) => match binding {
                Some(binding) => {
                    let reference = joined(binding.as_str(), ".imageName");
                    Some(
                        ContainerImageBluePrint {
                            name: Some(binding),
                            build: read.build,
                            reference_name: Some(reference),
                        },
                    )
                },
                None => Some(read),
            },
            None => None,
        },
        None => None,
    }
}

/// Reads the image of one match of [`IMAGE_PATTERN`].
pub fn image_from_match(groups: &Vec<Option<String>>) -> (image: Option<ContainerImageBluePrint>)
    ensures
        image.deep_view() == image_of_match(groups.deep_view()),
{
    let binding = if has_group(groups, 3) {
        let raw = group(groups, 3);
        let all = chars_of(raw.as_str());
        let kept = trim_chars(&all);
        Some(string_of(&kept))
    } else {
        None
    };
    let block = group(groups, 6);
    let normalized = normalize_block(block.as_str());
    let json = replace_text(normalized.as_str(), "imageName", "name");
    image_from_document(parse_json(json.as_str()), binding)
}

/// Reads the images that a script constructs.
pub fn get_images(input: &str) -> (images: Result<Vec<ContainerImageBluePrint>, String>)
    ensures
        images_view(images) == script_images(input@),
{
    let found = captures_iter(IMAGE_PATTERN, input);
    let ghost all = found.deep_view();
    let mut images: Vec<ContainerImageBluePrint> = Vec::new();
    let mut i: usize = 0;
    assert(all.take(0) =~= Seq::<Seq<Option<Seq<char>>>>::empty());
    assert(images.deep_view() =~= Seq::<ImageModel>::empty());
    while i < found.len()
        invariant
            i <= found.len(),
            all == found.deep_view(),
            all == all_captures(IMAGE_PATTERN@, input@),
            images_of_matches(all.take(i as int)) == Ok::<Seq<ImageModel>, Seq<char>>(
                images.deep_view(),
            ),
        decreases found.len() - i,
    {
        let ghost before = images.deep_view();
        proof {
            assert(all.take(i + 1).drop_last() =~= all.take(i as int));
            assert(all.take(i + 1).last() == found@[i as int].deep_view());
        }
        match image_from_match(&found[i]) {
            Some(image) => {
                images.push(image);
                assert(images.deep_view() =~= before.push(image.deep_view()));
            },
            None => {
                proof {
                    lemma_images_fail(all, i + 1);
                }
                return Err(String::from_str(MALFORMED_RESOURCE));
            },
        }
        i += 1;
    }
    assert(all.take(all.len() as int) =~= all);
    Ok(images)
}

/// The application of one match of [`APPLICATION_PATTERN`]: none where its
/// properties are no JSON or do not match the blueprint.
pub open spec fn app_of_match(groups: Seq<Option<Seq<char>>>) -> Option<ApplicationModel> {
    match json_document(normalized_block(group_text(groups, 3))) {
        Some(tree) => decoded_application(tree),
        None => None,
    }
}

/// The applications of a list of matches of [`APPLICATION_PATTERN`], in
/// order; the first that cannot be read fails them all.
pub open spec fn apps_of_matches(found: Seq<Seq<Option<Seq<char>>>>) -> Result<
    Seq<ApplicationModel>,
    Seq<char>,
>
    decreases found.len(),
{
    if found.len() == 0 {
        Ok(Seq::empty())
    } else {
        match (apps_of_matches(found.drop_last()), app_of_match(found.last())) {
            (Ok(before), Some(app)) => Ok(before.push(app)),
            _ => Err(MALFORMED_RESOURCE@),
        }
    }
}

/// The applications that a script constructs.
pub open spec fn script_apps(input: Seq<char>) -> Result<Seq<ApplicationModel>, Seq<char>> {
    apps_of_matches(all_captures(APPLICATION_PATTERN@, input))
}

proof fn lemma_apps_fail(found: Seq<Seq<Option<Seq<char>>>>, upto: int)
    requires
        0 <= upto <= found.len(),
        apps_of_matches(found.take(upto)) is Err,
    ensures
        apps_of_matches(found) == Err::<Seq<ApplicationModel>, Seq<char>>(MALFORMED_RESOURCE@),
    decreases found.len() - upto,
{
    if upto < found.len() {
        assert(found.take(upto + 1).drop_last() =~= found.take(upto));
        lemma_apps_fail(found, upto + 1);
    } else {
        assert(found.take(upto) =~= found);
    }
}

/// Reads the application of one match of [`APPLICATION_PATTERN`].
pub fn app_from_match(groups: &Vec<Option<String>>) -> (app: Option<ContainerAppBluePrint>)
    ensures
        app.deep_view() == app_of_match(groups.deep_view()),
{
    let block = group(groups, 3);
    let json = normalize_block(block.as_str());
    match parse_json(json.as_str()) {
        Some(node) => decode_application(&node),
        None => None,
    }
}

/// Reads the applications that a script constructs.
pub fn get_apps(input: &str) -> (apps: Result<Vec<ContainerAppBluePrint>, String>)
    ensures
        apps_view(apps) == script_apps(input@),
{
    let found = captures_iter(APPLICATION_PATTERN, input);
    let ghost all = found.deep_view();
    let mut apps: Vec<ContainerAppBluePrint> = Vec::new();
    let mut i: usize = 0;
    assert(all.take(0) =~= Seq::<Seq<Option<Seq<char>>>>::empty());
    assert(apps.deep_view() =~= Seq::<ApplicationModel>::empty());
    while i < found.len()
        invariant
            i <= found.len(),
            all == found.deep_view(),
            all == all_captures(APPLICATION_PATTERN@, input@),
            apps_of_matches(all.take(i as int)) == Ok::<Seq<ApplicationModel>, Seq<char>>(
                apps.deep_view(),
            ),
        decreases found.len() - i,
    {
        let ghost before = apps.deep_view();
        proof {
            assert(all.take(i + 1).drop_last() =~= all.take(i as int));
            assert(all.take(i + 1).last() == found@[i as int].deep_view());
        }
        match app_from_match(&found[i]) {
            Some(app) => {
                apps.push(app);
                assert(apps.deep_view() =~= before.push(app.deep_view()));
            },
            None => {
                proof {
                    lemma_apps_fail(all, i + 1);
                }
                return Err(String::from_str(MALFORMED_RESOURCE));
            },
        }
        i += 1;
    }
    assert(all.take(all.len() as int) =~= all);
    Ok(apps)
}

/// The services that a script gives rise to.
pub open spec fn script_conversion(input: Seq<char>) -> Result<Seq<ServiceModel>, Seq<char>> {
    converted(script_images(input), script_apps(input))
}

/// Converts a script: reads the images and the applications that it
/// constructs and emits their services.
pub fn deserialize(input: &str) -> (services: Result<Vec<ContainerAppConfiguration>, String>)
    ensures
        outcome_view(services) == script_conversion(input@),
{
    let images = match get_images(input) {
        Ok(images) => images,
        Err(message) => {
            return Err(message);
        },
    };
    let apps = match get_apps(input) {
        Ok(apps) => apps,
        Err(message) => {
            return Err(message);
        },
    };
    match build_configuration(apps, images) {
        Some(services) => Ok(services),
        None => Err(String::from_str(NOTHING_TO_CONVERT)),
    }
}

} // verus!
