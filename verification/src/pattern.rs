//! Regular expressions, matched by the `regex` crate.
//!
//! What a pattern matches in a text is not defined here: it is named by
//! [`all_captures`], and the one function that runs the engine says that it
//! returns what the name stands for. Everything else in this module is
//! verified against that name.

use vstd::prelude::*;

verus! {

/// The capture groups of every match of `pattern` in `text`, as the `regex`
/// crate finds them: one entry per successive match without overlap, from
/// left to right, and in each entry one item per group of the pattern, group
/// 0 being the whole match. An item is `None` where the group took no part in
/// the match. A pattern that the crate does not accept has no match.
pub uninterp spec fn all_captures(pattern: Seq<char>, text: Seq<char>) -> Seq<
    Seq<Option<Seq<char>>>,
>;

/// Compiles `pattern` with `regex::Regex::new` and walks `text` with
/// `Regex::captures_iter`, copying out the text of each group of each match.
/// The result is a function of the two texts alone, which is all that the
/// contract claims: it is [`all_captures`] by definition.
#[verifier::external_body]
pub(crate) fn captures_iter(pattern: &str, text: &str) -> (found: Vec<Vec<Option<String>>>)
    ensures
        found.deep_view() == all_captures(pattern@, text@),
{
    match regex::Regex::new(pattern) {
        Ok(compiled) => compiled.captures_iter(text).map(
            |m| m.iter().map(|group| group.map(|part| part.as_str().to_string())).collect(),
        ).collect(),
        Err(_) => Vec::new(),
    }
}

/// The capture groups of the first match of `pattern` in `text`.
pub open spec fn first_captures(pattern: Seq<char>, text: Seq<char>) -> Option<
    Seq<Option<Seq<char>>>,
> {
    if all_captures(pattern, text).len() > 0 {
        Some(all_captures(pattern, text)[0])
    } else {
        None
    }
}

/// Whether `pattern` matches anywhere in `text`.
pub open spec fn is_match(pattern: Seq<char>, text: Seq<char>) -> bool {
    all_captures(pattern, text).len() > 0
}

/// The text of group `index`, empty where the group is missing or took no
/// part in the match.
pub open spec fn group_text(groups: Seq<Option<Seq<char>>>, index: int) -> Seq<char> {
    if 0 <= index < groups.len() && groups[index] is Some {
        groups[index]->0
    } else {
        Seq::empty()
    }
}

/// Whether group `index` took part in the match.
pub open spec fn group_present(groups: Seq<Option<Seq<char>>>, index: int) -> bool {
    0 <= index < groups.len() && groups[index] is Some
}

/// Finds the first match of `pattern` in `text`.
pub fn find_first(pattern: &str, text: &str) -> (found: Option<Vec<Option<String>>>)
    ensures
        found.deep_view() == first_captures(pattern@, text@),
{
    let mut all = captures_iter(pattern, text);
    if all.len() > 0 {
        let ghost whole = all.deep_view();
        let first = all.swap_remove(0);
        assert(first.deep_view() == whole[0]);
        Some(first)
    } else {
        None
    }
}

/// Tests whether `pattern` matches anywhere in `text`.
pub fn has_match(pattern: &str, text: &str) -> (found: bool)
    ensures
        found == is_match(pattern@, text@),
{
    let all = captures_iter(pattern, text);
    assert(all.deep_view().len() == all.len());
    all.len() > 0
}

/// The text of group `index` of a match, empty where the group is missing
/// or took no part in the match.
pub fn group(groups: &Vec<Option<String>>, index: usize) -> (part: String)
    ensures
        part@ == group_text(groups.deep_view(), index as int),
{
    assert(groups.deep_view().len() == groups.len());
    if index < groups.len() {
        assert(groups.deep_view()[index as int] == groups@[index as int].deep_view());
        match &groups[index] {
            Some(part) => part.clone(),
            None => String::new(),
        }
    } else {
        String::new()
    }
}

/// Tests whether group `index` took part in a match.
pub fn has_group(groups: &Vec<Option<String>>, index: usize) -> (present: bool)
    ensures
        present == group_present(groups.deep_view(), index as int),
{
    assert(groups.deep_view().len() == groups.len());
    if index < groups.len() {
        assert(groups.deep_view()[index as int] == groups@[index as int].deep_view());
        groups[index].is_some()
    } else {
        false
    }
}

} // verus!
