//! Path templates: `{name}` placeholders inside a URL path.
use regex::Regex;
use vstd::prelude::*;

verus! {

/// The pattern of one placeholder: one or more ASCII letters, digits or
/// underscores between braces, the name being its first group.
pub const PLACEHOLDER_PATTERN: &'static str = "\\{([a-zA-Z0-9_]+)\\}";

/// A character that may stand in a placeholder's name.
pub open spec fn is_name_char(c: char) -> bool {
    ('a' <= c && c <= 'z') || ('A' <= c && c <= 'Z') || ('0' <= c && c <= '9') || c == '_'
}

/// The number of consecutive name characters of `s` from index `i`.
pub open spec fn name_run(s: Seq<char>, i: int) -> nat
    decreases s.len() - i,
{
    if 0 <= i < s.len() && is_name_char(s[i]) {
        1 + name_run(s, i + 1)
    } else {
        0
    }
}

/// Index of the closing brace of a placeholder starting at `i`.
pub open spec fn placeholder_close(s: Seq<char>, i: int) -> int {
    i + 1 + name_run(s, i + 1)
}

/// A placeholder `{name}` starts at index `i` of `s`.
pub open spec fn placeholder_at(s: Seq<char>, i: int) -> bool {
    &&& 0 <= i < s.len()
    &&& s[i] == '{'
    &&& name_run(s, i + 1) > 0
    &&& placeholder_close(s, i) < s.len()
    &&& s[placeholder_close(s, i)] == '}'
}

/// The names of the placeholders of `s` from index `i` on, left to right,
/// each found at the leftmost place where one starts after the previous one.
pub open spec fn placeholder_names_from(s: Seq<char>, i: int) -> Seq<Seq<char>>
    decreases s.len() - i,
{
    if i < 0 || i >= s.len() {
        Seq::empty()
    } else if placeholder_at(s, i) {
        seq![s.subrange(i + 1, placeholder_close(s, i))] + placeholder_names_from(
            s,
            placeholder_close(s, i) + 1,
        )
    } else {
        placeholder_names_from(s, i + 1)
    }
}

/// The names of all placeholders of `s`, in order.
pub open spec fn placeholder_names(s: Seq<char>) -> Seq<Seq<char>> {
    placeholder_names_from(s, 0)
}

/// `s` from index `i` on, with each of its placeholders removed.
pub open spec fn strip_placeholders_from(s: Seq<char>, i: int) -> Seq<char>
    decreases s.len() - i,
{
    if i < 0 || i >= s.len() {
        Seq::empty()
    } else if placeholder_at(s, i) {
        strip_placeholders_from(s, placeholder_close(s, i) + 1)
    } else {
        seq![s[i]] + strip_placeholders_from(s, i + 1)
    }
}

/// `s` with each of its placeholders removed.
pub open spec fn strip_placeholders(s: Seq<char>) -> Seq<char> {
    strip_placeholders_from(s, 0)
}

/// Names of the placeholders of `text`.
/// Relies on `regex::Regex::new` and `regex::Regex::captures_iter`: for this
/// pattern the matches come left to right without overlap, each at the leftmost
/// position where one starts, and group 1 is the name between the braces.
#[verifier::external_body]
pub(crate) fn capture_placeholder_names(pattern: &str, text: &str) -> (r: Vec<String>)
    requires
        pattern@ == PLACEHOLDER_PATTERN@,
    ensures
        r@.len() == placeholder_names(text@).len(),
        forall|k: int| 0 <= k < r@.len() ==> #[trigger] r@[k]@ == placeholder_names(text@)[k],
{
    let re = Regex::new(pattern).unwrap();
    re.captures_iter(text).map(|c| c[1].to_string()).collect()
}

/// `text` without its placeholders.
/// Relies on `regex::Regex::new` and `regex::Regex::replace_all` with an empty
/// replacement: every match, found as for `captures_iter`, is removed.
#[verifier::external_body]
pub(crate) fn remove_placeholders(pattern: &str, text: &str) -> (r: String)
    requires
        pattern@ == PLACEHOLDER_PATTERN@,
    ensures
        r@ == strip_placeholders(text@),
{
    let re = Regex::new(pattern).unwrap();
    re.replace_all(text, "").to_string()
}

/// The names of the placeholders of a path template, in order.
pub fn placeholder_names_of(path: &str) -> (r: Vec<String>)
    ensures
        crate::text::texts(r@) == placeholder_names(path@),
{
    let r = capture_placeholder_names(PLACEHOLDER_PATTERN, path);
    assert(crate::text::texts(r@) =~= placeholder_names(path@));
    r
}

/// A path template with its placeholders removed.
pub fn without_placeholders(path: &str) -> (r: String)
    ensures
        r@ == strip_placeholders(path@),
{
    remove_placeholders(PLACEHOLDER_PATTERN, path)
}

} // verus!
