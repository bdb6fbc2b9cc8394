use vstd::prelude::*;
use regex::Regex;

verus! {

#[verifier::external_type_specification]
#[verifier::external_body]
pub struct ExRegex(regex::Regex);

#[verifier::external_type_specification]
#[verifier::external_body]
pub struct ExRegexError(regex::Error);

/// Whether `pattern` is accepted by `regex::Regex::new`.
pub uninterp spec fn compiles(pattern: Seq<char>) -> bool;

/// The capture groups of the leftmost-first match of `pattern` in `text`, as
/// `regex::Regex::captures` reports them (group 0 is the whole match).
pub uninterp spec fn leftmost_groups(pattern: Seq<char>, text: Seq<char>) -> Option<Seq<Option<Seq<char>>>>;

/// The capture groups of each successive non-overlapping match of `pattern`
/// in `text`, as `regex::Regex::captures_iter` reports them.
pub uninterp spec fn all_match_groups(pattern: Seq<char>, text: Seq<char>) -> Seq<Seq<Option<Seq<char>>>>;

pub open spec fn opt_string_view(o: Option<String>) -> Option<Seq<char>> {
    match o {
        Some(s) => Some(s@),
        None => None,
    }
}

/// The capture groups of one match, as text.
pub open spec fn groups_view(g: Seq<Option<String>>) -> Seq<Option<Seq<char>>> {
    g.map_values(|o: Option<String>| opt_string_view(o))
}

pub open spec fn opt_groups_view(g: Option<Vec<Option<String>>>) -> Option<Seq<Option<Seq<char>>>> {
    match g {
        Some(v) => Some(groups_view(v@)),
        None => None,
    }
}

/// Group 1 of a match: the captured value that the matchers extract.
pub open spec fn group_one(g: Seq<Option<Seq<char>>>) -> Option<Seq<char>> {
    if g.len() >= 2 {
        g[1]
    } else {
        None
    }
}

/// A character that `regex::escape` escapes.
pub open spec fn is_meta(c: char) -> bool {
    c == '\\' || c == '.' || c == '+' || c == '*' || c == '?' || c == '(' || c == ')' || c == '|'
        || c == '[' || c == ']' || c == '{' || c == '}' || c == '^' || c == '$' || c == '#'
        || c == '&' || c == '-' || c == '~'
}

/// `s` with a backslash put before each meta character.
pub open spec fn escape_spec(s: Seq<char>) -> Seq<char>
    decreases s.len(),
{
    if s.len() == 0 {
        Seq::empty()
    } else {
        let c = s.last();
        escape_spec(s.drop_last()) + if is_meta(c) {
            seq!['\\', c]
        } else {
            seq![c]
        }
    }
}

/// A compiled regular expression together with its source text. Only
/// `compile` builds one, so `re` is always the compilation of `source`.
pub struct Pattern {
    source: String,
    re: Regex,
}

impl View for Pattern {
    type V = Seq<char>;

    closed spec fn view(&self) -> Seq<char> {
        self.source@
    }
}

/// Relies on `regex::Regex::new`: it compiles `source`, and whether it accepts
/// it depends on the text of `source` alone.
#[verifier::external_body]
pub fn compile(source: String) -> (r: Result<Pattern, regex::Error>)
    ensures
        r is Ok <==> compiles(source@),
        r is Ok ==> r->Ok_0@ == source@,
{
    match Regex::new(&source) {
        Ok(re) => Ok(Pattern { source, re }),
        Err(e) => Err(e),
    }
}

/// Relies on `regex::Regex::captures`: the groups of the leftmost-first match,
/// if any.
#[verifier::external_body]
pub fn captures(p: &Pattern, text: &str) -> (r: Option<Vec<Option<String>>>)
    ensures
        opt_groups_view(r) == leftmost_groups(p@, text@),
{
    p.re.captures(text).map(|c| c.iter().map(|m| m.map(|m| m.as_str().to_string())).collect())
}

/// Relies on `regex::Regex::captures_iter`: the groups of every successive
/// match.
#[verifier::external_body]
pub fn captures_all(p: &Pattern, text: &str) -> (r: Vec<Vec<Option<String>>>)
    ensures
        r@.len() == all_match_groups(p@, text@).len(),
        forall|i: int| 0 <= i < r@.len() ==> groups_view(#[trigger] r@[i]@) == all_match_groups(p@, text@)[i],
{
    p.re.captures_iter(text).map(|c| c.iter().map(|m| m.map(|m| m.as_str().to_string())).collect()).collect()
}

/// Relies on `regex::escape`: each meta character gets a backslash before it.
#[verifier::external_body]
pub fn escape(s: &str) -> (r: String)
    ensures
        r@ == escape_spec(s@),
{
    regex::escape(s)
}

} // verus!
