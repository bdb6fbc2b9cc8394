use vstd::prelude::*;
use vstd::string::*;
use crate::naming::opt_view;
use crate::retry::Outcome;
use crate::pattern::{
    captures, compile, compiles, escape, escape_spec, group_one, leftmost_groups,
    groups_view, opt_groups_view, opt_string_view, Pattern,
};

verus! {

/// Locates a download reference in a listing page; group 1 is the URL.
pub const DOWNLOAD_URL_PATTERN: &'static str = r"APKJ..(https?://(?:[^\s]+))";

/// Put before the escaped version in the pinned-version pattern: the version
/// must not follow a digit.
pub const PINNED_PREFIX: &'static str = "[[:^digit:]]";

/// Put between the escaped version and the download reference: a colon, then
/// the shortest run of any characters, line breaks included.
pub const PINNED_GAP: &'static str = ":(?s:.)+?";

/// The status code of a listing page that is read.
pub const STATUS_OK: u16 = 200;

/// Whether a listing page served with `status` is read; any other status is
/// a bad response.
pub fn page_served(status: u16) -> (r: bool)
    ensures
        r == (status == STATUS_OK),
{
    status == STATUS_OK
}

/// Why no download location came out of a page.
#[derive(Clone, Copy, Debug, PartialEq, Eq, Structural)]
pub enum ResolveError {
    /// The page holds no download reference for the request.
    NoMatch,
    /// The regular expression built for the request was refused.
    InvalidPattern,
}

/// The pattern that finds the download reference of `version` in a page.
pub open spec fn pinned_pattern_spec(version: Seq<char>) -> Seq<char> {
    PINNED_PREFIX@ + escape_spec(version) + PINNED_GAP@ + DOWNLOAD_URL_PATTERN@
}

/// The pattern used for a request: the latest-version pattern, or the pinned
/// one when a version is given.
pub open spec fn pattern_for(version: Option<Seq<char>>) -> Seq<char> {
    match version {
        Some(v) => pinned_pattern_spec(v),
        None => DOWNLOAD_URL_PATTERN@,
    }
}

/// The download location that `page` yields for a request, by the contract
/// of the regular-expression engine.
pub open spec fn resolve_spec(page: Seq<char>, version: Option<Seq<char>>) -> Result<Seq<char>, ResolveError> {
    let p = pattern_for(version);
    if !compiles(p) {
        Err(ResolveError::InvalidPattern)
    } else {
        match group_one_of(leftmost_groups(p, page)) {
            Some(u) => Ok(u),
            None => Err(ResolveError::NoMatch),
        }
    }
}

/// Group 1 of a match, if there is a match.
pub open spec fn group_one_of(groups: Option<Seq<Option<Seq<char>>>>) -> Option<Seq<char>> {
    match groups {
        Some(g) => group_one(g),
        None => None,
    }
}

pub open spec fn result_view(r: Result<String, ResolveError>) -> Result<Seq<char>, ResolveError> {
    match r {
        Ok(s) => Ok(s@),
        Err(e) => Err(e),
    }
}

/// Builds the source of the pinned-version pattern for `version`.
pub fn pinned_pattern(version: &str) -> (r: String)
    ensures
        r@ == pinned_pattern_spec(version@),
{
    let mut r = String::from_str(PINNED_PREFIX);
    let escaped = escape(version);
    r.append(escaped.as_str());
    r.append(PINNED_GAP);
    r.append(DOWNLOAD_URL_PATTERN);
    r
}

/// Takes the URL out of the groups of a match: group 1, when the match has
/// at least two groups and group 1 took part in it.
pub fn select_url(groups: Option<Vec<Option<String>>>) -> (r: Option<String>)
    ensures
        opt_string_view(r) == group_one_of(opt_groups_view(groups)),
{
    match groups {
        Some(g) => {
            if g.len() >= 2 {
                let ghost gv = g@;
                let mut g = g;
                let url = g.swap_remove(1);
                assert(groups_view(gv)[1] == opt_string_view(gv[1]));
                url
            } else {
                None
            }
        },
        None => None,
    }
}

/// Extracts the download URL for a request from its listing page: with no
/// version, the first download reference; with a pinned version, the first
/// download reference that follows an occurrence of that version.
pub fn resolve(page: &str, version: Option<&str>) -> (r: Result<String, ResolveError>)
    ensures
        result_view(r) == resolve_spec(page@, opt_view(version)),
{
    let source = match version {
        Some(v) => pinned_pattern(v),
        None => String::from_str(DOWNLOAD_URL_PATTERN),
    };
    let p: Pattern = match compile(source) {
        Ok(p) => p,
        Err(_) => {
            return Err(ResolveError::InvalidPattern);
        },
    };
    match select_url(captures(&p, page)) {
        Some(u) => Ok(u),
        None => Err(ResolveError::NoMatch),
    }
}

/// What a download task does once its listing page has been asked for: the
/// URL to download, or the terminal outcome when `page` was not served
/// (`BadResponse`) or yields no URL (`NoMatch`).
pub fn plan_download(page: Option<&str>, version: Option<&str>) -> (r: Result<String, Outcome>)
    ensures
        page is None ==> r == Err::<String, Outcome>(Outcome::BadResponse),
        page is Some ==> match resolve_spec(page->0@, opt_view(version)) {
            Ok(u) => r is Ok && r->Ok_0@ == u,
            Err(_) => r == Err::<String, Outcome>(Outcome::NoMatch),
        },
{
    match page {
        None => Err(Outcome::BadResponse),
        Some(p) => match resolve(p, version) {
            Ok(u) => Ok(u),
            Err(_) => Err(Outcome::NoMatch),
        },
    }
}

} // verus!
