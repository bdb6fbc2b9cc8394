use vstd::prelude::*;
use vstd::string::*;

verus! {

/// The catalog endpoint that lists the versions of a package; the package id
/// is appended to it.
pub const VERSIONS_URL_PREFIX: &'static str = "https://api.pureapk.com/m/v3/cms/app_version?hl=en-US&package_name=";

/// How a request is named in messages and files: the package id, followed by
/// `@` and the version when one is pinned.
pub open spec fn display_name_spec(package_id: Seq<char>, version: Option<Seq<char>>) -> Seq<char> {
    match version {
        Some(v) => package_id + "@"@ + v,
        None => package_id,
    }
}

/// The name of the file that a request is stored under.
pub open spec fn file_name_spec(package_id: Seq<char>, version: Option<Seq<char>>) -> Seq<char> {
    display_name_spec(package_id, version) + ".apk"@
}

pub open spec fn opt_view(version: Option<&str>) -> Option<Seq<char>> {
    match version {
        Some(v) => Some(v@),
        None => None,
    }
}

/// `package_id`, or `package_id@version` for a pinned version.
pub fn display_name(package_id: &str, version: Option<&str>) -> (r: String)
    ensures
        r@ == display_name_spec(package_id@, opt_view(version)),
{
    let mut r = String::from_str(package_id);
    match version {
        Some(v) => {
            r.append("@");
            r.append(v);
        },
        None => {},
    }
    r
}

/// `package_id.apk`, or `package_id@version.apk` for a pinned version.
pub fn file_name(package_id: &str, version: Option<&str>) -> (r: String)
    ensures
        r@ == file_name_spec(package_id@, opt_view(version)),
{
    let mut r = display_name(package_id, version);
    r.append(".apk");
    r
}

/// The address of the listing page of a package.
pub fn versions_url(package_id: &str) -> (r: String)
    ensures
        r@ == VERSIONS_URL_PREFIX@ + package_id@,
{
    let mut r = String::from_str(VERSIONS_URL_PREFIX);
    r.append(package_id);
    r
}

} // verus!
