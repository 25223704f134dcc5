//! Calls into the `url` crate and into `std::path` for what a target string
//! denotes. URLs are passed around as their text.

use vstd::prelude::*;

verus! {

/// The serialization of `text` parsed as an absolute URL by `url::Url::parse`; `None` when it does not parse.
pub uninterp spec fn spec_url_parse(text: Seq<char>) -> Option<Seq<char>>;

/// The scheme `url::Url::scheme` reports for `text` (lower-case, without `:`).
pub uninterp spec fn spec_url_scheme(text: Seq<char>) -> Option<Seq<char>>;

/// The host `url::Url::host_str` reports for `text`, if the URL has one.
pub uninterp spec fn spec_url_host(text: Seq<char>) -> Option<Seq<char>>;

/// The path `url::Url::path` reports for `text`.
pub uninterp spec fn spec_url_path(text: Seq<char>) -> Option<Seq<char>>;

/// Calls `url::Url::parse` and returns the serialization (`String::from(url)`);
/// the result is a function of `text`.
#[verifier::external_body]
pub(crate) fn url_parse(text: &str) -> (r: Option<String>)
    ensures
        match r {
            Some(s) => spec_url_parse(text@) == Some(s@),
            None => spec_url_parse(text@) is None,
        },
{
    url::Url::parse(text).ok().map(String::from)
}

/// Calls `url::Url::scheme` on `text` parsed by `url::Url::parse`; `None`
/// exactly when `text` does not parse.
#[verifier::external_body]
pub(crate) fn url_scheme(text: &str) -> (r: Option<String>)
    ensures
        r is Some <==> spec_url_parse(text@) is Some,
        match r {
            Some(s) => spec_url_scheme(text@) == Some(s@),
            None => spec_url_scheme(text@) is None,
        },
{
    url::Url::parse(text).ok().map(|u| u.scheme().to_owned())
}

/// Calls `url::Url::host_str` on `text` parsed by `url::Url::parse`; `None`
/// when `text` does not parse or the URL has no host.
#[verifier::external_body]
pub(crate) fn url_host(text: &str) -> (r: Option<String>)
    ensures
        match r {
            Some(s) => spec_url_host(text@) == Some(s@),
            None => spec_url_host(text@) is None,
        },
{
    url::Url::parse(text).ok().and_then(|u| u.host_str().map(str::to_owned))
}

/// Calls `url::Url::path` on `text` parsed by `url::Url::parse`; `None`
/// exactly when `text` does not parse.
#[verifier::external_body]
pub(crate) fn url_path(text: &str) -> (r: Option<String>)
    ensures
        r is Some <==> spec_url_parse(text@) is Some,
        match r {
            Some(s) => spec_url_path(text@) == Some(s@),
            None => spec_url_path(text@) is None,
        },
{
    url::Url::parse(text).ok().map(|u| u.path().to_owned())
}

/// Calls `url::Url::to_file_path` on `text` parsed by `url::Url::parse`.
/// The path depends on the platform the program runs on (drive paths on
/// Windows, `/`-rooted paths elsewhere), so nothing is stated of it beyond
/// that `text` parses.
#[verifier::external_body]
pub(crate) fn url_to_file_path(text: &str) -> (r: Option<String>)
    ensures
        r is Some ==> spec_url_parse(text@) is Some,
{
    url::Url::parse(text).ok().and_then(|u| u.to_file_path().ok()).map(
        |p| p.to_string_lossy().into_owned(),
    )
}

/// Calls `std::path::Path::is_absolute`. Whether a path is absolute depends
/// on the platform the program runs on, so nothing is stated of the result.
#[verifier::external_body]
pub(crate) fn path_is_absolute(text: &str) -> bool {
    std::path::Path::new(text).is_absolute()
}

/// Calls `url::Url::from_file_path` and returns the serialization. Which
/// paths are absolute, and how they are written as URLs, depends on the
/// platform the program runs on; stated is only that a URL it gives starts
/// with `file://`, as its serialization is built on that prefix.
#[verifier::external_body]
pub(crate) fn url_from_file_path(path: &str) -> (r: Option<String>)
    ensures
        r matches Some(u) ==> "file://"@.is_prefix_of(u@),
{
    url::Url::from_file_path(path).ok().map(String::from)
}

/// Calls `url::Url::from_directory_path` and returns the serialization.
/// Platform-dependent like `url_from_file_path`; stated is only that a URL
/// it gives starts with `file://` and ends with `/`, which the method adds
/// when missing.
#[verifier::external_body]
pub(crate) fn url_from_directory_path(path: &str) -> (r: Option<String>)
    ensures
        r matches Some(u) ==> "file://"@.is_prefix_of(u@) && u@.len() > 0 && u@.last() == '/',
{
    url::Url::from_directory_path(path).ok().map(String::from)
}

// ---------------------------------------------------------------------------
// What the platform answered
// ---------------------------------------------------------------------------
//
// The four calls above that depend on the platform get no name for their
// results. What is stated instead is which text each was handed: the
// predicates below hold of an answer exactly when it is what the call gave
// for that text.

/// The view of an optional string.
pub open spec fn opt_view(r: Option<String>) -> Option<Seq<char>> {
    match r {
        Some(s) => Some(s@),
        None => None,
    }
}

/// `answer` is what `url::Url::to_file_path` gave for `text`.
pub closed spec fn platform_file_path(text: Seq<char>, answer: Option<Seq<char>>) -> bool {
    exists|t: &str, r: Option<String>|
        #![trigger call_ensures(url_to_file_path, (t,), r)]
        t@ == text && opt_view(r) == answer && call_ensures(url_to_file_path, (t,), r)
}

/// `answer` is what `std::path::Path::is_absolute` gave for `text`.
pub closed spec fn platform_absolute(text: Seq<char>, answer: bool) -> bool {
    exists|t: &str| #![trigger call_ensures(path_is_absolute, (t,), answer)]
        t@ == text && call_ensures(path_is_absolute, (t,), answer)
}

/// `answer` is what `url::Url::from_file_path` gave for `path`.
pub closed spec fn platform_file_url(path: Seq<char>, answer: Option<Seq<char>>) -> bool {
    exists|t: &str, r: Option<String>|
        #![trigger call_ensures(url_from_file_path, (t,), r)]
        t@ == path && opt_view(r) == answer && call_ensures(url_from_file_path, (t,), r)
}

/// `answer` is what `url::Url::from_directory_path` gave for `path`.
pub closed spec fn platform_directory_url(path: Seq<char>, answer: Option<Seq<char>>) -> bool {
    exists|t: &str, r: Option<String>|
        #![trigger call_ensures(url_from_directory_path, (t,), r)]
        t@ == path && opt_view(r) == answer && call_ensures(url_from_directory_path, (t,), r)
}

/// `local` is `text` when the platform deems `text` an absolute path, and
/// nothing otherwise.
pub open spec fn absolute_path_answer(text: Seq<char>, local: Option<Seq<char>>) -> bool {
    exists|absolute: bool| #[trigger] platform_absolute(text, absolute) && local == if absolute {
        Some(text)
    } else {
        None
    }
}

/// The local path of the `file:` URL `text`, as the platform reads it.
pub(crate) fn file_path_of(text: &str) -> (r: Option<String>)
    ensures
        platform_file_path(text@, opt_view(r)),
        r is Some ==> spec_url_parse(text@) is Some,
{
    let convert = url_to_file_path;
    let r = convert(text);
    assert(call_ensures(url_to_file_path, (text,), r));
    r
}

/// Whether the platform deems `text` an absolute path.
pub(crate) fn is_absolute_path(text: &str) -> (r: bool)
    ensures
        platform_absolute(text@, r),
{
    let check = path_is_absolute;
    let r = check(text);
    assert(call_ensures(path_is_absolute, (text,), r));
    r
}

/// The `file:` URL of the file `path`, as the platform writes it.
pub(crate) fn file_url_of(path: &str) -> (r: Option<String>)
    ensures
        platform_file_url(path@, opt_view(r)),
        r matches Some(u) ==> "file://"@.is_prefix_of(u@),
{
    let convert = url_from_file_path;
    let r = convert(path);
    assert(call_ensures(url_from_file_path, (path,), r));
    r
}

/// The `file:` URL of the directory `path`, as the platform writes it.
pub(crate) fn directory_url_of(path: &str) -> (r: Option<String>)
    ensures
        platform_directory_url(path@, opt_view(r)),
        r matches Some(u) ==> "file://"@.is_prefix_of(u@) && u@.len() > 0 && u@.last() == '/',
{
    let convert = url_from_directory_path;
    let r = convert(path);
    assert(call_ensures(url_from_directory_path, (path,), r));
    r
}

} // verus!
