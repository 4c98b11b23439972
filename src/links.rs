//! URLs and file paths: the URL a socket connects to, the download URL of a
//! bot file, and where a downloaded file is written.

use vstd::prelude::*;
use vstd::string::*;

verus! {

#[verifier::external_type_specification]
#[verifier::external_body]
pub struct ExUrl(url::Url);

/// Whether `s` parses as an absolute URL; depends on the text alone.
pub uninterp spec fn url_accepts(s: Seq<char>) -> bool;

/// Relies on url's `Url::parse`: an absolute URL from `s`, or the parse
/// error's text.
#[verifier::external_body]
fn parse_url(s: &str) -> (r: Result<url::Url, String>)
    ensures
        r is Ok == url_accepts(s@),
{
    match url::Url::parse(s) {
        Ok(u) => Ok(u),
        Err(e) => Err(e.to_string()),
    }
}

/// Relies on url's `Url::path_segments`: the first segment of the path, for
/// a URL whose path has segments.
#[verifier::external_body]
fn first_path_segment(u: &url::Url) -> (r: Option<String>) {
    match u.path_segments() {
        Some(mut segments) => match segments.next() {
            Some(s) => Some(s.to_string()),
            None => None,
        },
        None => None,
    }
}

/// Relies on url's `Url::path_segments_mut` with `PathSegmentsMut::pop` and
/// `PathSegmentsMut::extend`: drops the last path segment and appends
/// `segments`; false, with `u` unchanged, for a URL whose path has no segments.
#[verifier::external_body]
fn replace_last_segment(u: &mut url::Url, segments: &Vec<String>) -> (r: bool) {
    match u.path_segments_mut() {
        Ok(mut path) => {
            path.pop().extend(segments.iter());
            true
        },
        Err(()) => false,
    }
}

/// Relies on url's `Url::as_str`: the serialization of `u`.
#[verifier::external_body]
fn url_text(u: &url::Url) -> (r: String) {
    u.as_str().to_string()
}

/// The URL a socket client connects to; a text that does not parse is
/// refused with a diagnostic.
pub fn socket_url(s: &str) -> (r: Result<url::Url, String>)
    ensures
        r is Ok <==> url_accepts(s@),
        r matches Err(m) ==> exists|d: Seq<char>| m@ == "connection error: "@ + d,
{
    match parse_url(s) {
        Ok(u) => Ok(u),
        Err(d) => {
            let m = String::from_str("connection error: ").concat(d.as_str());
            assert(m@ == "connection error: "@ + d@);
            Err(m)
        },
    }
}

/// The download URL of a bot file: the API URL with its last path segment
/// replaced by `file`, the API URL's first segment, and `file`. `None` when
/// the API URL does not parse or has no path segments.
#[must_use]
pub fn make_file_url(api_url: &str, file: &str) -> (r: Option<String>)
    ensures
        r is Some ==> url_accepts(api_url@),
{
    let mut u = match parse_url(api_url) {
        Ok(u) => u,
        Err(_) => {
            return None;
        },
    };
    let api_path = match first_path_segment(&u) {
        Some(p) => p,
        None => {
            return None;
        },
    };
    let mut segments: Vec<String> = Vec::new();
    segments.push(String::from_str("file"));
    segments.push(api_path);
    segments.push(String::from_str(file));
    if !replace_last_segment(&mut u, &segments) {
        return None;
    }
    Some(url_text(&u))
}

/// Relies on std's `Path::file_name`: the last component of `path` when it
/// is a normal one, as text when it is valid UTF-8.
#[verifier::external_body]
fn path_file_name(path: &str) -> (r: Option<String>) {
    match std::path::Path::new(path).file_name() {
        Some(name) => match name.to_str() {
            Some(s) => Some(s.to_string()),
            None => None,
        },
        None => None,
    }
}

/// Relies on std's `Path::is_absolute`: whether `path` is absolute on this platform.
#[verifier::external_body]
fn path_is_absolute(path: &str) -> (r: bool) {
    std::path::Path::new(path).is_absolute()
}

/// Relies on std's `Path::join`: `name` appended to `base` with this
/// platform's separator, as text when it is valid UTF-8.
#[verifier::external_body]
fn path_join(base: &str, name: &str) -> (r: Option<String>) {
    match std::path::Path::new(base).join(name).to_str() {
        Some(s) => Some(s.to_string()),
        None => None,
    }
}

/// Where a download is written, given the downloaded file's name, whether
/// its remote path was absolute, and that name joined to the base
/// directory: an absolute remote path keeps only the name.
pub fn choose_full_path(file_name: String, absolute: bool, joined: Option<String>) -> (r: Option<
    String,
>)
    ensures
        absolute ==> r == Some(file_name),
        !absolute ==> r == joined,
{
    if absolute {
        Some(file_name)
    } else {
        joined
    }
}

/// Where a downloaded file is written: its name inside `base_dir`, or its
/// bare name when `path` is absolute; `None` when `path` ends in no file name.
#[must_use]
pub fn make_file_full_path(base_dir: &str, path: &str) -> (r: Option<String>) {
    let name = match path_file_name(path) {
        Some(n) => n,
        None => {
            return None;
        },
    };
    let absolute = path_is_absolute(path);
    let joined = if absolute {
        None
    } else {
        path_join(base_dir, name.as_str())
    };
    choose_full_path(name, absolute, joined)
}

} // verus!
