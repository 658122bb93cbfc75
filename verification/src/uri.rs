//! File locations as URIs.
//!
//! A [`Uri`] holds the serialization of a URL produced by the `url` crate;
//! the library reads nothing else of it.

use vstd::prelude::*;
use crate::error::WatcherError;
use crate::text::{chars_of, concat2, find_char, find_char_exec, slice_chars, string_of, to_owned_string};

verus! {

/// Whether `Path::new(p).is_absolute()` holds for the path text `p` on the target platform.
pub uninterp spec fn spec_path_is_absolute(p: Seq<char>) -> bool;

/// The serialization of `Url::from_file_path(p)`, or `None` when it fails,
/// by the path rules of the target platform.
pub uninterp spec fn spec_url_from_file_path(p: Seq<char>) -> Option<Seq<char>>;

/// The serialization of `Url::parse(text)`, or `None` when it fails.
pub uninterp spec fn spec_url_parse(text: Seq<char>) -> Option<Seq<char>>;

/// The path (as text) that `Url::to_file_path` gives for the URL serialized as `text`,
/// or `None` when it fails, by the path rules of the target platform. A path
/// whose bytes are not UTF-8 is given as `to_string_lossy` shows it.
pub uninterp spec fn spec_url_to_file_path(text: Seq<char>) -> Option<Seq<char>>;

/// `s` starts with `prefix`.
pub open spec fn has_prefix(s: Seq<char>, prefix: Seq<char>) -> bool {
    prefix.len() <= s.len() && s.subrange(0, prefix.len() as int) == prefix
}

/// `p` starts with one `/` that no second separator (a slash or a backslash) follows:
/// the text of a rooted Unix path, and on Windows of a path without a prefix.
pub open spec fn single_rooted(p: Seq<char>) -> bool {
    p.len() >= 1 && p[0] == '/' && (p.len() == 1 || (p[1] != '/' && p[1] != '\\'))
}

/// Calls `std::path::Path::is_absolute` on the path text; the result is named
/// `spec_path_is_absolute`, which depends on the path text alone.
#[verifier::external_body]
fn path_is_absolute(p: &str) -> (r: bool)
    ensures
        r == spec_path_is_absolute(p@),
{
    std::path::Path::new(p).is_absolute()
}

/// Calls `url::Url::from_file_path` and keeps the URL's serialization.
/// The result is named `spec_url_from_file_path`; its source builds every
/// serialization it returns on the prefix `file://`. On the Unix-like targets
/// it fails only for a path that is not absolute, so an absolute path that
/// starts with a single `/` always converts; on Windows no such path is
/// absolute (it has no prefix), and which absolute Windows paths convert
/// (disk and well-formed UNC ones) is left unstated.
#[verifier::external_body]
fn url_from_file_path(p: &str) -> (r: Option<String>)
    ensures
        match r {
            Some(s) => spec_url_from_file_path(p@) == Some(s@) && has_prefix(s@, "file://"@),
            None => spec_url_from_file_path(p@) is None,
        },
        spec_path_is_absolute(p@) && single_rooted(p@) ==> r is Some,
{
    url::Url::from_file_path(p).ok().map(String::from)
}

/// Calls `url::Url::parse` and keeps the URL's serialization; the result is
/// named `spec_url_parse`.
#[verifier::external_body]
fn url_parse(text: &str) -> (r: Option<String>)
    ensures
        match r {
            Some(s) => spec_url_parse(text@) == Some(s@),
            None => spec_url_parse(text@) is None,
        },
{
    url::Url::parse(text).ok().map(String::from)
}

/// Calls `url::Url::to_file_path` on the URL serialized as `text` (turned back
/// into a `url::Url` by `Url::parse`) and gives the path as text; the result is
/// named `spec_url_to_file_path`.
#[verifier::external_body]
fn url_to_file_path(text: &str) -> (r: Option<String>)
    ensures
        match r {
            Some(s) => spec_url_to_file_path(text@) == Some(s@),
            None => spec_url_to_file_path(text@) is None,
        },
{
    url::Url::parse(text).ok().and_then(|u| u.to_file_path().ok()).map(
        |p| p.to_string_lossy().into_owned(),
    )
}

/// A URL, by its serialization.
pub struct Uri {
    text: String,
}

impl View for Uri {
    type V = Seq<char>;

    closed spec fn view(&self) -> Seq<char> {
        self.text@
    }
}

/// The scheme of a URL serialization: the part before the first `:`
/// (the whole text when there is none).
pub open spec fn spec_scheme(text: Seq<char>) -> Seq<char> {
    let i = find_char(text, ':');
    if i < 0 {
        text
    } else {
        text.subrange(0, i)
    }
}

impl Clone for Uri {
    fn clone(&self) -> (r: Self)
        ensures
            r@ == self@,
    {
        Uri { text: self.text.clone() }
    }
}

impl Uri {
    /// Parses a URL (`url::Url::parse`).
    pub fn parse(text: &str) -> (r: Option<Uri>)
        ensures
            match r {
                Some(u) => spec_url_parse(text@) == Some(u@),
                None => spec_url_parse(text@) is None,
            },
    {
        match url_parse(text) {
            Some(s) => Some(Uri { text: s }),
            None => None,
        }
    }

    /// The URL's serialization.
    pub fn as_str(&self) -> (r: &str)
        ensures
            r@ == self@,
    {
        self.text.as_str()
    }

    /// The URL's serialization, as an owned string.
    pub fn to_text(&self) -> (r: String)
        ensures
            r@ == self@,
    {
        self.text.clone()
    }

    /// The URL's scheme (`url::Url::scheme`).
    pub fn scheme(&self) -> (r: String)
        ensures
            r@ == spec_scheme(self@),
    {
        let cs = chars_of(self.text.as_str());
        match find_char_exec(cs.as_slice(), ':') {
            Some(i) => {
                let pre = slice_chars(cs.as_slice(), 0, i);
                string_of(pre.as_slice())
            },
            None => to_owned_string(self.text.as_str()),
        }
    }

    /// The file path that a `file` URL names (`url::Url::to_file_path`).
    pub fn to_file_path(&self) -> (r: Option<String>)
        ensures
            match r {
                Some(p) => spec_url_to_file_path(self@) == Some(p@),
                None => spec_url_to_file_path(self@) is None,
            },
    {
        url_to_file_path(self.text.as_str())
    }
}

/// The outcome of turning the path text `p` into a file URL.
pub open spec fn spec_path_to_uri(p: Seq<char>) -> Result<Seq<char>, Seq<char>> {
    if !spec_path_is_absolute(p) {
        Err("Expected absolute path: "@ + p)
    } else {
        match spec_url_from_file_path(p) {
            Some(u) => Ok(u),
            None => Err(p),
        }
    }
}

/// Turns an absolute path into a `file` URL; the error, a `UriFailed`,
/// carries the reason.
pub fn path_to_uri(path: &str) -> (r: Result<Uri, WatcherError>)
    ensures
        match spec_path_to_uri(path@) {
            Ok(u) => r matches Ok(x) && x@ == u,
            Err(m) => r matches Err(WatcherError::UriFailed(s)) && s@ == m,
        },
        r matches Ok(x) ==> has_prefix(x@, "file://"@),
        spec_path_is_absolute(path@) && single_rooted(path@) ==> r is Ok,
{
    if !path_is_absolute(path) {
        return Err(WatcherError::UriFailed(concat2("Expected absolute path: ", path)));
    }
    match url_from_file_path(path) {
        Some(s) => Ok(Uri { text: s }),
        None => Err(WatcherError::UriFailed(to_owned_string(path))),
    }
}

} // verus!
