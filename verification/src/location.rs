//! Where the input comes from: a remote locator or a local path.
//!
//! A raw argument is first read as a URL. Only if it is none is it taken as
//! a path, and then the path has to exist. An argument that is neither is
//! refused with a message that names it.

use vstd::prelude::*;
use vstd::string::StringExecFns;

verus! {

/// A resolved input location.
#[derive(Debug, Clone, PartialEq)]
pub enum SmartPath {
    /// A path on this machine, as it was given.
    FilePath(String),
    /// A URL, in the normal form that parsing gives it.
    Url(String),
}

/// A `SmartPath` with its text as a sequence of characters.
pub enum SmartPathView {
    FilePath(Seq<char>),
    Url(Seq<char>),
}

impl View for SmartPath {
    type V = SmartPathView;

    open spec fn view(&self) -> SmartPathView {
        match self {
            SmartPath::FilePath(path) => SmartPathView::FilePath(path@),
            SmartPath::Url(url) => SmartPathView::Url(url@),
        }
    }
}

/// What `url::Url::parse` makes of `input`: the normal form of the URL, or
/// `None` where `input` is no URL.
pub uninterp spec fn parsed_url(input: Seq<char>) -> Option<Seq<char>>;

/// `url::Url::parse`, with the parsed URL turned back into text: the result
/// is `parsed_url` of the input. Parsing reads nothing but its argument.
#[verifier::external_body]
fn url_parse(input: &str) -> (parsed: Option<String>)
    ensures
        match parsed {
            Some(text) => parsed_url(input@) == Some(text@),
            None => parsed_url(input@) is None,
        },
{
    url::Url::parse(input).ok().map(String::from)
}

/// `std::path::Path::exists`: whether the file system has something at
/// `path` right now. The answer depends on the disk, so nothing is claimed.
#[verifier::external_body]
fn path_exists(path: &str) -> (on_disk: bool) {
    std::path::Path::new(path).exists()
}

/// The message for an argument that is neither a URL nor an existing path.
pub open spec fn refusal_text(raw: Seq<char>) -> Seq<char> {
    "`"@ + raw + "` is not a valid URL or file path"@
}

/// The location of the argument `raw`, where parsing it as a URL gave
/// `parsed` and the file system said `on_disk` of it as a path.
pub open spec fn resolved(raw: Seq<char>, parsed: Option<Seq<char>>, on_disk: bool) -> Result<
    SmartPathView,
    Seq<char>,
> {
    match parsed {
        Some(url) => Ok(SmartPathView::Url(url)),
        None => if on_disk {
            Ok(SmartPathView::FilePath(raw))
        } else {
            Err(refusal_text(raw))
        },
    }
}

/// Whether `answer` is `expected`, text for text.
pub open spec fn answers(
    answer: Result<SmartPath, String>,
    expected: Result<SmartPathView, Seq<char>>,
) -> bool {
    match expected {
        Ok(location) => answer matches Ok(found) && found@ == location,
        Err(text) => answer matches Err(message) && message@ == text,
    }
}

/// Decides the location of the argument `raw` from what parsing it as a URL
/// gave and from whether it exists as a path.
pub fn resolve_location(raw: &str, parsed: Option<String>, on_disk: bool) -> (answer: Result<
    SmartPath,
    String,
>)
    ensures
        answers(
            answer,
            resolved(
                raw@,
                match parsed {
                    Some(url) => Some(url@),
                    None => None,
                },
                on_disk,
            ),
        ),
{
    match parsed {
        Some(url) => Ok(SmartPath::Url(url)),
        None => {
            if on_disk {
                Ok(SmartPath::FilePath(String::from_str(raw)))
            } else {
                let mut message = String::from_str("`");
                message.append(raw);
                message.append("` is not a valid URL or file path");
                Err(message)
            }
        },
    }
}

/// Resolves a raw argument.
///
/// An argument that parses as a URL is a `Url`, whatever the disk holds.
/// Any other is a `FilePath` if it exists, and refused if it does not; the
/// file system is asked only then.
pub fn parse_path(s: &str) -> (answer: Result<SmartPath, String>)
    ensures
        exists|on_disk: bool| answers(answer, #[trigger] resolved(s@, parsed_url(s@), on_disk)),
        parsed_url(s@) is Some ==> answers(answer, resolved(s@, parsed_url(s@), false)),
{
    let parsed = url_parse(s);
    let on_disk = match parsed {
        Some(_) => false,
        None => path_exists(s),
    };
    resolve_location(s, parsed, on_disk)
}

} // verus!
