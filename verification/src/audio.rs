//! Audio references: finding the file name that an audio reference points
//! at, and the sound marker that names it on a flashcard.
//!
//! A reference is either an absolute URL or a relative reference. Absolute
//! URLs are parsed by the `url` crate; a reference without a scheme is read
//! as a relative path, which ends at the first `?` or `#`.

use crate::text::{
    chars_of, last_non_empty, last_segment, lemma_last_non_empty_is_a_piece,
    lemma_split_pieces_hold_no_separator, split, text_result,
};
use url::{ParseError, Url};
use vstd::prelude::*;

verus! {

/// Why an audio reference yields no file name.
#[derive(Debug, Clone, Copy, PartialEq, Eq)]
pub enum InvalidAudioReferenceError {
    /// The reference is neither an absolute URL nor a relative reference.
    NotAUrl,
    /// The reference is an absolute URL whose path is not made of segments
    /// (for example `mailto:` or `data:` URLs).
    NoPathSegments,
    /// Every segment of the path is empty, as for a bare host.
    NoFileName,
}

/// What the URL parser made of an audio reference.
#[derive(Debug, Clone, PartialEq, Eq)]
pub enum ParsedReference {
    /// An absolute URL, with its path component.
    Absolute(String),
    /// A reference without a scheme, to be resolved against some base.
    Relative,
    /// A reference that the parser refuses for any other reason.
    Malformed,
}

/// The view of a [`ParsedReference`].
pub enum ParsedReferenceView {
    Absolute(Seq<char>),
    Relative,
    Malformed,
}

impl View for ParsedReference {
    type V = ParsedReferenceView;

    open spec fn view(&self) -> ParsedReferenceView {
        match self {
            ParsedReference::Absolute(path) => ParsedReferenceView::Absolute(path@),
            ParsedReference::Relative => ParsedReferenceView::Relative,
            ParsedReference::Malformed => ParsedReferenceView::Malformed,
        }
    }
}

/// The outcome of `url::Url::parse` on a reference: `Absolute` with the
/// path of the parsed URL (`Url::path`) when the parser accepts it,
/// `Relative` when it reports `ParseError::RelativeUrlWithoutBase`, and
/// `Malformed` for every other error.
pub uninterp spec fn url_parse(reference: Seq<char>) -> ParsedReferenceView;

/// Calls `url::Url::parse` on `reference` and reads the path of the result
/// with `url::Url::path`.
///
/// Trusted: the contract only gives the outcome its name, [`url_parse`];
/// it claims that the parser is a function of the reference text alone.
#[verifier::external_body]
pub(crate) fn parse_reference(reference: &str) -> (parsed: ParsedReference)
    ensures
        parsed@ == url_parse(reference@),
{
    match Url::parse(reference) {
        Ok(url) => ParsedReference::Absolute(url.path().to_owned()),
        Err(ParseError::RelativeUrlWithoutBase) => ParsedReference::Relative,
        Err(_) => ParsedReference::Malformed,
    }
}

/// Whether `c` ends the path of a relative reference: the start of a query
/// or of a fragment.
pub open spec fn ends_path(c: char) -> bool {
    c == '?' || c == '#'
}

/// The first position at or after `from` that holds a `?` or a `#`, or the
/// length of the reference when there is none.
pub open spec fn path_end(reference: Seq<char>, from: int) -> int
    decreases reference.len() - from,
{
    if from < 0 || from >= reference.len() || ends_path(reference[from]) {
        from
    } else {
        path_end(reference, from + 1)
    }
}

/// The path of a relative reference: everything before its query and
/// fragment.
pub open spec fn relative_path(reference: Seq<char>) -> Seq<char> {
    reference.take(path_end(reference, 0))
}

/// The file name in a path: its last non-empty segment.
pub open spec fn path_file_name(path: Seq<char>) -> Result<Seq<char>, InvalidAudioReferenceError> {
    match last_non_empty(split(path, '/')) {
        Some(name) => Ok(name),
        None => Err(InvalidAudioReferenceError::NoFileName),
    }
}

/// The file name that a reference points at, given what the URL parser
/// made of the reference.
///
/// The path of an absolute URL is made of segments only if it begins with
/// `/`; that first slash gives an empty first piece, which is never the
/// file name. The parser percent-encodes the path of an absolute URL; the
/// path of a relative reference is read as it is written.
pub open spec fn file_name(reference: Seq<char>, parsed: ParsedReferenceView) -> Result<
    Seq<char>,
    InvalidAudioReferenceError,
> {
    match parsed {
        ParsedReferenceView::Malformed => Err(InvalidAudioReferenceError::NotAUrl),
        ParsedReferenceView::Absolute(path) => if path.len() > 0 && path[0] == '/' {
            path_file_name(path)
        } else {
            Err(InvalidAudioReferenceError::NoPathSegments)
        },
        ParsedReferenceView::Relative => path_file_name(relative_path(reference)),
    }
}

/// A file name is one segment of its path: it is not empty and holds no
/// slash.
pub proof fn lemma_file_name_is_one_segment(path: Seq<char>)
    requires
        path_file_name(path) is Ok,
    ensures
        path_file_name(path)->Ok_0.len() > 0,
        forall|i: int|
            0 <= i < path_file_name(path)->Ok_0.len() ==> path_file_name(path)->Ok_0[i] != '/',
{
    lemma_split_pieces_hold_no_separator(path, '/');
    lemma_last_non_empty_is_a_piece(split(path, '/'));
}

/// The sound marker for a file name.
pub open spec fn marker(name: Seq<char>) -> Seq<char> {
    "[sound:"@ + name + "]"@
}

/// The relative path of `reference`, as a slice of it.
fn relative_path_of(reference: &str) -> (path: &str)
    ensures
        path@ == relative_path(reference@),
{
    let chars = chars_of(reference);
    let mut end: usize = 0;
    while end < chars.len() && !(chars[end] == '?' || chars[end] == '#')
        invariant
            chars@ == reference@,
            end <= chars.len(),
            path_end(reference@, 0) == path_end(reference@, end as int),
        decreases chars.len() - end,
    {
        end = end + 1;
    }
    reference.substring_char(0, end)
}

/// The file name in `path`.
fn file_name_in(path: &str) -> (name: Result<String, InvalidAudioReferenceError>)
    ensures
        text_result(name) == path_file_name(path@),
{
    match last_segment(path) {
        Some(name) => Ok(name),
        None => Err(InvalidAudioReferenceError::NoFileName),
    }
}

/// Finds the file name that `reference` points at, once the URL parser has
/// looked at the reference and returned `parsed`.
pub fn file_name_from(reference: &str, parsed: &ParsedReference) -> (name: Result<
    String,
    InvalidAudioReferenceError,
>)
    ensures
        text_result(name) == file_name(reference@, parsed@),
{
    match parsed {
        ParsedReference::Malformed => Err(InvalidAudioReferenceError::NotAUrl),
        ParsedReference::Absolute(path) => {
            let path = path.as_str();
            if !path.is_empty() && path.get_char(0) == '/' {
                file_name_in(path)
            } else {
                Err(InvalidAudioReferenceError::NoPathSegments)
            }
        },
        ParsedReference::Relative => file_name_in(relative_path_of(reference)),
    }
}

/// Finds the file name that an audio reference points at.
///
/// The reference is handed to the URL parser, and the file name is read
/// from the outcome as [`file_name`] says.
pub fn sound_file_name(reference: &str) -> (name: Result<String, InvalidAudioReferenceError>)
    ensures
        text_result(name) == file_name(reference@, url_parse(reference@)),
{
    let parsed = parse_reference(reference);
    file_name_from(reference, &parsed)
}

/// Writes the sound marker for a file name: `[sound:<name>]`.
pub fn sound_marker(name: &str) -> (text: String)
    ensures
        text@ == marker(name@),
{
    let mut text = "[sound:".to_owned();
    text.append(name);
    text.append("]");
    text
}

} // verus!
