use vstd::prelude::*;

use crate::errors::SessionError;
use crate::text::{contains_seq, contains_sub};
use crate::track::Track;

verus! {

/// What a raw play request turns out to be.
#[derive(Clone, Copy, Debug, PartialEq, Eq, Structural)]
pub enum RequestKind {
    /// A direct link to the primary video platform.
    DirectLink,
    /// A link to a domain that is recognized but not supported.
    Unsupported,
    /// Anything else: a free-text search query.
    Search,
}

/// The classification rule, in order: a request mentioning the primary
/// video platform's domain is a direct link; failing that, one
/// mentioning the known unsupported domain is unsupported; everything
/// else is a search query.
pub open spec fn spec_classify(raw: Seq<char>) -> RequestKind {
    if contains_seq(raw, "youtube.com"@) {
        RequestKind::DirectLink
    } else if contains_seq(raw, "patrykstyla.com"@) {
        RequestKind::Unsupported
    } else {
        RequestKind::Search
    }
}

/// Classify a raw play request.
pub fn classify(raw: &str) -> (r: RequestKind)
    ensures
        r == spec_classify(raw@),
{
    if contains_sub(raw, "youtube.com") {
        RequestKind::DirectLink
    } else if contains_sub(raw, "patrykstyla.com") {
        RequestKind::Unsupported
    } else {
        RequestKind::Search
    }
}

/// Turn the track list a search returned into the track to play: the
/// first hit.  An empty list is the resolution failure the user sees as
/// an unsuccessful search.
pub fn first_result(results: Vec<Track>) -> (r: Result<Track, SessionError>)
    ensures
        results@.len() == 0 ==> r == Err::<Track, SessionError>(SessionError::ResolutionFailure),
        results@.len() > 0 ==> (r matches Ok(t) && t@ == results@[0]@),
{
    let mut results = results;
    if results.len() == 0 {
        Err(SessionError::ResolutionFailure)
    } else {
        Ok(results.remove(0))
    }
}

/// Ghost mirror of a [`PersistInfo`].
#[verifier::ext_equal]
pub struct PersistInfoView {
    pub title: Seq<char>,
    pub ext: Seq<char>,
}

/// What gets recorded into the catalog for a freshly downloaded track:
/// its display title and file extension.
#[derive(Debug)]
pub struct PersistInfo {
    pub title: String,
    pub ext: String,
}

impl View for PersistInfo {
    type V = PersistInfoView;

    open spec fn view(&self) -> PersistInfoView {
        PersistInfoView { title: self.title@, ext: self.ext@ }
    }
}

/// Whether the downloader's metadata output parses as a JSON document:
/// the success of `serde_json::from_str` on a given string.
pub uninterp spec fn json_parse_ok(s: Seq<char>) -> bool;

/// The string member a JSON document holds under a key: what parsing
/// the document with serde_json and reading that member of the top
/// object yields, when it is a string.  A function of the document text
/// and the key alone.
pub uninterp spec fn json_str_field(s: Seq<char>, key: Seq<char>) -> Option<Seq<char>>;

/// Relies on serde_json::from_str, Value::get with a string index, and
/// Value::as_str: parses the document and reads the string member under
/// the key.  The result depends on the document text and the key alone;
/// it exists only if the document parses.
#[verifier::external_body]
fn json_field_string(s: &str, key: &str) -> (r: Option<String>)
    ensures
        r.deep_view() == json_str_field(s@, key@),
        r is Some ==> json_parse_ok(s@),
{
    serde_json::from_str::<serde_json::Value>(s).ok().and_then(
        |v| v.get(key).and_then(|f| f.as_str().map(str::to_owned)),
    )
}

/// Assemble the persistence record from the two looked-up fields: both
/// must be present, and anything less is a resolution failure.
pub fn persist_info_from_fields(title: Option<String>, ext: Option<String>) -> (r: Result<
    PersistInfo,
    SessionError,
>)
    ensures
        title matches Some(t) ==> ext matches Some(e) ==> (r matches Ok(p) && p@.title == t@
            && p@.ext == e@),
        (title is None || ext is None) ==> r == Err::<
            PersistInfo,
            SessionError,
        >(SessionError::ResolutionFailure),
{
    match (title, ext) {
        (Some(title), Some(ext)) => Ok(PersistInfo { title, ext }),
        _ => Err(SessionError::ResolutionFailure),
    }
}

/// Read the downloader's JSON metadata and extract the display title
/// and file extension under which the track is recorded: exactly the
/// documents' "title" and "ext" string members.  Metadata that does not
/// parse, or lacks either member, is a resolution failure; it never
/// stops playback, only the catalog write.
pub fn extract_persist_info(metadata: &str) -> (r: Result<PersistInfo, SessionError>)
    ensures
        json_str_field(metadata@, "title"@) matches Some(t) ==> json_str_field(
            metadata@,
            "ext"@,
        ) matches Some(e) ==> (r matches Ok(p) && p@.title == t && p@.ext == e),
        (json_str_field(metadata@, "title"@) is None || json_str_field(metadata@, "ext"@)
            is None) ==> r == Err::<PersistInfo, SessionError>(SessionError::ResolutionFailure),
        !json_parse_ok(metadata@) ==> r == Err::<
            PersistInfo,
            SessionError,
        >(SessionError::ResolutionFailure),
        r is Ok ==> json_parse_ok(metadata@),
        r is Err ==> r == Err::<PersistInfo, SessionError>(SessionError::ResolutionFailure),
{
    let title = json_field_string(metadata, "title");
    let ext = json_field_string(metadata, "ext");
    persist_info_from_fields(title, ext)
}

} // verus!
