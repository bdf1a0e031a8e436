//! Resolving the latest release from a metadata document, and reading a
//! version token out of a release file name.

use vstd::prelude::*;
use crate::text::find_first;
use crate::text::find_substring;

verus! {

/// Marker whose first occurrence precedes the version token in a release
/// file name.
pub open spec fn version_marker() -> Seq<char> {
    seq!['_', 'v']
}

/// Suffix whose first occurrence ends the version token.
pub open spec fn archive_suffix() -> Seq<char> {
    seq!['.', 'j', 'a', 'r']
}

/// Sentinel version reported when a file name does not carry the markers.
pub open spec fn unknown_version() -> Seq<char> {
    seq!['U', 'n', 'k', 'n', 'o', 'w', 'n']
}

/// The version token carried by a release file name: the characters strictly
/// between the first marker occurrence and the first suffix occurrence, or
/// the sentinel when either is missing or they do not enclose anything.
pub open spec fn version_of(name: Seq<char>) -> Seq<char> {
    match (find_first(name, version_marker()), find_first(name, archive_suffix())) {
        (Some(m), Some(e)) => if m + version_marker().len() <= e {
            name.subrange(m + version_marker().len(), e)
        } else {
            unknown_version()
        },
        _ => unknown_version(),
    }
}

/// Reads the version token out of a release file name.
pub fn extract_version(file_name: &str) -> (version: String)
    ensures
        version@ == version_of(file_name@),
{
    proof {
        reveal_strlit("_v");
        reveal_strlit(".jar");
        reveal_strlit("Unknown");
        assert("_v"@ =~= version_marker());
        assert(".jar"@ =~= archive_suffix());
        assert("Unknown"@ =~= unknown_version());
    }
    let n = file_name.unicode_len();
    let m = find_substring(file_name, "_v");
    let e = find_substring(file_name, ".jar");
    if let Some(mi) = m {
        if let Some(ei) = e {
            if mi + 2 <= ei {
                return file_name.substring_char(mi + 2, ei).to_owned();
            }
        }
    }
    "Unknown".to_owned()
}

/// When a file name carries both the marker and the suffix, and the first
/// marker occurrence ends at or before the first suffix occurrence begins,
/// the version token is exactly the characters between the two.
pub proof fn lemma_version_between_markers(name: Seq<char>, m: int, e: int)
    requires
        find_first(name, version_marker()) == Some(m),
        find_first(name, archive_suffix()) == Some(e),
        m + version_marker().len() <= e,
    ensures
        version_of(name) == name.subrange(m + version_marker().len(), e),
{
}

/// When a file name lacks the marker or the suffix, the version token is
/// the sentinel.
pub proof fn lemma_version_sentinel(name: Seq<char>)
    requires
        find_first(name, version_marker()) is None || find_first(name, archive_suffix()) is None,
    ensures
        version_of(name) == unknown_version(),
{
}

/// The ways resolving the latest release from a metadata text can fail.
#[derive(Clone, Copy, Debug, PartialEq, Eq, Structural)]
pub enum ResolveError {
    /// The metadata text is not a well-formed document.
    NotJson,
    /// The document holds no string field naming the release file.
    MissingField,
}

/// The latest distributable release, as derived from a metadata document.
#[derive(Debug)]
pub struct LatestRelease {
    /// Name of the release file, exactly as the metadata names it.
    pub file_name: String,
    /// Version token read out of the file name.
    pub version: String,
}

/// Name of the metadata field that holds the release file name.
pub open spec fn file_field_name() -> Seq<char> {
    seq!['f', 'i', 'l', 'e']
}

/// What parsing a text as a structured document and reading one of its string
/// fields yields: `None` when the text does not parse, `Some(None)` when it
/// parses but holds no string under the field name, and `Some(Some(v))` when
/// the field holds the string `v`.
pub uninterp spec fn string_field_of(text: Seq<char>, field: Seq<char>) -> Option<Option<Seq<char>>>;

/// Relies on serde_json::from_str, serde_json::Value::get and
/// serde_json::Value::as_str: parsing a text and reading one of its string
/// fields depends on the text and the field name alone; `get` returns the
/// value under the field and `as_str` returns it only when it is a string.
#[verifier::external_body]
fn get_string_field(text: &str, field: &str) -> (r: Result<String, ResolveError>)
    ensures
        match string_field_of(text@, field@) {
            None => r == Err::<String, ResolveError>(ResolveError::NotJson),
            Some(found) => match found {
                None => r == Err::<String, ResolveError>(ResolveError::MissingField),
                Some(v) => r is Ok && r->Ok_0@ == v,
            },
        },
{
    match serde_json::from_str::<serde_json::Value>(text) {
        Ok(doc) => match doc.get(field).and_then(|f| f.as_str()) {
            Some(s) => Ok(s.to_string()),
            None => Err(ResolveError::MissingField),
        },
        Err(_) => Err(ResolveError::NotJson),
    }
}

/// What resolving the latest release from a metadata text derives: the
/// release file name paired with its version token, or the error.
pub open spec fn resolved_release_of(text: Seq<char>) -> Result<(Seq<char>, Seq<char>), ResolveError> {
    match string_field_of(text, file_field_name()) {
        None => Err(ResolveError::NotJson),
        Some(found) => match found {
            None => Err(ResolveError::MissingField),
            Some(name) => Ok((name, version_of(name))),
        },
    }
}

/// Derives the latest release named by the body of the metadata document.
pub fn resolve_latest_release(text: &str) -> (r: Result<LatestRelease, ResolveError>)
    ensures
        match resolved_release_of(text@) {
            Ok(p) => r is Ok && r->Ok_0.file_name@ == p.0 && r->Ok_0.version@ == p.1,
            Err(e) => r == Err::<LatestRelease, ResolveError>(e),
        },
{
    proof {
        reveal_strlit("file");
        assert("file"@ =~= file_field_name());
    }
    match get_string_field(text, "file") {
        Ok(file_name) => {
            let version = extract_version(file_name.as_str());
            Ok(LatestRelease { file_name, version })
        },
        Err(e) => Err(e),
    }
}

/// Resolution is a function of the metadata text alone: two resolutions of
/// the same response derive the same file name and the same version.
pub proof fn lemma_resolve_idempotent(
    text: Seq<char>,
    r1: Result<(Seq<char>, Seq<char>), ResolveError>,
    r2: Result<(Seq<char>, Seq<char>), ResolveError>,
)
    requires
        r1 == resolved_release_of(text),
        r2 == resolved_release_of(text),
    ensures
        r1 == r2,
{
}

} // verus!
