//! Deciding whether a matching engine-loader installation stands among the
//! entries of the versions directory.

use vstd::prelude::*;
use crate::text::has_prefix;

verus! {

/// What the checker sees of one entry of the versions directory.
pub struct VersionEntry {
    /// File name of the entry.
    pub name: String,
    /// Whether the entry is a directory.
    pub is_dir: bool,
    /// Whether the entry holds a file named after the entry itself with the
    /// archive extension appended.
    pub has_archive: bool,
}

/// Directory-name prefix that a matching engine-loader installation carries.
pub open spec fn engine_prefix() -> Seq<char> {
    "1.19.4-forge-45."@
}

/// Returns the engine-loader directory-name prefix.
pub fn engine_prefix_text() -> (r: String)
    ensures
        r@ == engine_prefix(),
{
    "1.19.4-forge-45.".to_owned()
}

/// One entry counts as an installation iff it is a directory, its name
/// starts with the engine prefix, and its matching archive is present.
pub open spec fn entry_is_installation(e: VersionEntry) -> bool {
    e.is_dir && e.has_archive && engine_prefix().is_prefix_of(e.name@)
}

/// True when some entry of the listing counts as an installation.
pub open spec fn some_installation(entries: Seq<VersionEntry>) -> bool {
    exists|i: int| 0 <= i < entries.len() && entry_is_installation(entries[i])
}

/// Decides whether the versions-directory listing holds a matching
/// engine-loader installation.
#[verifier::loop_isolation(false)]
pub fn is_engine_installed(entries: &Vec<VersionEntry>) -> (r: bool)
    ensures
        r == some_installation(entries@),
{
    let mut i: usize = 0;
    while i < entries.len()
        invariant
            i <= entries.len(),
            forall|j: int| 0 <= j < i ==> !entry_is_installation(entries@[j]),
        decreases entries.len() - i,
    {
        let e = &entries[i];
        if e.is_dir && e.has_archive && has_prefix(e.name.as_str(), "1.19.4-forge-45.") {
            assert(entry_is_installation(entries@[i as int]));
            return true;
        }
        i = i + 1;
    }
    false
}

} // verus!
