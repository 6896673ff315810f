//! The content seeder's decisions: which tree entries are copied, what
//! happens to each file, and the commit message recorded for it. The
//! copying itself is a sequence of remote calls made by the caller; every
//! choice between them is taken here.

use vstd::prelude::*;
use vstd::string::StringExecFns;

use crate::classify;
use crate::text;

verus! {

/// One entry of a recursive tree listing.
pub struct TreeEntry {
    pub path: String,
    /// The provider's entry kind: `blob` for a plain file, `tree` for a
    /// directory.
    pub kind: String,
    pub sha: String,
}

/// `path` starts with one of the prefixes.
pub open spec fn spec_matches_prefix(path: Seq<char>, prefixes: Seq<String>) -> bool {
    exists|i: int|
        0 <= i < prefixes.len() && text::starts_with_seq(path, #[trigger] prefixes[i]@)
}

/// An entry is a seeding candidate when it is a plain file whose path
/// starts with one of the prefixes.
pub open spec fn spec_seed_candidate(e: TreeEntry, prefixes: Seq<String>) -> bool {
    e.kind@ == "blob"@ && spec_matches_prefix(e.path@, prefixes)
}

/// Whether `path` starts with any of the prefixes.
pub fn starts_with_any(path: &str, prefixes: &Vec<String>) -> (r: bool)
    ensures
        r == spec_matches_prefix(path@, prefixes@),
{
    let mut i: usize = 0;
    while i < prefixes.len()
        invariant
            0 <= i <= prefixes@.len(),
            forall|j: int|
                0 <= j < i ==> !text::starts_with_seq(path@, #[trigger] prefixes@[j]@),
        decreases prefixes@.len() - i,
    {
        if text::starts_with(path, prefixes[i].as_str()) {
            return true;
        }
        i = i + 1;
    }
    false
}

/// Whether one tree entry is a seeding candidate.
pub fn is_seed_candidate(e: &TreeEntry, prefixes: &Vec<String>) -> (r: bool)
    ensures
        r == spec_seed_candidate(*e, prefixes@),
{
    if !text::str_eq(e.kind.as_str(), "blob") {
        return false;
    }
    starts_with_any(e.path.as_str(), prefixes)
}

/// The positions of the entries the seeder will copy, in listing order.
pub fn select_seed_entries(entries: &Vec<TreeEntry>, prefixes: &Vec<String>) -> (r: Vec<usize>)
    ensures
        forall|a: int, b: int| 0 <= a < b < r@.len() ==> r@[a] < r@[b],
        forall|a: int|
            0 <= a < r@.len() ==> r@[a] < entries@.len() && spec_seed_candidate(
                entries@[#[trigger] r@[a] as int],
                prefixes@,
            ),
        forall|i: int|
            0 <= i < entries@.len() && spec_seed_candidate(#[trigger] entries@[i], prefixes@)
                ==> r@.contains(i as usize),
{
    let mut out: Vec<usize> = Vec::new();
    let mut i: usize = 0;
    while i < entries.len()
        invariant
            0 <= i <= entries@.len(),
            forall|a: int, b: int| 0 <= a < b < out@.len() ==> out@[a] < out@[b],
            forall|a: int|
                0 <= a < out@.len() ==> out@[a] < i && spec_seed_candidate(
                    entries@[#[trigger] out@[a] as int],
                    prefixes@,
                ),
            forall|j: int|
                0 <= j < i && spec_seed_candidate(#[trigger] entries@[j], prefixes@)
                    ==> out@.contains(j as usize),
        decreases entries@.len() - i,
    {
        if is_seed_candidate(&entries[i], prefixes) {
            let ghost prev = out@;
            out.push(i);
            proof {
                assert(out@[out@.len() - 1] == i as usize);
                assert(forall|j: int|
                    0 <= j < i && spec_seed_candidate(#[trigger] entries@[j], prefixes@)
                        ==> prev.contains(j as usize));
                assert forall|j: int|
                    0 <= j < i + 1 && spec_seed_candidate(
                        #[trigger] entries@[j],
                        prefixes@,
                    ) implies out@.contains(j as usize) by {
                    if j < i {
                        let k = choose|k: int| 0 <= k < prev.len() && prev[k] == j as usize;
                        assert(out@[k] == j as usize);
                    } else {
                        assert(out@[out@.len() - 1] == j as usize);
                    }
                }
            }
        }
        i = i + 1;
    }
    out
}

/// The verdict on one fetched blob before it is written.
#[derive(Debug, PartialEq, Eq, Structural, Clone, Copy)]
pub enum BlobCheck {
    /// The blob could not be fetched; the file is skipped.
    FetchFailed,
    /// The blob is not base64-encoded; the file is skipped.
    UnsupportedEncoding,
    /// The blob can be decoded and written.
    Usable,
}

/// Judge one fetched blob: a failed fetch or a non-base64 encoding
/// skips the file, anything else is usable.
pub fn check_blob(fetch_status: u16, encoding: &str) -> (r: BlobCheck)
    ensures
        !classify::spec_is_success(fetch_status) ==> r is FetchFailed,
        classify::spec_is_success(fetch_status) ==> {
            if text::to_lower(encoding@) == text::to_lower("base64"@) {
                r is Usable
            } else {
                r is UnsupportedEncoding
            }
        },
{
    if !classify::is_success_status(fetch_status) {
        BlobCheck::FetchFailed
    } else if !text::eq_ignore_ascii_case(encoding, "base64") {
        BlobCheck::UnsupportedEncoding
    } else {
        BlobCheck::Usable
    }
}

/// Whether a file is written at all: only when the existence probe for
/// its destination path did not succeed. A file already present is never
/// overwritten.
pub fn should_write_file(exists_status: u16) -> (r: bool)
    ensures
        r == !classify::spec_is_success(exists_status),
{
    !classify::is_success_status(exists_status)
}

/// The commit message recorded for one seeded file.
pub fn seed_commit_message(path: &str) -> (r: String)
    ensures
        r@ == "chore: seed "@ + path@ + " from service-template"@,
{
    let mut out = String::from_str("chore: seed ");
    out.append(path);
    out.append(" from service-template");
    proof {
        assert(out@ =~= "chore: seed "@ + path@ + " from service-template"@);
    }
    out
}

} // verus!
