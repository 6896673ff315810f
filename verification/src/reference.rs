//! Parsing and inspection of `owner/repo` references.

use vstd::prelude::*;
use vstd::string::StrSliceExecFns;
use vstd::string::StringExecFns;

use crate::error::ClientError;
use crate::text;

verus! {

/// `k` is the index of the first `/` in `s`.
pub open spec fn first_slash_at(s: Seq<char>, k: int) -> bool {
    &&& 0 <= k < s.len()
    &&& s[k] == '/'
    &&& forall|j: int| 0 <= j < k ==> s[j] != '/'
}

/// `k` is the index of the last `/` in `s`.
pub open spec fn last_slash_at(s: Seq<char>, k: int) -> bool {
    &&& 0 <= k < s.len()
    &&& s[k] == '/'
    &&& forall|j: int| k < j < s.len() ==> s[j] != '/'
}

/// A well-formed `owner/repo` reference: split at the first `/`, both
/// segments are non-empty.
pub open spec fn valid_reference(s: Seq<char>) -> bool {
    exists|k: int| #[trigger] first_slash_at(s, k) && 0 < k < s.len() - 1
}

/// At most one index can be the first slash.
pub proof fn lemma_first_slash_unique(s: Seq<char>, k1: int, k2: int)
    requires
        first_slash_at(s, k1),
        first_slash_at(s, k2),
    ensures
        k1 == k2,
{
    if k1 < k2 {
        assert(s[k1] != '/');
    } else if k2 < k1 {
        assert(s[k2] != '/');
    }
}

/// At most one index can be the last slash.
pub proof fn lemma_last_slash_unique(s: Seq<char>, k1: int, k2: int)
    requires
        last_slash_at(s, k1),
        last_slash_at(s, k2),
    ensures
        k1 == k2,
{
    if k1 < k2 {
        assert(s[k2] != '/');
    } else if k2 < k1 {
        assert(s[k1] != '/');
    }
}

/// Split a template reference at its first `/` into owner and repository.
///
/// Succeeds exactly on well-formed references; the repository segment may
/// itself contain further slashes.
pub fn split_template_name(template: &str) -> (r: Result<(&str, &str), ClientError>)
    ensures
        r is Ok <==> valid_reference(template@),
        r matches Ok(pair) ==> {
            let k = pair.0@.len() as int;
            &&& first_slash_at(template@, k)
            &&& 0 < k < template@.len() - 1
            &&& pair.0@ == template@.subrange(0, k)
            &&& pair.1@ == template@.subrange(k + 1, template@.len() as int)
        },
        r matches Err(e) ==> e is MalformedTemplateName,
{
    let len = template.unicode_len();
    let mut k: usize = 0;
    while k < len && template.get_char(k) != '/'
        invariant
            0 <= k <= len,
            len == template@.len(),
            forall|j: int| 0 <= j < k ==> template@[j] != '/',
        decreases len - k,
    {
        k = k + 1;
    }
    if k == len {
        // No slash at all: no index can be a first slash.
        proof {
            assert forall|q: int| !(first_slash_at(template@, q) && 0 < q < template@.len()
                - 1) by {
                if 0 <= q < template@.len() {
                    assert(template@[q] != '/');
                }
            }
        }
        return Err(ClientError::MalformedTemplateName);
    }
    proof {
        assert(first_slash_at(template@, k as int));
    }
    if k == 0 || k + 1 == len {
        // Empty owner, or empty repository segment.
        proof {
            assert forall|q: int| !(first_slash_at(template@, q) && 0 < q < template@.len()
                - 1) by {
                if first_slash_at(template@, q) {
                    lemma_first_slash_unique(template@, q, k as int);
                }
            }
        }
        return Err(ClientError::MalformedTemplateName);
    }
    let owner = template.substring_char(0, k);
    let repo = template.substring_char(k + 1, len);
    proof {
        assert(owner@.len() == k as int);
    }
    Ok((owner, repo))
}

/// The segment of `s` after its last `/`, or all of `s` when it has none.
pub open spec fn last_segment(s: Seq<char>) -> Seq<char> {
    if exists|k: int| #[trigger] last_slash_at(s, k) {
        let k = choose|k: int| #[trigger] last_slash_at(s, k);
        s.subrange(k + 1, s.len() as int)
    } else {
        s
    }
}

/// Whether a template reference names the service archetype: its final
/// path segment starts with `service-`. Such templates activate seeding,
/// checked protection, the secondary branch, and environments.
pub fn is_service_template(template: &str) -> (r: bool)
    ensures
        r == text::starts_with_seq(last_segment(template@), "service-"@),
{
    let len = template.unicode_len();
    let mut b: usize = len;
    while b > 0 && template.get_char(b - 1) != '/'
        invariant
            0 <= b <= len,
            len == template@.len(),
            forall|j: int| b <= j < len ==> template@[j] != '/',
        decreases b,
    {
        b = b - 1;
    }
    proof {
        if b == 0 {
            assert forall|k: int| !last_slash_at(template@, k) by {
                if 0 <= k < template@.len() {
                    assert(template@[k] != '/');
                }
            }
            assert(last_segment(template@) == template@);
        } else {
            assert(last_slash_at(template@, b - 1));
            let kc = choose|k: int| #[trigger] last_slash_at(template@, k);
            lemma_last_slash_unique(template@, kc, b - 1);
            assert(last_segment(template@) == template@.subrange(b as int, len as int));
        }
    }
    let segment = template.substring_char(b, len);
    proof {
        if b == 0 {
            assert(segment@ =~= template@);
        }
    }
    text::starts_with(segment, "service-")
}

/// The owner segment of a full name: everything before the first `/`, or
/// the whole string when it has no `/`.
pub open spec fn owner_prefix(s: Seq<char>) -> Seq<char> {
    if exists|k: int| #[trigger] first_slash_at(s, k) {
        let k = choose|k: int| #[trigger] first_slash_at(s, k);
        s.subrange(0, k)
    } else {
        s
    }
}

/// Extract the owner from a `owner/name` full name.
pub fn owner_of(full_name: &str) -> (r: &str)
    ensures
        r@ == owner_prefix(full_name@),
{
    let len = full_name.unicode_len();
    let mut k: usize = 0;
    while k < len && full_name.get_char(k) != '/'
        invariant
            0 <= k <= len,
            len == full_name@.len(),
            forall|j: int| 0 <= j < k ==> full_name@[j] != '/',
        decreases len - k,
    {
        k = k + 1;
    }
    proof {
        if k == len {
            assert forall|q: int| !first_slash_at(full_name@, q) by {
                if 0 <= q < full_name@.len() {
                    assert(full_name@[q] != '/');
                }
            }
        } else {
            assert(first_slash_at(full_name@, k as int));
            let kc = choose|q: int| #[trigger] first_slash_at(full_name@, q);
            lemma_first_slash_unique(full_name@, kc, k as int);
        }
    }
    let owner = full_name.substring_char(0, k);
    proof {
        if k == len {
            assert(owner@ =~= full_name@);
        }
    }
    owner
}

/// The repository to seed scaffolding from: an explicit override when one
/// was given, else `<owner>/service-template`.
pub fn service_seed_source(override_repo: Option<&str>, owner: &str) -> (r: String)
    ensures
        override_repo matches Some(o) ==> r@ == o@,
        override_repo is None ==> r@ == owner@ + "/service-template"@,
{
    match override_repo {
        Some(o) => String::from_str(o),
        None => {
            let mut out = String::from_str(owner);
            out.append("/service-template");
            out
        },
    }
}

} // verus!
