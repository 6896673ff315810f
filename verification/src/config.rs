//! Local configuration decisions taken before any network call.

use vstd::prelude::*;
use vstd::string::StrSliceExecFns;
use vstd::string::StringExecFns;

use crate::error::ClientError;

verus! {

/// The token a run will use, if any: the explicit token when non-empty,
/// else the non-empty fallback.
pub open spec fn spec_resolved_token(primary: Option<&str>, fallback: Option<&str>) -> Option<
    Seq<char>,
> {
    match primary {
        Some(t) => if t@.len() > 0 {
            Some(t@)
        } else {
            spec_fallback_token(fallback)
        },
        None => spec_fallback_token(fallback),
    }
}

/// The fallback token, when it is present and non-empty.
pub open spec fn spec_fallback_token(fallback: Option<&str>) -> Option<Seq<char>> {
    match fallback {
        Some(t) => if t@.len() > 0 {
            Some(t@)
        } else {
            None
        },
        None => None,
    }
}

/// Pick the token for a run: the explicit one wins when non-empty, else
/// the fallback read from the secondary environment variable; when both
/// are absent or empty the run fails before any network call.
pub fn resolve_token(primary: Option<&str>, fallback: Option<&str>) -> (r: Result<
    String,
    ClientError,
>)
    ensures
        r is Ok <==> spec_resolved_token(primary, fallback) is Some,
        r matches Ok(tok) ==> Some(tok@) == spec_resolved_token(primary, fallback),
        r matches Err(e) ==> e is MissingToken,
{
    if let Some(t) = primary {
        if t.unicode_len() > 0 {
            return Ok(String::from_str(t));
        }
    }
    if let Some(t) = fallback {
        if t.unicode_len() > 0 {
            return Ok(String::from_str(t));
        }
    }
    Err(ClientError::MissingToken)
}

} // verus!
