//! Failures that are detected locally, before any network call is made.

use vstd::prelude::*;
use vstd::string::StringExecFns;

verus! {

/// An input rejected by the client itself. Remote failures are diagnosed
/// separately, by the error classifier.
#[derive(Debug, PartialEq, Eq, Structural, Clone, Copy)]
pub enum ClientError {
    /// A template reference that is not `owner/repo` with both segments
    /// non-empty.
    MalformedTemplateName,
    /// No token was given, neither directly nor through the fallback.
    MissingToken,
}

impl ClientError {
    /// The human-readable diagnosis for this error.
    pub fn message(&self) -> (r: String)
        ensures
            *self is MalformedTemplateName ==> r@ == "Invalid template name; expected 'owner/repo'"@,
            *self is MissingToken ==> r@
                == "Missing token. Provide via --token, GITHUB_TOKEN, or GH_TOKEN env var"@,
    {
        match self {
            ClientError::MalformedTemplateName => String::from_str(
                "Invalid template name; expected 'owner/repo'",
            ),
            ClientError::MissingToken => String::from_str(
                "Missing token. Provide via --token, GITHUB_TOKEN, or GH_TOKEN env var",
            ),
        }
    }
}

} // verus!
