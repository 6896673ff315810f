//! The error classifier: turns a failed response's status code and body
//! into a human-actionable diagnosis. Classification is a pure function of
//! the status and the (already decoded) body.

use vstd::prelude::*;
use vstd::string::StringExecFns;

use crate::text;

verus! {

/// One structured error item from the provider's JSON error body.
pub struct ApiErrorDetail {
    pub code: Option<String>,
    pub message: Option<String>,
}

/// The provider's structured JSON error body: a message and an optional
/// list of error items.
pub struct ApiError {
    pub message: String,
    pub errors: Option<Vec<ApiErrorDetail>>,
}

/// A failed response body: decoded when the provider sent structured
/// JSON, kept as opaque text otherwise.
pub enum ErrorBody {
    Structured(ApiError),
    Opaque(String),
}

/// A single error item signals a name collision: its code equals
/// `already_exists` up to ASCII case, or its message contains
/// `already exists` up to ASCII case.
pub open spec fn spec_detail_collision(d: ApiErrorDetail) -> bool {
    ||| (d.code matches Some(c) && text::to_lower(c@) == text::to_lower("already_exists"@))
    ||| (d.message matches Some(m) && text::contains_seq(
        text::to_lower(m@),
        text::to_lower("already exists"@),
    ))
}

/// Some item in the list signals a name collision.
pub open spec fn spec_has_collision(details: Seq<ApiErrorDetail>) -> bool {
    exists|i: int| 0 <= i < details.len() && spec_detail_collision(#[trigger] details[i])
}

/// Whether one error item signals a name collision.
pub fn detail_signals_collision(d: &ApiErrorDetail) -> (r: bool)
    ensures
        r == spec_detail_collision(*d),
{
    let code_hit = match &d.code {
        Some(c) => text::eq_ignore_ascii_case(c.as_str(), "already_exists"),
        None => false,
    };
    if code_hit {
        return true;
    }
    match &d.message {
        Some(m) => text::contains_ignore_ascii_case(m.as_str(), "already exists"),
        None => false,
    }
}

/// Whether any item in the list signals a name collision.
pub fn has_collision_signature(details: &Vec<ApiErrorDetail>) -> (r: bool)
    ensures
        r == spec_has_collision(details@),
{
    let mut i: usize = 0;
    while i < details.len()
        invariant
            0 <= i <= details@.len(),
            forall|j: int| 0 <= j < i ==> !spec_detail_collision(#[trigger] details@[j]),
        decreases details@.len() - i,
    {
        if detail_signals_collision(&details[i]) {
            return true;
        }
        i = i + 1;
    }
    false
}

/// The diagnosis for a failure whose body was structured JSON.
pub open spec fn spec_structured_diagnosis(status: u16, err: ApiError) -> Seq<char> {
    if status == 403 {
        "Forbidden: token lacks required permissions. Ensure fine-grained PAT has Administration: Read & write on your account and Contents: Read on the template (or use classic PAT with repo/public_repo)."@
    } else if status == 404 {
        "Not found: template is not accessible or does not exist. Verify 'owner/repo' and that the repository is marked as a Template."@
    } else if status == 422 {
        if err.errors matches Some(ds) && spec_has_collision(ds@) {
            "Validation failed: a repository with this name already exists. Choose a different repo_name."@
        } else {
            "Validation failed: check repo_name and inputs."@
        }
    } else {
        "GitHub API error "@ + text::dec_digits(status as nat) + ": "@ + err.message@
    }
}

/// The diagnosis for a failure whose body stayed opaque text.
pub open spec fn spec_opaque_diagnosis(status: u16, body: Seq<char>) -> Seq<char> {
    "GitHub API error (status "@ + text::dec_digits(status as nat) + "): "@ + text::trimmed(body)
}

/// The diagnosis for any failed response.
pub open spec fn spec_diagnosis(status: u16, body: ErrorBody) -> Seq<char> {
    match body {
        ErrorBody::Structured(err) => spec_structured_diagnosis(status, err),
        ErrorBody::Opaque(t) => spec_opaque_diagnosis(status, t@),
    }
}

/// Diagnose a failure whose body was structured JSON: permission guidance
/// for 403, accessibility guidance for 404, collision-aware validation
/// guidance for 422, and the provider's own message otherwise.
pub fn structured_diagnosis(status: u16, err: &ApiError) -> (r: String)
    ensures
        r@ == spec_structured_diagnosis(status, *err),
{
    if status == 403 {
        String::from_str(
            "Forbidden: token lacks required permissions. Ensure fine-grained PAT has Administration: Read & write on your account and Contents: Read on the template (or use classic PAT with repo/public_repo).",
        )
    } else if status == 404 {
        String::from_str(
            "Not found: template is not accessible or does not exist. Verify 'owner/repo' and that the repository is marked as a Template.",
        )
    } else if status == 422 {
        let collision = match &err.errors {
            Some(ds) => has_collision_signature(ds),
            None => false,
        };
        if collision {
            String::from_str(
                "Validation failed: a repository with this name already exists. Choose a different repo_name.",
            )
        } else {
            String::from_str("Validation failed: check repo_name and inputs.")
        }
    } else {
        let mut out = String::from_str("GitHub API error ");
        text::push_decimal(status as u64, &mut out);
        out.append(": ");
        out.append(err.message.as_str());
        proof {
            assert(out@ =~= "GitHub API error "@ + text::dec_digits(status as nat) + ": "@
                + err.message@);
        }
        out
    }
}

/// Diagnose a failure whose body stayed opaque text.
pub fn opaque_diagnosis(status: u16, body: &str) -> (r: String)
    ensures
        r@ == spec_opaque_diagnosis(status, body@),
{
    let mut out = String::from_str("GitHub API error (status ");
    text::push_decimal(status as u64, &mut out);
    out.append("): ");
    out.append(text::trim(body));
    proof {
        assert(out@ =~= "GitHub API error (status "@ + text::dec_digits(status as nat) + "): "@
            + text::trimmed(body@));
    }
    out
}

/// Diagnose any failed response from its status code and body.
pub fn failure_diagnosis(status: u16, body: &ErrorBody) -> (r: String)
    ensures
        r@ == spec_diagnosis(status, *body),
{
    match body {
        ErrorBody::Structured(err) => structured_diagnosis(status, err),
        ErrorBody::Opaque(t) => opaque_diagnosis(status, t.as_str()),
    }
}

/// Classification is pure: the same status and body always yield the same
/// diagnosis, across any two calls.
pub proof fn lemma_classification_deterministic(s1: u16, b1: ErrorBody, s2: u16, b2: ErrorBody)
    requires
        s1 == s2,
        b1 == b2,
    ensures
        spec_diagnosis(s1, b1) == spec_diagnosis(s2, b2),
{
}

/// A successful status code, `200` through `299`.
pub open spec fn spec_is_success(status: u16) -> bool {
    200 <= status < 300
}

/// Whether a status code reports success.
pub fn is_success_status(status: u16) -> (r: bool)
    ensures
        r == spec_is_success(status),
{
    200 <= status && status < 300
}

/// Whether a creation call succeeded: any success code, with `201` named
/// for the resources whose creation reports it.
pub fn success_or_created(status: u16) -> (r: bool)
    ensures
        r == (spec_is_success(status) || status == 201),
{
    is_success_status(status) || status == 201
}

/// Whether a response's content type announces JSON, deciding between the
/// structured and the opaque decoding of a failure body.
pub fn content_type_is_json(content_type: Option<&str>) -> (r: bool)
    ensures
        content_type matches Some(v) ==> r == text::contains_seq(v@, "application/json"@),
        content_type is None ==> !r,
{
    match content_type {
        Some(v) => text::contains(v, "application/json"),
        None => false,
    }
}

} // verus!
