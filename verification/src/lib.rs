//! A client-side orchestrator that provisions a repository from a template
//! on a Git hosting provider and brings it under a branch-governance policy.
//!
//! This crate holds the verified decision core: reference parsing, error
//! classification, the readiness-polling state machine, the provisioning
//! plan, the seeding rules, and request-path construction. The unverified
//! binary around it performs the HTTP calls and feeds their outcomes back
//! into these functions as plain values.

pub mod classify;
pub mod config;
pub mod error;
pub mod plan;
pub mod policy;
pub mod poll;
pub mod reference;
pub mod request;
pub mod seed;
pub mod text;

pub use reference::is_service_template;
pub use reference::split_template_name;

use vstd::prelude::*;
use vstd::string::StringExecFns;

verus! {

/// The triple returned by repository creation: the `owner/name` pair,
/// the web address, and the branch the provider chose as primary.
pub struct RepoResponse {
    pub full_name: String,
    pub html_url: String,
    pub default_branch: String,
}

/// The input to repository creation, immutable for the whole run.
pub struct ProvisioningRequest {
    pub name: String,
    pub description: String,
    pub private: bool,
    pub include_all_branches: bool,
}

/// Whether the requested visibility names a private repository, compared
/// without regard to ASCII case.
pub fn is_private_visibility(repo_type: &str) -> (r: bool)
    ensures
        r == (text::to_lower(repo_type@) == text::to_lower("private"@)),
{
    text::eq_ignore_ascii_case(repo_type, "private")
}

/// The single structured line reporting a successful run.
pub fn success_summary(repo: &RepoResponse) -> (r: String)
    ensures
        r@ == "{\"full_name\":\""@ + repo.full_name@ + "\",\"html_url\":\""@ + repo.html_url@
            + "\",\"default_branch\":\""@ + repo.default_branch@ + "\"}"@,
{
    let mut out = String::from_str("{\"full_name\":\"");
    out.append(repo.full_name.as_str());
    out.append("\",\"html_url\":\"");
    out.append(repo.html_url.as_str());
    out.append("\",\"default_branch\":\"");
    out.append(repo.default_branch.as_str());
    out.append("\"}");
    proof {
        assert(out@ =~= "{\"full_name\":\""@ + repo.full_name@ + "\",\"html_url\":\""@
            + repo.html_url@ + "\",\"default_branch\":\""@ + repo.default_branch@ + "\"}"@);
    }
    out
}

} // verus!
