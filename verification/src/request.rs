//! What each remote operation sends: the fixed header values, the request
//! paths, and the texts reporting each operation's failure.

use vstd::prelude::*;
use vstd::string::StringExecFns;

use crate::text;

verus! {

/// The authorization header value for a bearer token.
pub fn bearer_header_value(token: &str) -> (r: String)
    ensures
        r@ == "Bearer "@ + token@,
{
    let mut out = String::from_str("Bearer ");
    out.append(token);
    out
}

/// The content-negotiation accept header value.
pub fn accept_header_value() -> (r: &'static str)
    ensures
        r@ == "application/vnd.github+json"@,
{
    "application/vnd.github+json"
}

/// The client identification header value.
pub fn user_agent_value() -> (r: &'static str)
    ensures
        r@ == "github-client-rust/0.1"@,
{
    "github-client-rust/0.1"
}

/// The pinned API version header: its name and its value.
pub fn api_version_header_name() -> (r: &'static str)
    ensures
        r@ == "x-github-api-version"@,
{
    "x-github-api-version"
}

/// The pinned API version sent with every request.
pub fn api_version_value() -> (r: &'static str)
    ensures
        r@ == "2022-11-28"@,
{
    "2022-11-28"
}

/// A full request address: the base with its trailing slashes cut,
/// followed by the path.
pub fn api_url(base: &str, path: &str) -> (r: String)
    ensures
        r@ == text::trim_trailing_slashes_spec(base@) + path@,
{
    let mut out = String::from_str(text::trim_trailing_slashes(base));
    out.append(path);
    out
}

/// The common `/repos/{owner}/{repo}` prefix of every operation's path.
fn repo_prefix(owner: &str, repo: &str) -> (r: String)
    ensures
        r@ == "/repos/"@ + owner@ + "/"@ + repo@,
{
    let mut out = String::from_str("/repos/");
    out.append(owner);
    out.append("/");
    out.append(repo);
    proof {
        assert(out@ =~= "/repos/"@ + owner@ + "/"@ + repo@);
    }
    out
}

/// The path of the repository resource itself.
pub fn repo_path(owner: &str, repo: &str) -> (r: String)
    ensures
        r@ == "/repos/"@ + owner@ + "/"@ + repo@,
{
    repo_prefix(owner, repo)
}

/// The path generating a repository from this template.
pub fn generate_path(owner: &str, template: &str) -> (r: String)
    ensures
        r@ == "/repos/"@ + owner@ + "/"@ + template@ + "/generate"@,
{
    let mut out = repo_prefix(owner, template);
    out.append("/generate");
    out
}

/// The path of one branch resource, probed for readiness.
pub fn branch_path(owner: &str, repo: &str, branch: &str) -> (r: String)
    ensures
        r@ == "/repos/"@ + owner@ + "/"@ + repo@ + "/branches/"@ + branch@,
{
    let mut out = repo_prefix(owner, repo);
    out.append("/branches/");
    out.append(branch);
    proof {
        assert(out@ =~= "/repos/"@ + owner@ + "/"@ + repo@ + "/branches/"@ + branch@);
    }
    out
}

/// The path of one branch's protection settings.
pub fn protection_path(owner: &str, repo: &str, branch: &str) -> (r: String)
    ensures
        r@ == "/repos/"@ + owner@ + "/"@ + repo@ + "/branches/"@ + branch@ + "/protection"@,
{
    let mut out = branch_path(owner, repo, branch);
    out.append("/protection");
    proof {
        assert(out@ =~= "/repos/"@ + owner@ + "/"@ + repo@ + "/branches/"@ + branch@
            + "/protection"@);
    }
    out
}

/// The path reading one branch's ref, which carries its commit id.
pub fn git_ref_path(owner: &str, repo: &str, branch: &str) -> (r: String)
    ensures
        r@ == "/repos/"@ + owner@ + "/"@ + repo@ + "/git/ref/heads/"@ + branch@,
{
    let mut out = repo_prefix(owner, repo);
    out.append("/git/ref/heads/");
    out.append(branch);
    proof {
        assert(out@ =~= "/repos/"@ + owner@ + "/"@ + repo@ + "/git/ref/heads/"@ + branch@);
    }
    out
}

/// The path creating a new ref.
pub fn refs_path(owner: &str, repo: &str) -> (r: String)
    ensures
        r@ == "/repos/"@ + owner@ + "/"@ + repo@ + "/git/refs"@,
{
    let mut out = repo_prefix(owner, repo);
    out.append("/git/refs");
    out
}

/// The fully qualified ref name of a branch.
pub fn ref_name(branch: &str) -> (r: String)
    ensures
        r@ == "refs/heads/"@ + branch@,
{
    let mut out = String::from_str("refs/heads/");
    out.append(branch);
    out
}

/// The path listing a repository's whole tree at one branch.
pub fn tree_path(owner: &str, repo: &str, branch: &str) -> (r: String)
    ensures
        r@ == "/repos/"@ + owner@ + "/"@ + repo@ + "/git/trees/"@ + branch@ + "?recursive=1"@,
{
    let mut out = repo_prefix(owner, repo);
    out.append("/git/trees/");
    out.append(branch);
    out.append("?recursive=1");
    proof {
        assert(out@ =~= "/repos/"@ + owner@ + "/"@ + repo@ + "/git/trees/"@ + branch@
            + "?recursive=1"@);
    }
    out
}

/// The path of one blob by its id.
pub fn blob_path(owner: &str, repo: &str, sha: &str) -> (r: String)
    ensures
        r@ == "/repos/"@ + owner@ + "/"@ + repo@ + "/git/blobs/"@ + sha@,
{
    let mut out = repo_prefix(owner, repo);
    out.append("/git/blobs/");
    out.append(sha);
    proof {
        assert(out@ =~= "/repos/"@ + owner@ + "/"@ + repo@ + "/git/blobs/"@ + sha@);
    }
    out
}

/// The path probing whether a file exists on a branch.
pub fn contents_probe_path(owner: &str, repo: &str, file_path: &str, branch: &str) -> (r: String)
    ensures
        r@ == "/repos/"@ + owner@ + "/"@ + repo@ + "/contents/"@ + file_path@ + "?ref="@
            + branch@,
{
    let mut out = repo_prefix(owner, repo);
    out.append("/contents/");
    out.append(file_path);
    out.append("?ref=");
    out.append(branch);
    proof {
        assert(out@ =~= "/repos/"@ + owner@ + "/"@ + repo@ + "/contents/"@ + file_path@ + "?ref="@
            + branch@);
    }
    out
}

/// The path writing a file's contents.
pub fn contents_put_path(owner: &str, repo: &str, file_path: &str) -> (r: String)
    ensures
        r@ == "/repos/"@ + owner@ + "/"@ + repo@ + "/contents/"@ + file_path@,
{
    let mut out = repo_prefix(owner, repo);
    out.append("/contents/");
    out.append(file_path);
    proof {
        assert(out@ =~= "/repos/"@ + owner@ + "/"@ + repo@ + "/contents/"@ + file_path@);
    }
    out
}

/// The path creating or updating one deployment environment.
pub fn environment_path(owner: &str, repo: &str, env_name: &str) -> (r: String)
    ensures
        r@ == "/repos/"@ + owner@ + "/"@ + repo@ + "/environments/"@ + env_name@,
{
    let mut out = repo_prefix(owner, repo);
    out.append("/environments/");
    out.append(env_name);
    proof {
        assert(out@ =~= "/repos/"@ + owner@ + "/"@ + repo@ + "/environments/"@ + env_name@);
    }
    out
}

/// The path adding one allowed branch pattern to an environment.
pub fn branch_policies_path(owner: &str, repo: &str, env_name: &str) -> (r: String)
    ensures
        r@ == "/repos/"@ + owner@ + "/"@ + repo@ + "/environments/"@ + env_name@
            + "/deployment-branch-policies"@,
{
    let mut out = environment_path(owner, repo, env_name);
    out.append("/deployment-branch-policies");
    proof {
        assert(out@ =~= "/repos/"@ + owner@ + "/"@ + repo@ + "/environments/"@ + env_name@
            + "/deployment-branch-policies"@);
    }
    out
}

/// The report when applying branch protection fails.
pub fn protection_failure_report(with_checks: bool, status: u16, body: &str) -> (r: String)
    ensures
        !with_checks ==> r@ == "Failed to apply branch protection (status "@ + text::dec_digits(
            status as nat,
        ) + "): "@ + text::trimmed(body@),
        with_checks ==> r@ == "Failed to apply branch protection (with checks) (status "@
            + text::dec_digits(status as nat) + "): "@ + text::trimmed(body@),
{
    let mut out = if with_checks {
        String::from_str("Failed to apply branch protection (with checks) (status ")
    } else {
        String::from_str("Failed to apply branch protection (status ")
    };
    text::push_decimal(status as u64, &mut out);
    out.append("): ");
    out.append(text::trim(body));
    proof {
        if with_checks {
            assert(out@ =~= "Failed to apply branch protection (with checks) (status "@
                + text::dec_digits(status as nat) + "): "@ + text::trimmed(body@));
        } else {
            assert(out@ =~= "Failed to apply branch protection (status "@ + text::dec_digits(
                status as nat,
            ) + "): "@ + text::trimmed(body@));
        }
    }
    out
}

/// The report when the base branch's ref cannot be read.
pub fn base_branch_failure_report(base_branch: &str, body: &str) -> (r: String)
    ensures
        r@ == "Failed to read base branch '"@ + base_branch@ + "': "@ + body@,
{
    let mut out = String::from_str("Failed to read base branch '");
    out.append(base_branch);
    out.append("': ");
    out.append(body);
    proof {
        assert(out@ =~= "Failed to read base branch '"@ + base_branch@ + "': "@ + body@);
    }
    out
}

/// The report when creating a branch fails.
pub fn create_branch_failure_report(new_branch: &str, body: &str) -> (r: String)
    ensures
        r@ == "Failed to create branch '"@ + new_branch@ + "': "@ + body@,
{
    let mut out = String::from_str("Failed to create branch '");
    out.append(new_branch);
    out.append("': ");
    out.append(body);
    proof {
        assert(out@ =~= "Failed to create branch '"@ + new_branch@ + "': "@ + body@);
    }
    out
}

/// The report when an environment cannot be created or updated.
pub fn environment_failure_report(env_name: &str, body: &str) -> (r: String)
    ensures
        r@ == "Failed to create/update environment '"@ + env_name@ + "': "@ + body@,
{
    let mut out = String::from_str("Failed to create/update environment '");
    out.append(env_name);
    out.append("': ");
    out.append(body);
    proof {
        assert(out@ =~= "Failed to create/update environment '"@ + env_name@ + "': "@ + body@);
    }
    out
}

/// The report when a repository's metadata cannot be read.
pub fn repo_info_failure_report(full_name: &str, body: &str) -> (r: String)
    ensures
        r@ == "Failed to read repo info for '"@ + full_name@ + "': "@ + body@,
{
    let mut out = String::from_str("Failed to read repo info for '");
    out.append(full_name);
    out.append("': ");
    out.append(body);
    proof {
        assert(out@ =~= "Failed to read repo info for '"@ + full_name@ + "': "@ + body@);
    }
    out
}

/// The report when the seeding source's tree cannot be listed.
pub fn source_tree_failure_report(body: &str) -> (r: String)
    ensures
        r@ == "Failed to read source tree: "@ + body@,
{
    let mut out = String::from_str("Failed to read source tree: ");
    out.append(body);
    out
}

} // verus!
