//! The fixed branch-governance rule set and the deployment-environment
//! catalogue. The rule values are constants of the organisation's policy,
//! not caller-configurable; only the required status-check contexts vary
//! between the baseline and the checked variant.

use vstd::prelude::*;
use vstd::string::StringExecFns;

verus! {

/// The server-enforced rules applied to a protected branch, plus the
/// required status-check context names.
pub struct BranchProtectionPolicy {
    pub strict_status_checks: bool,
    pub required_contexts: Vec<String>,
    pub enforce_admins: bool,
    pub required_approving_review_count: u8,
    pub dismiss_stale_reviews: bool,
    pub require_code_owner_reviews: bool,
    pub require_last_push_approval: bool,
    pub allow_force_pushes: bool,
    pub allow_deletions: bool,
    pub required_linear_history: bool,
    pub block_creations: bool,
    pub required_conversation_resolution: bool,
    pub lock_branch: bool,
    pub allow_fork_syncing: bool,
}

/// The fixed rule values every policy variant carries.
pub open spec fn spec_fixed_rules(p: BranchProtectionPolicy) -> bool {
    &&& p.strict_status_checks == true
    &&& p.enforce_admins == true
    &&& p.required_approving_review_count == 1
    &&& p.dismiss_stale_reviews == true
    &&& p.require_code_owner_reviews == false
    &&& p.require_last_push_approval == true
    &&& p.allow_force_pushes == false
    &&& p.allow_deletions == false
    &&& p.required_linear_history == true
    &&& p.block_creations == false
    &&& p.required_conversation_resolution == true
    &&& p.lock_branch == false
    &&& p.allow_fork_syncing == false
}

/// The baseline policy: the fixed rules with no required contexts.
pub fn baseline_policy() -> (p: BranchProtectionPolicy)
    ensures
        spec_fixed_rules(p),
        p.required_contexts@ =~= Seq::<String>::empty(),
{
    BranchProtectionPolicy {
        strict_status_checks: true,
        required_contexts: Vec::new(),
        enforce_admins: true,
        required_approving_review_count: 1,
        dismiss_stale_reviews: true,
        require_code_owner_reviews: false,
        require_last_push_approval: true,
        allow_force_pushes: false,
        allow_deletions: false,
        required_linear_history: true,
        block_creations: false,
        required_conversation_resolution: true,
        lock_branch: false,
        allow_fork_syncing: false,
    }
}

/// The checked policy: the fixed rules with the given required contexts.
pub fn checked_policy(required_contexts: Vec<String>) -> (p: BranchProtectionPolicy)
    ensures
        spec_fixed_rules(p),
        p.required_contexts == required_contexts,
{
    BranchProtectionPolicy {
        strict_status_checks: true,
        required_contexts,
        enforce_admins: true,
        required_approving_review_count: 1,
        dismiss_stale_reviews: true,
        require_code_owner_reviews: false,
        require_last_push_approval: true,
        allow_force_pushes: false,
        allow_deletions: false,
        required_linear_history: true,
        block_creations: false,
        required_conversation_resolution: true,
        lock_branch: false,
        allow_fork_syncing: false,
    }
}

/// The one status-check context required on service repositories.
pub fn required_check_contexts() -> (r: Vec<String>)
    ensures
        r@.len() == 1,
        r@[0]@ == "branch-policy"@,
{
    let mut v: Vec<String> = Vec::new();
    v.push(String::from_str("branch-policy"));
    v
}

/// The deployment-branch policy flags sent when an environment is
/// created or updated.
pub struct DeploymentBranchPolicy {
    pub protected_branches: bool,
    pub custom_branch_policies: bool,
}

/// Custom branch patterns replace the protected-branches default.
pub fn custom_branch_policy() -> (p: DeploymentBranchPolicy)
    ensures
        p.protected_branches == false,
        p.custom_branch_policies == true,
{
    DeploymentBranchPolicy { protected_branches: false, custom_branch_policies: true }
}

/// A deployment environment and the branch name patterns allowed to
/// deploy into it, in the order they are added.
pub struct EnvironmentSpec {
    pub name: String,
    pub allowed_branch_patterns: Vec<String>,
}

/// The two fixed environments configured for service repositories.
pub fn environment_specs() -> (r: Vec<EnvironmentSpec>)
    ensures
        r@.len() == 2,
        r@[0].name@ == "dev"@,
        r@[0].allowed_branch_patterns@.len() == 3,
        r@[0].allowed_branch_patterns@[0]@ == "dev"@,
        r@[0].allowed_branch_patterns@[1]@ == "feature/*"@,
        r@[0].allowed_branch_patterns@[2]@ == "hotfix/*"@,
        r@[1].name@ == "release"@,
        r@[1].allowed_branch_patterns@.len() == 2,
        r@[1].allowed_branch_patterns@[0]@ == "release/*"@,
        r@[1].allowed_branch_patterns@[1]@ == "main"@,
{
    let mut dev_patterns: Vec<String> = Vec::new();
    dev_patterns.push(String::from_str("dev"));
    dev_patterns.push(String::from_str("feature/*"));
    dev_patterns.push(String::from_str("hotfix/*"));
    let mut release_patterns: Vec<String> = Vec::new();
    release_patterns.push(String::from_str("release/*"));
    release_patterns.push(String::from_str("main"));
    let mut specs: Vec<EnvironmentSpec> = Vec::new();
    specs.push(
        EnvironmentSpec {
            name: String::from_str("dev"),
            allowed_branch_patterns: dev_patterns,
        },
    );
    specs.push(
        EnvironmentSpec {
            name: String::from_str("release"),
            allowed_branch_patterns: release_patterns,
        },
    );
    specs
}

} // verus!
