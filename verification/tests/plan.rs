use github_client::plan::{build_plan, next_step, WorkflowStep};
use github_client::policy::{
    baseline_policy, checked_policy, custom_branch_policy, environment_specs,
    required_check_contexts,
};
use github_client::reference::service_seed_source;
use github_client::request::ref_name;
use github_client::{is_private_visibility, is_service_template, ProvisioningRequest};

#[test]
fn service_plan_runs_the_extended_workflow() {
    // The end-to-end service scenario: a private repository from the
    // template `owner/service-template`, whose name segment starts with
    // `service-`, activates seeding, checked protection, the `dev`
    // branch, its protection, and both environments, in that order.
    let template = "owner/service-template";
    assert!(is_service_template(template));
    assert!(is_private_visibility("private"));
    assert!(is_private_visibility("PRIVATE"));
    assert!(!is_private_visibility("public"));

    // The creation input for the scenario: private, no extra branches.
    let request = ProvisioningRequest {
        name: "new-repo".to_string(),
        description: "desc".to_string(),
        private: is_private_visibility("private"),
        include_all_branches: false,
    };
    assert!(request.private);
    assert!(!request.include_all_branches);

    let plan = build_plan(true, true);
    assert_eq!(
        plan,
        vec![
            WorkflowStep::CreateRepository,
            WorkflowStep::SeedContent,
            WorkflowStep::ProtectDefaultBranch { with_checks: true },
            WorkflowStep::CreateDevBranch,
            WorkflowStep::ProtectDevBranch,
            WorkflowStep::ConfigureEnvironment { index: 0 },
            WorkflowStep::ConfigureEnvironment { index: 1 },
        ]
    );

    // The seed source derives from the new repository's owner.
    assert_eq!(service_seed_source(None, "owner"), "owner/service-template");
    // The secondary branch is created from the default branch's commit
    // as `refs/heads/dev`.
    assert_eq!(ref_name("dev"), "refs/heads/dev");

    // Both environments carry their fixed pattern lists.
    let envs = environment_specs();
    assert_eq!(envs.len(), 2);
    assert_eq!(envs[0].name, "dev");
    assert_eq!(
        envs[0].allowed_branch_patterns,
        vec!["dev", "feature/*", "hotfix/*"]
    );
    assert_eq!(envs[1].name, "release");
    assert_eq!(envs[1].allowed_branch_patterns, vec!["release/*", "main"]);

    // Protection on both branches uses the checked policy with the one
    // fixed context.
    let contexts = required_check_contexts();
    assert_eq!(contexts, vec!["branch-policy"]);
}

#[test]
fn plain_plan_only_creates_and_protects() {
    assert_eq!(
        build_plan(false, true),
        vec![
            WorkflowStep::CreateRepository,
            WorkflowStep::ProtectDefaultBranch { with_checks: false },
        ]
    );
    assert_eq!(build_plan(false, false), vec![WorkflowStep::CreateRepository]);
}

#[test]
fn service_plan_without_protection_skips_both_protections() {
    assert_eq!(
        build_plan(true, false),
        vec![
            WorkflowStep::CreateRepository,
            WorkflowStep::SeedContent,
            WorkflowStep::CreateDevBranch,
            WorkflowStep::ConfigureEnvironment { index: 0 },
            WorkflowStep::ConfigureEnvironment { index: 1 },
        ]
    );
}

#[test]
fn orchestration_short_circuits_on_failure() {
    let plan = build_plan(true, true);
    // While steps succeed, the next step is handed out in order.
    assert_eq!(next_step(&plan, 0, true), Some(WorkflowStep::CreateRepository));
    assert_eq!(next_step(&plan, 1, true), Some(WorkflowStep::SeedContent));
    // A failure stops the run at once.
    assert_eq!(next_step(&plan, 2, false), None);
    // A finished plan hands out nothing more.
    assert_eq!(next_step(&plan, plan.len(), true), None);
}

#[test]
fn protection_policy_carries_the_fixed_rules() {
    let p = baseline_policy();
    assert!(p.strict_status_checks);
    assert!(p.required_contexts.is_empty());
    assert!(p.enforce_admins);
    assert_eq!(p.required_approving_review_count, 1);
    assert!(p.dismiss_stale_reviews);
    assert!(!p.require_code_owner_reviews);
    assert!(p.require_last_push_approval);
    assert!(!p.allow_force_pushes);
    assert!(!p.allow_deletions);
    assert!(p.required_linear_history);
    assert!(!p.block_creations);
    assert!(p.required_conversation_resolution);
    assert!(!p.lock_branch);
    assert!(!p.allow_fork_syncing);

    let c = checked_policy(required_check_contexts());
    assert_eq!(c.required_contexts, vec!["branch-policy"]);
    assert!(c.strict_status_checks);
    assert!(c.enforce_admins);
    assert_eq!(c.required_approving_review_count, 1);

    let d = custom_branch_policy();
    assert!(!d.protected_branches);
    assert!(d.custom_branch_policies);
}
