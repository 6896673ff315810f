//! The provisioning plan: which remote operations run, in which order,
//! and the short-circuit rule that stops the run at its first terminal
//! failure.

use vstd::prelude::*;

verus! {

/// One remote operation of a provisioning run.
#[derive(Debug, PartialEq, Eq, Structural, Clone, Copy)]
pub enum WorkflowStep {
    /// Generate the repository from its template.
    CreateRepository,
    /// Copy scaffolding from the seed source into the new repository.
    SeedContent,
    /// Protect the default branch, with required checks when flagged.
    ProtectDefaultBranch { with_checks: bool },
    /// Create the secondary `dev` branch from the default branch's commit.
    CreateDevBranch,
    /// Protect the secondary branch with required checks.
    ProtectDevBranch,
    /// Configure the environment at this index of the catalogue.
    ConfigureEnvironment { index: usize },
}

/// The ordered steps of one run. The service archetype activates
/// seeding, the secondary branch and the environments; `protect` gates
/// both protection steps.
pub open spec fn spec_plan(service: bool, protect: bool) -> Seq<WorkflowStep> {
    if service {
        if protect {
            seq![
                WorkflowStep::CreateRepository,
                WorkflowStep::SeedContent,
                WorkflowStep::ProtectDefaultBranch { with_checks: true },
                WorkflowStep::CreateDevBranch,
                WorkflowStep::ProtectDevBranch,
                WorkflowStep::ConfigureEnvironment { index: 0 },
                WorkflowStep::ConfigureEnvironment { index: 1 },
            ]
        } else {
            seq![
                WorkflowStep::CreateRepository,
                WorkflowStep::SeedContent,
                WorkflowStep::CreateDevBranch,
                WorkflowStep::ConfigureEnvironment { index: 0 },
                WorkflowStep::ConfigureEnvironment { index: 1 },
            ]
        }
    } else {
        if protect {
            seq![
                WorkflowStep::CreateRepository,
                WorkflowStep::ProtectDefaultBranch { with_checks: false },
            ]
        } else {
            seq![WorkflowStep::CreateRepository]
        }
    }
}

/// Build the ordered step list for one run.
pub fn build_plan(service: bool, protect: bool) -> (r: Vec<WorkflowStep>)
    ensures
        r@ == spec_plan(service, protect),
{
    let mut plan: Vec<WorkflowStep> = Vec::new();
    plan.push(WorkflowStep::CreateRepository);
    if service {
        plan.push(WorkflowStep::SeedContent);
        if protect {
            plan.push(WorkflowStep::ProtectDefaultBranch { with_checks: true });
        }
        plan.push(WorkflowStep::CreateDevBranch);
        if protect {
            plan.push(WorkflowStep::ProtectDevBranch);
        }
        plan.push(WorkflowStep::ConfigureEnvironment { index: 0 });
        plan.push(WorkflowStep::ConfigureEnvironment { index: 1 });
    } else {
        if protect {
            plan.push(WorkflowStep::ProtectDefaultBranch { with_checks: false });
        }
    }
    proof {
        assert(plan@ =~= spec_plan(service, protect));
    }
    plan
}

/// The steps that actually run when the attempted steps succeed or fail
/// as `results` says: the plan's prefix through the first failure.
pub open spec fn spec_executed(plan: Seq<WorkflowStep>, results: Seq<bool>) -> Seq<WorkflowStep>
    decreases plan.len(),
{
    if plan.len() == 0 || results.len() == 0 {
        Seq::empty()
    } else if results[0] {
        seq![plan[0]] + spec_executed(plan.drop_first(), results.drop_first())
    } else {
        seq![plan[0]]
    }
}

/// What the orchestrator attempts after `done` steps whose last result
/// was `prev_ok`: the next step of the plan, or nothing once the plan is
/// finished or a step has failed.
pub fn next_step(plan: &Vec<WorkflowStep>, done: usize, prev_ok: bool) -> (r: Option<WorkflowStep>)
    ensures
        r matches Some(s) ==> prev_ok && done < plan@.len() && s == plan@[done as int],
        r is None <==> !prev_ok || done >= plan@.len(),
{
    if !prev_ok || done >= plan.len() {
        None
    } else {
        Some(plan[done])
    }
}

/// Short-circuiting: when the first failure is at position `k`, exactly
/// the plan through `k` runs, and nothing after it.
pub proof fn lemma_short_circuit(plan: Seq<WorkflowStep>, results: Seq<bool>, k: int)
    requires
        0 <= k < plan.len(),
        k < results.len(),
        !results[k],
        forall|j: int| 0 <= j < k ==> results[j],
    ensures
        spec_executed(plan, results) =~= plan.take(k + 1),
    decreases k,
{
    if k == 0 {
        assert(spec_executed(plan, results) =~= seq![plan[0]]);
    } else {
        lemma_short_circuit(plan.drop_first(), results.drop_first(), k - 1);
        assert(spec_executed(plan, results) =~= seq![plan[0]] + plan.drop_first().take(k));
    }
}

/// When every attempted step succeeds and a result is recorded for each
/// step, the whole plan runs.
pub proof fn lemma_run_to_completion(plan: Seq<WorkflowStep>, results: Seq<bool>)
    requires
        results.len() >= plan.len(),
        forall|j: int| 0 <= j < results.len() ==> results[j],
    ensures
        spec_executed(plan, results) =~= plan,
    decreases plan.len(),
{
    if plan.len() == 0 {
    } else {
        lemma_run_to_completion(plan.drop_first(), results.drop_first());
        assert(spec_executed(plan, results) =~= seq![plan[0]] + plan.drop_first());
    }
}

} // verus!
