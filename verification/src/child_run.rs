//! How the hosts run a child: the stages of starting a child instance, the
//! status that a failed stage reports, the replies of the supervisor
//! imports, and the one-shot result slot of a spawned task.

use vstd::prelude::*;
use vstd::string::*;
use crate::status::{
    ChildStatus, RunFailure, STATUS_BAD_EXPORT, STATUS_OK, STATUS_RUNTIME_ERROR,
};
use crate::text::str_eq;

verus! {

/// A stage of starting a child instance, in the order the hosts go
/// through them.
#[derive(Clone, Copy, Debug, PartialEq, Eq)]
pub enum ChildStage {
    /// Instantiate the child.
    Instantiate,
    /// Run the child's start export (core-module children only).
    Startup,
    /// Look up the child's init export.
    InitLookup,
    /// Check the init export's signature.
    InitSignature,
    /// Call the init export.
    InitCall,
    /// Look up the child's function export.
    ExportLookup,
    /// Check the function export's signature.
    ExportSignature,
}

/// What follows a stage.
#[derive(Clone, Copy, Debug, PartialEq, Eq)]
pub enum ChildStep {
    /// Go on with this stage.
    Enter(ChildStage),
    /// Give up, reporting this status.
    Fail(i32),
    /// The child's function is ready to be called.
    Ready,
}

/// The next step of a linked child component (spawn-link host). The init
/// stages are gone through only when an init export is configured, and a
/// missing init export is then an error.
pub open spec fn spec_linked_child_step(stage: ChildStage, has_init: bool, ok: bool) -> ChildStep {
    if ok {
        match stage {
            ChildStage::Instantiate => if has_init {
                ChildStep::Enter(ChildStage::InitLookup)
            } else {
                ChildStep::Enter(ChildStage::ExportLookup)
            },
            ChildStage::Startup => ChildStep::Enter(ChildStage::ExportLookup),
            ChildStage::InitLookup => ChildStep::Enter(ChildStage::InitSignature),
            ChildStage::InitSignature => ChildStep::Enter(ChildStage::InitCall),
            ChildStage::InitCall => ChildStep::Enter(ChildStage::ExportLookup),
            ChildStage::ExportLookup => ChildStep::Enter(ChildStage::ExportSignature),
            ChildStage::ExportSignature => ChildStep::Ready,
        }
    } else {
        match stage {
            ChildStage::Instantiate | ChildStage::Startup | ChildStage::InitCall => ChildStep::Fail(
                STATUS_RUNTIME_ERROR,
            ),
            _ => ChildStep::Fail(STATUS_BAD_EXPORT),
        }
    }
}

/// Decides what follows a stage of a linked child component; `ok` tells
/// whether the stage succeeded.
pub fn linked_child_step(stage: ChildStage, has_init: bool, ok: bool) -> (step: ChildStep)
    ensures
        step == spec_linked_child_step(stage, has_init, ok),
{
    if ok {
        match stage {
            ChildStage::Instantiate => if has_init {
                ChildStep::Enter(ChildStage::InitLookup)
            } else {
                ChildStep::Enter(ChildStage::ExportLookup)
            },
            ChildStage::Startup => ChildStep::Enter(ChildStage::ExportLookup),
            ChildStage::InitLookup => ChildStep::Enter(ChildStage::InitSignature),
            ChildStage::InitSignature => ChildStep::Enter(ChildStage::InitCall),
            ChildStage::InitCall => ChildStep::Enter(ChildStage::ExportLookup),
            ChildStage::ExportLookup => ChildStep::Enter(ChildStage::ExportSignature),
            ChildStage::ExportSignature => ChildStep::Ready,
        }
    } else {
        match stage {
            ChildStage::Instantiate | ChildStage::Startup | ChildStage::InitCall => ChildStep::Fail(
                STATUS_RUNTIME_ERROR,
            ),
            _ => ChildStep::Fail(STATUS_BAD_EXPORT),
        }
    }
}

/// The next step of the demo's failing child module. The module is started
/// after instantiation; its init export is optional (when `ok` is false at
/// `InitLookup` the export is absent and the init stages are skipped); the
/// function export is looked up and checked at once.
pub open spec fn spec_fail_child_step(stage: ChildStage, ok: bool) -> ChildStep {
    match stage {
        ChildStage::Instantiate => if ok {
            ChildStep::Enter(ChildStage::Startup)
        } else {
            ChildStep::Fail(STATUS_RUNTIME_ERROR)
        },
        ChildStage::Startup => if ok {
            ChildStep::Enter(ChildStage::InitLookup)
        } else {
            ChildStep::Fail(STATUS_RUNTIME_ERROR)
        },
        ChildStage::InitLookup => if ok {
            ChildStep::Enter(ChildStage::InitSignature)
        } else {
            ChildStep::Enter(ChildStage::ExportLookup)
        },
        ChildStage::InitSignature => if ok {
            ChildStep::Enter(ChildStage::InitCall)
        } else {
            ChildStep::Fail(STATUS_BAD_EXPORT)
        },
        ChildStage::InitCall => if ok {
            ChildStep::Enter(ChildStage::ExportLookup)
        } else {
            ChildStep::Fail(STATUS_RUNTIME_ERROR)
        },
        ChildStage::ExportLookup | ChildStage::ExportSignature => if ok {
            ChildStep::Ready
        } else {
            ChildStep::Fail(STATUS_BAD_EXPORT)
        },
    }
}

/// Decides what follows a stage of the demo's failing child module.
pub fn fail_child_step(stage: ChildStage, ok: bool) -> (step: ChildStep)
    ensures
        step == spec_fail_child_step(stage, ok),
{
    match stage {
        ChildStage::Instantiate => if ok {
            ChildStep::Enter(ChildStage::Startup)
        } else {
            ChildStep::Fail(STATUS_RUNTIME_ERROR)
        },
        ChildStage::Startup => if ok {
            ChildStep::Enter(ChildStage::InitLookup)
        } else {
            ChildStep::Fail(STATUS_RUNTIME_ERROR)
        },
        ChildStage::InitLookup => if ok {
            ChildStep::Enter(ChildStage::InitSignature)
        } else {
            ChildStep::Enter(ChildStage::ExportLookup)
        },
        ChildStage::InitSignature => if ok {
            ChildStep::Enter(ChildStage::InitCall)
        } else {
            ChildStep::Fail(STATUS_BAD_EXPORT)
        },
        ChildStage::InitCall => if ok {
            ChildStep::Enter(ChildStage::ExportLookup)
        } else {
            ChildStep::Fail(STATUS_RUNTIME_ERROR)
        },
        ChildStage::ExportLookup | ChildStage::ExportSignature => if ok {
            ChildStep::Ready
        } else {
            ChildStep::Fail(STATUS_BAD_EXPORT)
        },
    }
}

/// How a start-up goes when every stage succeeds: the stages it passes
/// through, from `stage` on, following `step`, and the step it ends with
/// (looking at most `fuel` stages ahead).
pub open spec fn successful_run(step: spec_fn(ChildStage) -> ChildStep, stage: ChildStage, fuel: nat) -> (
    Seq<ChildStage>,
    ChildStep,
)
    decreases fuel,
{
    if fuel == 0 {
        (seq![stage], ChildStep::Enter(stage))
    } else {
        match step(stage) {
            ChildStep::Enter(next) => {
                let (rest, end) = successful_run(step, next, (fuel - 1) as nat);
                (seq![stage] + rest, end)
            },
            other => (seq![stage], other),
        }
    }
}

/// The stages that fail a linked child with a bad export are the lookups
/// and signature checks of its init and function exports; instantiation,
/// start-up and the init call fail it with a runtime error. Every stage
/// that succeeds leads on, never to a failure. A linked child that
/// succeeds throughout goes through its init (lookup, signature, call)
/// exactly when one is configured, then looks up and checks its export.
pub proof fn lemma_linked_child_steps(stage: ChildStage, has_init: bool)
    ensures
        spec_linked_child_step(stage, has_init, false) == ChildStep::Fail(STATUS_BAD_EXPORT) <==> (stage
            == ChildStage::InitLookup || stage == ChildStage::InitSignature || stage == ChildStage::ExportLookup
            || stage == ChildStage::ExportSignature),
        spec_linked_child_step(stage, has_init, false) == ChildStep::Fail(STATUS_RUNTIME_ERROR) <==> (stage
            == ChildStage::Instantiate || stage == ChildStage::Startup || stage == ChildStage::InitCall),
        !(spec_linked_child_step(stage, has_init, true) is Fail),
        successful_run(|s: ChildStage| spec_linked_child_step(s, true, true), ChildStage::Instantiate, 8) == (
            seq![
                ChildStage::Instantiate,
                ChildStage::InitLookup,
                ChildStage::InitSignature,
                ChildStage::InitCall,
                ChildStage::ExportLookup,
                ChildStage::ExportSignature,
            ],
            ChildStep::Ready,
        ),
        successful_run(|s: ChildStage| spec_linked_child_step(s, false, true), ChildStage::Instantiate, 8) == (
            seq![ChildStage::Instantiate, ChildStage::ExportLookup, ChildStage::ExportSignature],
            ChildStep::Ready,
        ),
{
    reveal_with_fuel(successful_run, 9);
    let with_init = |s: ChildStage| spec_linked_child_step(s, true, true);
    let without_init = |s: ChildStage| spec_linked_child_step(s, false, true);
    assert(successful_run(with_init, ChildStage::ExportSignature, 3).0 =~= seq![ChildStage::ExportSignature]);
    assert(successful_run(with_init, ChildStage::ExportLookup, 4).0 =~= seq![
        ChildStage::ExportLookup,
        ChildStage::ExportSignature,
    ]);
    assert(successful_run(with_init, ChildStage::InitCall, 5).0 =~= seq![
        ChildStage::InitCall,
        ChildStage::ExportLookup,
        ChildStage::ExportSignature,
    ]);
    assert(successful_run(with_init, ChildStage::InitSignature, 6).0 =~= seq![
        ChildStage::InitSignature,
        ChildStage::InitCall,
        ChildStage::ExportLookup,
        ChildStage::ExportSignature,
    ]);
    assert(successful_run(with_init, ChildStage::InitLookup, 7).0 =~= seq![
        ChildStage::InitLookup,
        ChildStage::InitSignature,
        ChildStage::InitCall,
        ChildStage::ExportLookup,
        ChildStage::ExportSignature,
    ]);
    assert(successful_run(without_init, ChildStage::ExportSignature, 5).0 =~= seq![ChildStage::ExportSignature]);
    assert(successful_run(without_init, ChildStage::ExportLookup, 6).0 =~= seq![
        ChildStage::ExportLookup,
        ChildStage::ExportSignature,
    ]);
    assert(successful_run(without_init, ChildStage::ExportLookup, 7).0 =~= seq![
        ChildStage::ExportLookup,
        ChildStage::ExportSignature,
    ]);
}

/// The failing child module fails with a runtime error when it cannot be
/// instantiated or started or its init call fails, and with a bad export
/// when its init export has the wrong signature or its function export is
/// missing or wrong; a missing init export is skipped. Started with every
/// stage succeeding, it is instantiated, started, its init export found,
/// checked and called (so the burn setting reaches it), and only then is
/// its function export looked up.
pub proof fn lemma_fail_child_steps(stage: ChildStage)
    ensures
        spec_fail_child_step(stage, false) == ChildStep::Fail(STATUS_RUNTIME_ERROR) <==> (stage
            == ChildStage::Instantiate || stage == ChildStage::Startup || stage == ChildStage::InitCall),
        spec_fail_child_step(stage, false) == ChildStep::Fail(STATUS_BAD_EXPORT) <==> (stage
            == ChildStage::InitSignature || stage == ChildStage::ExportLookup || stage
            == ChildStage::ExportSignature),
        spec_fail_child_step(ChildStage::InitLookup, false) == ChildStep::Enter(ChildStage::ExportLookup),
        !(spec_fail_child_step(stage, true) is Fail),
        successful_run(|s: ChildStage| spec_fail_child_step(s, true), ChildStage::Instantiate, 8) == (
            seq![
                ChildStage::Instantiate,
                ChildStage::Startup,
                ChildStage::InitLookup,
                ChildStage::InitSignature,
                ChildStage::InitCall,
                ChildStage::ExportLookup,
            ],
            ChildStep::Ready,
        ),
{
    reveal_with_fuel(successful_run, 9);
    let step = |s: ChildStage| spec_fail_child_step(s, true);
    assert(successful_run(step, ChildStage::ExportLookup, 3).0 =~= seq![ChildStage::ExportLookup]);
    assert(successful_run(step, ChildStage::InitCall, 4).0 =~= seq![
        ChildStage::InitCall,
        ChildStage::ExportLookup,
    ]);
    assert(successful_run(step, ChildStage::InitSignature, 5).0 =~= seq![
        ChildStage::InitSignature,
        ChildStage::InitCall,
        ChildStage::ExportLookup,
    ]);
    assert(successful_run(step, ChildStage::InitLookup, 6).0 =~= seq![
        ChildStage::InitLookup,
        ChildStage::InitSignature,
        ChildStage::InitCall,
        ChildStage::ExportLookup,
    ]);
    assert(successful_run(step, ChildStage::Startup, 7).0 =~= seq![
        ChildStage::Startup,
        ChildStage::InitLookup,
        ChildStage::InitSignature,
        ChildStage::InitCall,
        ChildStage::ExportLookup,
    ]);
}

/// The start export that a core module is started with.
#[derive(Clone, Copy, Debug, PartialEq, Eq)]
pub enum StartExport {
    /// `_initialize` (a reactor module).
    Initialize,
    /// `_start` (a command module).
    Start,
}

/// Picks the start export of a core module: `_initialize` when there is
/// one, else `_start` when there is one, else none.
pub fn guest_start_export(has_initialize: bool, has_start: bool) -> (export: Option<StartExport>)
    ensures
        has_initialize ==> export == Some(StartExport::Initialize),
        !has_initialize && has_start ==> export == Some(StartExport::Start),
        !has_initialize && !has_start ==> export is None,
{
    if has_initialize {
        Some(StartExport::Initialize)
    } else if has_start {
        Some(StartExport::Start)
    } else {
        None
    }
}

/// The names under which the supervisor's spawn-link function is linked:
/// the configured one, and `run-child` besides when it is `spawn-link`.
pub open spec fn spec_link_function_names(runtime_function: Seq<char>) -> Seq<Seq<char>> {
    if runtime_function == "spawn-link"@ {
        seq![runtime_function, "run-child"@]
    } else {
        seq![runtime_function]
    }
}

/// Lists the names under which the supervisor's spawn-link function is linked.
pub fn link_function_names(runtime_function: &str) -> (names: Vec<String>)
    ensures
        names@.map_values(|s: String| s@) == spec_link_function_names(runtime_function@),
{
    let mut names: Vec<String> = Vec::new();
    names.push(runtime_function.to_owned());
    if str_eq(runtime_function, "spawn-link") {
        names.push("run-child".to_owned());
    }
    proof {
        assert(names@.map_values(|s: String| s@) =~= spec_link_function_names(runtime_function@));
    }
    names
}

/// The reply of the spawn-link import: the child's result with an ok
/// status, or the child's failure status with the result 0.
pub fn link_reply(child: Result<u64, i32>) -> (reply: (i32, u64))
    ensures
        match child {
            Ok(result) => reply == (STATUS_OK, result),
            Err(status) => reply == (status, 0u64),
        },
{
    match child {
        Ok(result) => (STATUS_OK, result),
        Err(status) => (status, 0),
    }
}

/// The outcome of a spawned task: its encoded result, or how it failed.
pub type TaskOutcome = Result<Vec<u8>, RunFailure>;

/// The contents of a task outcome.
pub open spec fn outcome_view(outcome: TaskOutcome) -> Result<Seq<u8>, RunFailure> {
    match outcome {
        Ok(payload) => Ok(payload@),
        Err(failure) => Err(failure),
    }
}

/// Copies a task outcome.
pub fn copy_outcome(outcome: &TaskOutcome) -> (copy: TaskOutcome)
    ensures
        outcome_view(copy) == outcome_view(*outcome),
{
    match outcome {
        Ok(payload) => Ok(payload.clone()),
        Err(failure) => Err(*failure),
    }
}

/// The slot that a spawned task's outcome is delivered to, and that its
/// joiner waits on.
pub struct TaskSlot {
    value: Option<TaskOutcome>,
}

impl View for TaskSlot {
    type V = Option<Result<Seq<u8>, RunFailure>>;

    closed spec fn view(&self) -> Option<Result<Seq<u8>, RunFailure>> {
        match self.value {
            Some(outcome) => Some(outcome_view(outcome)),
            None => None,
        }
    }
}

impl TaskSlot {
    /// A slot that no outcome has reached yet.
    pub fn new() -> (slot: TaskSlot)
        ensures
            slot@ is None,
    {
        TaskSlot { value: None }
    }

    /// Delivers the task's outcome.
    pub fn complete(&mut self, outcome: TaskOutcome)
        ensures
            final(self)@ == Some(outcome_view(outcome)),
    {
        self.value = Some(outcome);
    }

    /// What a waiter finds: the delivered outcome, or nothing yet (the
    /// waiter then waits for the next delivery and looks again).
    pub fn poll(&self) -> (found: Option<TaskOutcome>)
        ensures
            match found {
                Some(outcome) => self@ == Some(outcome_view(outcome)),
                None => self@ is None,
            },
    {
        match &self.value {
            Some(outcome) => Some(copy_outcome(outcome)),
            None => None,
        }
    }
}

/// A delivered outcome is what every later look at the slot finds.
pub proof fn lemma_poll_after_complete(slot: TaskSlot, outcome: TaskOutcome)
    requires
        slot@ == Some(outcome_view(outcome)),
    ensures
        forall|found: Option<TaskOutcome>|
            (match found {
                Some(o) => slot@ == Some(outcome_view(o)),
                None => slot@ is None,
            }) ==> found is Some && outcome_view(found->0) == outcome_view(outcome),
{
}

/// What the `await-task` import hands the guest for a task outcome: the
/// payload, or the failure as a child status.
pub fn task_reply(outcome: TaskOutcome) -> (reply: Result<Vec<u8>, ChildStatus>)
    ensures
        match outcome {
            Ok(payload) => reply matches Ok(p) && p@ == payload@,
            Err(failure) => reply == Err::<Vec<u8>, ChildStatus>(failure.spec_child_status()),
        },
{
    match outcome {
        Ok(payload) => Ok(payload),
        Err(failure) => Err(failure.into_child_status()),
    }
}

} // verus!
