//! The supervisor protocol: spawn a linked child for `fib(n)`, retry after
//! a failed child, and give up after the allowed number of attempts.

use vstd::prelude::*;
use crate::status::{STATUS_OK, STATUS_SUPERVISOR_FAILED};

verus! {

/// What a supervisor reports when it finishes.
#[derive(Clone, Copy, Debug, PartialEq, Eq)]
pub struct SupervisorReport {
    /// `STATUS_OK` when a child succeeded, `STATUS_SUPERVISOR_FAILED` otherwise.
    pub status: i32,
    /// How many children were spawned.
    pub attempts: u32,
    /// The status of the last child (`STATUS_OK` when none ran).
    pub child_status: i32,
    /// The successful child's result, 0 on failure.
    pub result: u64,
}

/// The report of a supervisor that was allowed no attempt at all.
pub open spec fn spec_no_attempt_report() -> SupervisorReport {
    SupervisorReport { status: STATUS_SUPERVISOR_FAILED, attempts: 0, child_status: STATUS_OK, result: 0 }
}

/// The outcome of attempt `k` (1-based) when the children report `outcomes`
/// in turn, `outcomes[i]` being the `(status, result)` of attempt `i + 1`.
pub open spec fn spec_supervise_from(k: nat, max_retries: nat, outcomes: Seq<(i32, u64)>) -> SupervisorReport
    decreases max_retries - k,
{
    if k < 1 || k > max_retries {
        spec_no_attempt_report()
    } else {
        let (child_status, result) = outcomes[k - 1];
        if child_status == STATUS_OK {
            SupervisorReport { status: STATUS_OK, attempts: k as u32, child_status, result }
        } else if k == max_retries {
            SupervisorReport { status: STATUS_SUPERVISOR_FAILED, attempts: k as u32, child_status, result: 0 }
        } else {
            spec_supervise_from(k + 1, max_retries, outcomes)
        }
    }
}

/// The report of a supervisor allowed `max_retries` attempts whose children
/// report `outcomes` in turn.
pub open spec fn spec_supervise(max_retries: nat, outcomes: Seq<(i32, u64)>) -> SupervisorReport {
    if max_retries == 0 {
        spec_no_attempt_report()
    } else {
        spec_supervise_from(1, max_retries, outcomes)
    }
}

/// What the supervisor asks of its host next.
#[derive(Clone, Copy, Debug, PartialEq, Eq)]
pub enum SupervisorAction {
    /// Spawn a linked child computing `fib(n)` and report its outcome.
    SpawnLink { n: u64 },
    /// The supervisor is done.
    Finish { report: SupervisorReport },
}

/// A supervisor between two child runs.
pub struct Supervisor {
    n: u64,
    max_retries: u32,
    attempt: u32,
}

impl Supervisor {
    /// The input that each child computes.
    pub closed spec fn input(self) -> u64 {
        self.n
    }

    /// How many attempts the supervisor is allowed.
    pub closed spec fn max_retries(self) -> u32 {
        self.max_retries
    }

    /// The attempt whose child is running (1-based).
    pub closed spec fn attempt(self) -> u32 {
        self.attempt
    }

    /// A supervisor waits for a child within its allowed attempts.
    pub open spec fn wf(self) -> bool {
        1 <= self.attempt() <= self.max_retries()
    }

    /// Starts supervising `fib(n)` with at most `max_retries` attempts.
    /// With no attempt allowed, it finishes at once and reports failure.
    pub fn start(n: u64, max_retries: u32) -> (res: (Supervisor, SupervisorAction))
        ensures
            res.0.input() == n,
            res.0.max_retries() == max_retries,
            max_retries == 0 ==> res.1 == (SupervisorAction::Finish { report: spec_no_attempt_report() }),
            max_retries > 0 ==> {
                &&& res.1 == SupervisorAction::SpawnLink { n }
                &&& res.0.wf()
                &&& res.0.attempt() == 1
            },
    {
        let sup = Supervisor { n, max_retries, attempt: 1 };
        if max_retries == 0 {
            let report = SupervisorReport {
                status: STATUS_SUPERVISOR_FAILED,
                attempts: 0,
                child_status: STATUS_OK,
                result: 0,
            };
            (sup, SupervisorAction::Finish { report })
        } else {
            (sup, SupervisorAction::SpawnLink { n })
        }
    }

    /// Takes the outcome of the running child: finishes with success, gives
    /// up after the last allowed attempt, or spawns the next child.
    pub fn step(&mut self, child_status: i32, result: u64) -> (action: SupervisorAction)
        requires
            old(self).wf(),
        ensures
            final(self).input() == old(self).input(),
            final(self).max_retries() == old(self).max_retries(),
            child_status == STATUS_OK ==> action == (SupervisorAction::Finish {
                report: SupervisorReport {
                    status: STATUS_OK,
                    attempts: old(self).attempt(),
                    child_status,
                    result,
                },
            }),
            child_status != STATUS_OK && old(self).attempt() == old(self).max_retries() ==> action
                == (SupervisorAction::Finish {
                report: SupervisorReport {
                    status: STATUS_SUPERVISOR_FAILED,
                    attempts: old(self).attempt(),
                    child_status,
                    result: 0,
                },
            }),
            child_status != STATUS_OK && old(self).attempt() < old(self).max_retries() ==> {
                &&& action == SupervisorAction::SpawnLink { n: old(self).input() }
                &&& final(self).wf()
                &&& final(self).attempt() == old(self).attempt() + 1
            },
    {
        if child_status == STATUS_OK {
            SupervisorAction::Finish {
                report: SupervisorReport { status: STATUS_OK, attempts: self.attempt, child_status, result },
            }
        } else if self.attempt == self.max_retries {
            SupervisorAction::Finish {
                report: SupervisorReport {
                    status: STATUS_SUPERVISOR_FAILED,
                    attempts: self.attempt,
                    child_status,
                    result: 0,
                },
            }
        } else {
            self.attempt = self.attempt + 1;
            SupervisorAction::SpawnLink { n: self.n }
        }
    }
}

/// What the core-module supervisor keeps for its callers to read after a
/// supervision: the attempts made, the last child's status, and the result
/// of the child that succeeded (0 otherwise).
#[derive(Clone, Copy, Debug, PartialEq, Eq)]
pub struct SupervisorRecord {
    pub attempts: u32,
    pub child_status: i32,
    pub result: u64,
}

impl SupervisorRecord {
    /// The record before any child ran.
    pub fn empty() -> (record: SupervisorRecord)
        ensures
            record == (SupervisorRecord { attempts: 0, child_status: STATUS_OK, result: 0 }),
    {
        SupervisorRecord { attempts: 0, child_status: STATUS_OK, result: 0 }
    }
}

impl Supervisor {
    /// The record after the running child reported `child_status` and
    /// `result`: its attempt number and status, and its result when it
    /// succeeded.
    pub fn record(&self, child_status: i32, result: u64) -> (record: SupervisorRecord)
        ensures
            record == (SupervisorRecord {
                attempts: self.attempt(),
                child_status,
                result: if child_status == STATUS_OK { result } else { 0 },
            }),
    {
        SupervisorRecord {
            attempts: self.attempt,
            child_status,
            result: if child_status == STATUS_OK { result } else { 0 },
        }
    }
}

/// Runs the supervisor protocol against the outcomes that successive
/// children report, `outcomes[i]` being the `(status, result)` of the
/// `i + 1`-th child; it reads at most `max_retries` of them.
pub fn supervise_outcomes(n: u64, max_retries: u32, outcomes: &Vec<(i32, u64)>) -> (report: SupervisorReport)
    requires
        outcomes@.len() >= max_retries,
    ensures
        report == spec_supervise(max_retries as nat, outcomes@),
{
    let (mut sup, mut action) = Supervisor::start(n, max_retries);
    let mut index: usize = 0;
    loop
        invariant
            outcomes@.len() >= max_retries,
            sup.max_retries() == max_retries,
            sup.input() == n,
            match action {
                SupervisorAction::Finish { report } => report == spec_supervise(max_retries as nat, outcomes@),
                SupervisorAction::SpawnLink { n: m } => {
                    &&& m == n
                    &&& sup.wf()
                    &&& index + 1 == sup.attempt()
                    &&& spec_supervise(max_retries as nat, outcomes@) == spec_supervise_from(
                        sup.attempt() as nat,
                        max_retries as nat,
                        outcomes@,
                    )
                },
            },
        decreases max_retries - index,
    {
        match action {
            SupervisorAction::Finish { report } => {
                return report;
            },
            SupervisorAction::SpawnLink { n: _ } => {
                let (child_status, result) = outcomes[index];
                action = sup.step(child_status, result);
                index = index + 1;
            },
        }
    }
}

/// A supervisor never spawns more children than it is allowed.
pub proof fn lemma_supervise_attempts_bounded(max_retries: nat, outcomes: Seq<(i32, u64)>, k: nat)
    requires
        1 <= k <= max_retries,
        max_retries <= u32::MAX,
    ensures
        k <= spec_supervise_from(k, max_retries, outcomes).attempts <= max_retries,
    decreases max_retries - k,
{
    if k < max_retries && outcomes[k - 1].0 != STATUS_OK {
        lemma_supervise_attempts_bounded(max_retries, outcomes, k + 1);
    }
}

/// The supervisor succeeds exactly when one of its allowed children
/// succeeds; it then reports the first such child, its attempt number and
/// its result, and it spawned no child after it.
pub proof fn lemma_supervise_success(max_retries: nat, outcomes: Seq<(i32, u64)>)
    requires
        max_retries <= u32::MAX,
        outcomes.len() >= max_retries,
    ensures
        spec_supervise(max_retries, outcomes).status == STATUS_OK <==> exists|i: int|
            0 <= i < max_retries && (#[trigger] outcomes[i]).0 == STATUS_OK,
        spec_supervise(max_retries, outcomes).status == STATUS_OK ==> {
            let k = spec_supervise(max_retries, outcomes).attempts as int;
            &&& 1 <= k <= max_retries
            &&& outcomes[k - 1].0 == STATUS_OK
            &&& spec_supervise(max_retries, outcomes).child_status == STATUS_OK
            &&& spec_supervise(max_retries, outcomes).result == outcomes[k - 1].1
            &&& forall|i: int| 0 <= i < k - 1 ==> (#[trigger] outcomes[i]).0 != STATUS_OK
        },
{
    if max_retries > 0 {
        lemma_supervise_from_success(1, max_retries, outcomes);
    }
}

proof fn lemma_supervise_from_success(k: nat, max_retries: nat, outcomes: Seq<(i32, u64)>)
    requires
        1 <= k <= max_retries,
        max_retries <= u32::MAX,
        outcomes.len() >= max_retries,
    ensures
        spec_supervise_from(k, max_retries, outcomes).status == STATUS_OK <==> exists|i: int|
            k - 1 <= i < max_retries && (#[trigger] outcomes[i]).0 == STATUS_OK,
        spec_supervise_from(k, max_retries, outcomes).status == STATUS_OK ==> {
            let a = spec_supervise_from(k, max_retries, outcomes).attempts as int;
            &&& k <= a <= max_retries
            &&& outcomes[a - 1].0 == STATUS_OK
            &&& spec_supervise_from(k, max_retries, outcomes).child_status == STATUS_OK
            &&& spec_supervise_from(k, max_retries, outcomes).result == outcomes[a - 1].1
            &&& forall|i: int| k - 1 <= i < a - 1 ==> (#[trigger] outcomes[i]).0 != STATUS_OK
        },
    decreases max_retries - k,
{
    let first = outcomes[k - 1];
    if first.0 == STATUS_OK {
        assert(outcomes[k - 1].0 == STATUS_OK);
    } else if k == max_retries {
        if exists|i: int| k - 1 <= i < max_retries && (#[trigger] outcomes[i]).0 == STATUS_OK {
            let i = choose|i: int| k - 1 <= i < max_retries && (#[trigger] outcomes[i]).0 == STATUS_OK;
            assert(i == k - 1);
        }
    } else {
        lemma_supervise_from_success(k + 1, max_retries, outcomes);
        if exists|i: int| k - 1 <= i < max_retries && (#[trigger] outcomes[i]).0 == STATUS_OK {
            let i = choose|i: int| k - 1 <= i < max_retries && (#[trigger] outcomes[i]).0 == STATUS_OK;
            assert(i != k - 1);
            assert(k <= i < max_retries && outcomes[i].0 == STATUS_OK);
        }
        if exists|i: int| k <= i < max_retries && (#[trigger] outcomes[i]).0 == STATUS_OK {
            let i = choose|i: int| k <= i < max_retries && (#[trigger] outcomes[i]).0 == STATUS_OK;
            assert(k - 1 <= i < max_retries && outcomes[i].0 == STATUS_OK);
        }
    }
}

/// A supervisor that fails after having been allowed some attempts used
/// them all, reports the last child's status and the result 0; one allowed
/// no attempt reports failure with no attempt, an ok child status and 0.
pub proof fn lemma_supervise_failure(max_retries: nat, outcomes: Seq<(i32, u64)>)
    requires
        max_retries <= u32::MAX,
        outcomes.len() >= max_retries,
        spec_supervise(max_retries, outcomes).status != STATUS_OK,
    ensures
        spec_supervise(max_retries, outcomes).status == STATUS_SUPERVISOR_FAILED,
        spec_supervise(max_retries, outcomes).result == 0,
        max_retries == 0 ==> spec_supervise(max_retries, outcomes) == spec_no_attempt_report(),
        max_retries > 0 ==> {
            &&& spec_supervise(max_retries, outcomes).attempts == max_retries
            &&& spec_supervise(max_retries, outcomes).child_status == outcomes[max_retries - 1].0
        },
{
    if max_retries > 0 {
        lemma_supervise_from_failure(1, max_retries, outcomes);
    }
}

proof fn lemma_supervise_from_failure(k: nat, max_retries: nat, outcomes: Seq<(i32, u64)>)
    requires
        1 <= k <= max_retries,
        max_retries <= u32::MAX,
        outcomes.len() >= max_retries,
        spec_supervise_from(k, max_retries, outcomes).status != STATUS_OK,
    ensures
        spec_supervise_from(k, max_retries, outcomes).status == STATUS_SUPERVISOR_FAILED,
        spec_supervise_from(k, max_retries, outcomes).result == 0,
        spec_supervise_from(k, max_retries, outcomes).attempts == max_retries,
        spec_supervise_from(k, max_retries, outcomes).child_status == outcomes[max_retries - 1].0,
    decreases max_retries - k,
{
    if k < max_retries && outcomes[k - 1].0 != STATUS_OK {
        lemma_supervise_from_failure(k + 1, max_retries, outcomes);
    }
}

} // verus!
