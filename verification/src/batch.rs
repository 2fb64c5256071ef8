//! The transactional batch executor: an ordered sequence of statements runs
//! inside one unit of work, committing only if every statement succeeds,
//! rolling back on the first failure and reporting its zero-based position.
//! A rollback failure supersedes the statement failure, since the outcome of
//! the unit of work is then unknown; a commit failure means the unit of work
//! was not applied.
//!
//! The executor is a state machine: the application performs each driver
//! call (begin, execute, commit, rollback) and reports its success, and the
//! machine decides the next action. `run_batch` replays a machine run from
//! the calls' outcomes and is proved to compute exactly the outcome the
//! contracts denote.

use vstd::prelude::*;
use crate::errors::ExecError;

verus! {

/// How opening the unit of work went.
#[derive(Clone, Copy, Debug, PartialEq, Eq, Structural)]
pub enum BeginEvent {
    /// A connection was acquired and the unit of work opened.
    Opened,
    /// No connection became available within the acquisition timeout.
    AcquireTimedOut,
    /// Opening the unit of work failed for another reason.
    Failed,
}

/// How a transactional batch run ended.
#[derive(Clone, Copy, Debug, PartialEq, Eq, Structural)]
pub enum BatchOutcome {
    /// Every statement succeeded and the unit of work was committed.
    Committed,
    /// No connection became available within the acquisition timeout.
    AcquireFailed,
    /// A connection was available but no unit of work could be opened.
    BeginFailed,
    /// The statement at this zero-based position failed; the unit of work
    /// was rolled back.
    StatementFailed(usize),
    /// The statement at this zero-based position failed and the rollback
    /// failed too; the unit of work's outcome is unknown.
    RollbackFailed(usize),
    /// Every statement succeeded but the commit failed; the unit of work
    /// was not applied.
    CommitFailed,
}

/// Where a batch run stands.
#[derive(Clone, Copy, Debug, PartialEq, Eq, Structural)]
pub enum BatchPhase {
    /// The unit of work is being opened.
    Beginning,
    /// Statements up to `next` succeeded; statement `next` runs next.
    Running { next: usize },
    /// Every statement succeeded; the commit runs next.
    Committing,
    /// The statement at `failed` failed; the rollback runs next.
    RollingBack { failed: usize },
    /// The run ended with this outcome.
    Done { outcome: BatchOutcome },
}

/// What the application must do next to advance a batch run.
#[derive(Clone, Copy, Debug, PartialEq, Eq, Structural)]
pub enum BatchAction {
    /// Open the unit of work.
    Begin,
    /// Execute the statement at this zero-based position.
    Execute(usize),
    /// Commit the unit of work.
    Commit,
    /// Roll the unit of work back.
    Rollback,
    /// Nothing: the run ended with this outcome.
    Finished(BatchOutcome),
}

/// True when every statement of the batch succeeded.
pub open spec fn all_ok(s: Seq<bool>) -> bool {
    forall|i: int| 0 <= i < s.len() ==> s[i]
}

/// True when `k` is the position of the first failing statement.
pub open spec fn is_first_failure(s: Seq<bool>, k: int) -> bool {
    &&& 0 <= k < s.len()
    &&& !s[k]
    &&& forall|j: int| 0 <= j < k ==> s[j]
}

/// The position of the first failing statement.
pub open spec fn first_failure(s: Seq<bool>) -> int {
    choose|k: int| is_first_failure(s, k)
}

/// The outcome a batch run denotes, given whether the unit of work could be
/// opened, which statements would succeed, and whether a commit or a
/// rollback would succeed.
pub open spec fn batch_outcome_spec(
    begin: BeginEvent,
    s: Seq<bool>,
    commit_ok: bool,
    rollback_ok: bool,
) -> BatchOutcome {
    if begin == BeginEvent::AcquireTimedOut {
        BatchOutcome::AcquireFailed
    } else if begin == BeginEvent::Failed {
        BatchOutcome::BeginFailed
    } else if all_ok(s) {
        if commit_ok {
            BatchOutcome::Committed
        } else {
            BatchOutcome::CommitFailed
        }
    } else {
        if rollback_ok {
            BatchOutcome::StatementFailed(first_failure(s) as usize)
        } else {
            BatchOutcome::RollbackFailed(first_failure(s) as usize)
        }
    }
}

/// The first failing position is unique.
proof fn lemma_first_failure_unique(s: Seq<bool>, a: int, b: int)
    requires
        is_first_failure(s, a),
        is_first_failure(s, b),
    ensures
        a == b,
{
    if a < b {
        assert(s[a]);
    }
    if b < a {
        assert(s[b]);
    }
}

/// Whenever `k` is the first failing position, the batch denotes a rolled
/// back (or rollback-failed) outcome at exactly `k`.
proof fn lemma_outcome_at_first_failure(
    s: Seq<bool>,
    k: int,
    commit_ok: bool,
    rollback_ok: bool,
)
    requires
        is_first_failure(s, k),
    ensures
        batch_outcome_spec(BeginEvent::Opened, s, commit_ok, rollback_ok) == if rollback_ok {
            BatchOutcome::StatementFailed(k as usize)
        } else {
            BatchOutcome::RollbackFailed(k as usize)
        },
{
    assert(!all_ok(s));
    assert(is_first_failure(s, first_failure(s)));
    lemma_first_failure_unique(s, first_failure(s), k);
}

/// A batch run: how many statements were submitted and where the run
/// stands. The application drives it by reporting each driver call's
/// success and performing the action the machine asks for next.
#[derive(Clone, Copy, Debug)]
pub struct BatchRun {
    /// How many statements the batch holds.
    pub total: usize,
    /// Where the run stands.
    pub phase: BatchPhase,
}

impl BatchRun {
    /// Well-formedness: positions under execution or rollback lie inside
    /// the batch.
    pub open spec fn wf(self) -> bool {
        &&& (self.phase matches BatchPhase::Running { next } ==> next < self.total)
        &&& (self.phase matches BatchPhase::RollingBack { failed } ==> failed < self.total)
    }

    /// The action the application must perform next in this phase.
    pub open spec fn spec_next_action(self) -> BatchAction {
        match self.phase {
            BatchPhase::Beginning => BatchAction::Begin,
            BatchPhase::Running { next } => BatchAction::Execute(next),
            BatchPhase::Committing => BatchAction::Commit,
            BatchPhase::RollingBack { failed: _ } => BatchAction::Rollback,
            BatchPhase::Done { outcome } => BatchAction::Finished(outcome),
        }
    }

    /// A run over `total` statements, about to open its unit of work.
    pub fn new(total: usize) -> (r: BatchRun)
        ensures
            r.total == total,
            r.phase == BatchPhase::Beginning,
            r.wf(),
    {
        BatchRun { total, phase: BatchPhase::Beginning }
    }

    /// The action the application must perform next.
    pub fn next_action(&self) -> (a: BatchAction)
        ensures
            a == self.spec_next_action(),
    {
        match self.phase {
            BatchPhase::Beginning => BatchAction::Begin,
            BatchPhase::Running { next } => BatchAction::Execute(next),
            BatchPhase::Committing => BatchAction::Commit,
            BatchPhase::RollingBack { failed: _ } => BatchAction::Rollback,
            BatchPhase::Done { outcome } => BatchAction::Finished(outcome),
        }
    }

    /// Records how opening the unit of work went. Once it is open an empty
    /// batch goes straight to its commit and otherwise the first statement
    /// runs next; an acquisition timeout or another opening failure ends
    /// the run under its own error.
    pub fn begin_done(&mut self, event: BeginEvent)
        requires
            old(self).phase == BatchPhase::Beginning,
        ensures
            final(self).total == old(self).total,
            final(self).wf(),
            event == BeginEvent::Opened && old(self).total == 0 ==> final(self).phase
                == BatchPhase::Committing,
            event == BeginEvent::Opened && old(self).total > 0 ==> final(self).phase == (
            BatchPhase::Running { next: 0 }),
            event == BeginEvent::AcquireTimedOut ==> final(self).phase == (BatchPhase::Done {
                outcome: BatchOutcome::AcquireFailed,
            }),
            event == BeginEvent::Failed ==> final(self).phase == (BatchPhase::Done {
                outcome: BatchOutcome::BeginFailed,
            }),
    {
        match event {
            BeginEvent::Opened => {
                if self.total == 0 {
                    self.phase = BatchPhase::Committing;
                } else {
                    self.phase = BatchPhase::Running { next: 0 };
                }
            },
            BeginEvent::AcquireTimedOut => {
                self.phase = BatchPhase::Done { outcome: BatchOutcome::AcquireFailed };
            },
            BeginEvent::Failed => {
                self.phase = BatchPhase::Done { outcome: BatchOutcome::BeginFailed };
            },
        }
    }

    /// Records whether the statement under execution succeeded. On success
    /// the next statement runs, or the commit after the last one; on
    /// failure the rollback runs next, remembering the failing position.
    pub fn statement_done(&mut self, ok: bool)
        requires
            old(self).phase matches BatchPhase::Running { next: _ },
            old(self).wf(),
        ensures
            final(self).total == old(self).total,
            final(self).wf(),
            ok && (old(self).phase matches BatchPhase::Running { next } && next + 1
                < old(self).total) ==> final(self).phase == (BatchPhase::Running {
                next: (old(self).phase->Running_next + 1) as usize,
            }),
            ok && (old(self).phase matches BatchPhase::Running { next } && next + 1
                == old(self).total) ==> final(self).phase == BatchPhase::Committing,
            !ok ==> final(self).phase == (BatchPhase::RollingBack {
                failed: old(self).phase->Running_next,
            }),
    {
        let next = match self.phase {
            BatchPhase::Running { next } => next,
            _ => unreached(),
        };
        if ok {
            if next + 1 < self.total {
                self.phase = BatchPhase::Running { next: next + 1 };
            } else {
                self.phase = BatchPhase::Committing;
            }
        } else {
            self.phase = BatchPhase::RollingBack { failed: next };
        }
    }

    /// Records whether the commit succeeded; the run ends either way.
    pub fn commit_done(&mut self, ok: bool)
        requires
            old(self).phase == BatchPhase::Committing,
        ensures
            final(self).total == old(self).total,
            final(self).wf(),
            final(self).phase == (BatchPhase::Done {
                outcome: if ok {
                    BatchOutcome::Committed
                } else {
                    BatchOutcome::CommitFailed
                },
            }),
    {
        self.phase = BatchPhase::Done {
            outcome: if ok {
                BatchOutcome::Committed
            } else {
                BatchOutcome::CommitFailed
            },
        };
    }

    /// Records whether the rollback succeeded. A successful rollback ends
    /// the run blaming the failed statement; a failed one ends it with the
    /// superseding rollback failure at the same position.
    pub fn rollback_done(&mut self, ok: bool)
        requires
            old(self).phase matches BatchPhase::RollingBack { failed: _ },
        ensures
            final(self).total == old(self).total,
            final(self).wf(),
            final(self).phase == (BatchPhase::Done {
                outcome: if ok {
                    BatchOutcome::StatementFailed(old(self).phase->RollingBack_failed)
                } else {
                    BatchOutcome::RollbackFailed(old(self).phase->RollingBack_failed)
                },
            }),
    {
        let failed = match self.phase {
            BatchPhase::RollingBack { failed } => failed,
            _ => unreached(),
        };
        self.phase = BatchPhase::Done {
            outcome: if ok {
                BatchOutcome::StatementFailed(failed)
            } else {
                BatchOutcome::RollbackFailed(failed)
            },
        };
    }
}

/// The loop measure of a batch run: strictly falls at every step.
spec fn phase_measure(r: BatchRun) -> int {
    match r.phase {
        BatchPhase::Beginning => r.total + 4,
        BatchPhase::Running { next } => r.total - next + 2,
        BatchPhase::Committing => 2,
        BatchPhase::RollingBack { failed: _ } => 2,
        BatchPhase::Done { outcome: _ } => 1,
    }
}

/// Replays a whole batch run from the outcomes the driver calls would
/// have: how opening the unit of work went, which statements would
/// succeed, and whether a commit or a rollback would succeed. Statements
/// after the first failure are never consulted, as they would never run.
pub fn run_batch(
    begin: BeginEvent,
    statement_ok: &Vec<bool>,
    commit_ok: bool,
    rollback_ok: bool,
) -> (r: BatchOutcome)
    ensures
        r == batch_outcome_spec(begin, statement_ok@, commit_ok, rollback_ok),
{
    let ghost s = statement_ok@;
    let n = statement_ok.len();
    let mut run = BatchRun::new(n);
    run.begin_done(begin);
    loop
        invariant
            run.total == n,
            n == s.len(),
            s == statement_ok@,
            run.wf(),
            run.phase != BatchPhase::Beginning,
            run.phase matches BatchPhase::Running { next } ==> begin == BeginEvent::Opened
                && forall|j: int| 0 <= j < next ==> s[j],
            run.phase == BatchPhase::Committing ==> begin == BeginEvent::Opened && all_ok(s),
            run.phase matches BatchPhase::RollingBack { failed } ==> begin == BeginEvent::Opened
                && is_first_failure(s, failed as int),
            run.phase matches BatchPhase::Done { outcome } ==> outcome == batch_outcome_spec(
                begin,
                s,
                commit_ok,
                rollback_ok,
            ),
        decreases phase_measure(run),
    {
        match run.next_action() {
            BatchAction::Execute(i) => {
                let ok = statement_ok[i];
                run.statement_done(ok);
                proof {
                    if !ok {
                        assert(is_first_failure(s, i as int));
                    }
                }
            },
            BatchAction::Commit => {
                run.commit_done(commit_ok);
            },
            BatchAction::Rollback => {
                let ghost failed = run.phase->RollingBack_failed;
                run.rollback_done(rollback_ok);
                proof {
                    lemma_outcome_at_first_failure(s, failed as int, commit_ok, rollback_ok);
                }
            },
            BatchAction::Finished(outcome) => {
                return outcome;
            },
            BatchAction::Begin => {
                return unreached();
            },
        }
    }
}

/// Replays the single-statement convenience form: it is the batch form on
/// a one-element sequence.
pub fn run_single(begin: BeginEvent, statement_ok: bool, commit_ok: bool, rollback_ok: bool) -> (r:
    BatchOutcome)
    ensures
        r == batch_outcome_spec(begin, seq![statement_ok], commit_ok, rollback_ok),
{
    let mut one: Vec<bool> = Vec::new();
    one.push(statement_ok);
    run_batch(begin, &one, commit_ok, rollback_ok)
}

/// The result the executor reports for an outcome: success only on a
/// commit, and each failure under its error kind, a statement or rollback
/// failure carrying the failing statement's zero-based position.
pub open spec fn spec_outcome_as_result(o: BatchOutcome) -> Result<(), ExecError> {
    match o {
        BatchOutcome::Committed => Ok(()),
        BatchOutcome::AcquireFailed => Err(ExecError::Acquire),
        BatchOutcome::BeginFailed => Err(ExecError::Begin),
        BatchOutcome::StatementFailed(k) => Err(ExecError::Statement(k)),
        BatchOutcome::RollbackFailed(k) => Err(ExecError::Rollback(k)),
        BatchOutcome::CommitFailed => Err(ExecError::Commit),
    }
}

/// Maps a batch outcome to the result the executor reports.
pub fn outcome_as_result(o: BatchOutcome) -> (r: Result<(), ExecError>)
    ensures
        r == spec_outcome_as_result(o),
{
    match o {
        BatchOutcome::Committed => Ok(()),
        BatchOutcome::AcquireFailed => Err(ExecError::Acquire),
        BatchOutcome::BeginFailed => Err(ExecError::Begin),
        BatchOutcome::StatementFailed(k) => Err(ExecError::Statement(k)),
        BatchOutcome::RollbackFailed(k) => Err(ExecError::Rollback(k)),
        BatchOutcome::CommitFailed => Err(ExecError::Commit),
    }
}

/// The statements whose effects are visible after a run: the batch's
/// effects become visible exactly when the unit of work committed;
/// otherwise the state before the run is unchanged. A commit failure means
/// the unit of work was not applied; a rollback failure leaves the
/// reported outcome unknown and is modelled as nothing newly visible.
pub open spec fn visible_effects<S>(before: Seq<S>, batch: Seq<S>, o: BatchOutcome) -> Seq<S> {
    if o == BatchOutcome::Committed {
        before + batch
    } else {
        before
    }
}

/// When every statement of a batch succeeds and the commit succeeds, the
/// run commits and all the batch's effects are visible afterwards.
pub proof fn lemma_all_success_commits<S>(
    before: Seq<S>,
    batch: Seq<S>,
    s: Seq<bool>,
    rollback_ok: bool,
)
    requires
        s.len() == batch.len(),
        all_ok(s),
    ensures
        batch_outcome_spec(BeginEvent::Opened, s, true, rollback_ok) == BatchOutcome::Committed,
        visible_effects(before, batch, batch_outcome_spec(BeginEvent::Opened, s, true, rollback_ok))
            == before + batch,
{
}

/// When the statement at position `k` is the first to fail and the
/// rollback succeeds, the run reports a statement failure at exactly `k`
/// and none of the batch's effects are visible afterwards.
pub proof fn lemma_first_failure_rolls_back<S>(
    before: Seq<S>,
    batch: Seq<S>,
    s: Seq<bool>,
    k: int,
    commit_ok: bool,
)
    requires
        s.len() == batch.len(),
        is_first_failure(s, k),
    ensures
        batch_outcome_spec(BeginEvent::Opened, s, commit_ok, true) == BatchOutcome::StatementFailed(
            k as usize,
        ),
        spec_outcome_as_result(batch_outcome_spec(BeginEvent::Opened, s, commit_ok, true)) == Err::<
            (),
            ExecError,
        >(ExecError::Statement(k as usize)),
        visible_effects(before, batch, batch_outcome_spec(BeginEvent::Opened, s, commit_ok, true))
            == before,
{
    lemma_outcome_at_first_failure(s, k, commit_ok, true);
}

} // verus!
