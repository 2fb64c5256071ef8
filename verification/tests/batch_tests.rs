use txnpool::batch::outcome_as_result;
use txnpool::batch::run_batch;
use txnpool::batch::run_single;
use txnpool::batch::BatchAction;
use txnpool::batch::BeginEvent;
use txnpool::batch::BatchOutcome;
use txnpool::batch::BatchPhase;
use txnpool::batch::BatchRun;
use txnpool::errors::ExecError;

#[test]
fn all_statements_succeed_commits() {
    let r = run_batch(BeginEvent::Opened, &vec![true, true, true], true, true);
    assert_eq!(r, BatchOutcome::Committed);
    assert_eq!(outcome_as_result(r), Ok(()));
}

#[test]
fn unique_violation_on_second_insert_rolls_back() {
    // A batch of two inserts where the second violates a uniqueness
    // constraint: the error names position 1 and nothing is committed.
    let r = run_batch(BeginEvent::Opened, &vec![true, false], true, true);
    assert_eq!(r, BatchOutcome::StatementFailed(1));
    assert_eq!(outcome_as_result(r), Err(ExecError::Statement(1)));
}

#[test]
fn single_statement_commits() {
    let r = run_single(BeginEvent::Opened, true, true, true);
    assert_eq!(r, BatchOutcome::Committed);
    assert_eq!(outcome_as_result(r), Ok(()));
}

#[test]
fn single_statement_matches_batch_of_one() {
    for &stmt in &[true, false] {
        for &commit in &[true, false] {
            for &rollback in &[true, false] {
                for &begin in &[BeginEvent::Opened, BeginEvent::AcquireTimedOut, BeginEvent::Failed]
                {
                    assert_eq!(
                        run_single(begin, stmt, commit, rollback),
                        run_batch(begin, &vec![stmt], commit, rollback)
                    );
                }
            }
        }
    }
}

#[test]
fn first_failure_wins() {
    let r = run_batch(BeginEvent::Opened, &vec![true, false, false, true], true, true);
    assert_eq!(r, BatchOutcome::StatementFailed(1));
}

#[test]
fn failure_at_first_statement() {
    let r = run_batch(BeginEvent::Opened, &vec![false, true], true, true);
    assert_eq!(r, BatchOutcome::StatementFailed(0));
}

#[test]
fn rollback_failure_supersedes_statement_failure() {
    let r = run_batch(BeginEvent::Opened, &vec![true, false], true, false);
    assert_eq!(r, BatchOutcome::RollbackFailed(1));
    assert_eq!(outcome_as_result(r), Err(ExecError::Rollback(1)));
}

#[test]
fn commit_failure_is_not_success() {
    let r = run_batch(BeginEvent::Opened, &vec![true, true], false, true);
    assert_eq!(r, BatchOutcome::CommitFailed);
    assert_eq!(outcome_as_result(r), Err(ExecError::Commit));
}

#[test]
fn begin_failure_ends_the_run() {
    let r = run_batch(BeginEvent::Failed, &vec![true], true, true);
    assert_eq!(r, BatchOutcome::BeginFailed);
    assert_eq!(outcome_as_result(r), Err(ExecError::Begin));
}

#[test]
fn acquisition_timeout_ends_the_run() {
    let r = run_batch(BeginEvent::AcquireTimedOut, &vec![true], true, true);
    assert_eq!(r, BatchOutcome::AcquireFailed);
    assert_eq!(outcome_as_result(r), Err(ExecError::Acquire));
}

#[test]
fn empty_batch_commits() {
    let r = run_batch(BeginEvent::Opened, &vec![], true, true);
    assert_eq!(r, BatchOutcome::Committed);
}

#[test]
fn machine_walks_a_failing_batch() {
    let mut run = BatchRun::new(2);
    assert_eq!(run.next_action(), BatchAction::Begin);
    run.begin_done(BeginEvent::Opened);
    assert_eq!(run.next_action(), BatchAction::Execute(0));
    run.statement_done(true);
    assert_eq!(run.next_action(), BatchAction::Execute(1));
    run.statement_done(false);
    assert_eq!(run.next_action(), BatchAction::Rollback);
    run.rollback_done(true);
    assert_eq!(run.next_action(), BatchAction::Finished(BatchOutcome::StatementFailed(1)));
    assert_eq!(run.phase, BatchPhase::Done { outcome: BatchOutcome::StatementFailed(1) });
}

#[test]
fn machine_walks_a_committing_batch() {
    let mut run = BatchRun::new(1);
    run.begin_done(BeginEvent::Opened);
    assert_eq!(run.next_action(), BatchAction::Execute(0));
    run.statement_done(true);
    assert_eq!(run.next_action(), BatchAction::Commit);
    run.commit_done(true);
    assert_eq!(run.next_action(), BatchAction::Finished(BatchOutcome::Committed));
}

#[test]
fn exec_error_messages() {
    assert_eq!(ExecError::Acquire.message(), "Timed out acquiring a database connection");
    assert_eq!(ExecError::Begin.message(), "Failed to start database transaction");
    assert_eq!(ExecError::Statement(3).message(), "Failed to execute query in transaction at index");
    assert_eq!(ExecError::Rollback(3).message(), "Failed to rollback transaction");
    assert_eq!(ExecError::Commit.message(), "Failed to commit transaction");
}
