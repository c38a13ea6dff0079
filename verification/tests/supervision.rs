use abacus_base::{CancelReply, Directive, JobStatus, SessionEvent, SyncSession};

fn settled(job: usize, outcome: Result<(), String>) -> SessionEvent<String> {
    SessionEvent::JobSettled { job, outcome }
}

fn replied(job: usize, reply: CancelReply<String>) -> SessionEvent<String> {
    SessionEvent::CancelReplied { job, reply }
}

fn failed(text: &str) -> Result<(), String> {
    Err(String::from(text))
}

#[test]
fn new_session_waits_with_every_job_running() {
    let session = SyncSession::<String>::launch(3);
    assert_eq!(session.jobs(), 3);
    assert_eq!(session.directive(), Directive::Wait);
    assert_eq!(session.winner(), None);
    assert!(!session.is_resolved());
    for job in 0..3 {
        assert_eq!(session.status(job), Some(JobStatus::Running));
    }
    assert_eq!(session.status(3), None);
    assert_eq!(session.into_outcome(), None);
}

#[test]
fn one_job_that_succeeds_resolves_to_success_without_cancellation() {
    let mut session = SyncSession::<String>::launch(1);
    assert_eq!(session.step(settled(0, Ok(()))), Directive::Resolve);
    assert_eq!(session.status(0), Some(JobStatus::Settled));
    assert_eq!(session.winner(), Some(0));
    assert!(session.is_resolved());
    assert_eq!(session.into_outcome(), Some(Ok(())));
}

#[test]
fn one_job_that_fails_resolves_to_its_failure() {
    let mut session = SyncSession::<String>::launch(1);
    assert_eq!(session.step(settled(0, failed("scan ended"))), Directive::Resolve);
    assert_eq!(session.into_outcome(), Some(failed("scan ended")));
}

#[test]
fn failing_job_has_the_running_job_cancelled_before_resolution() {
    let mut session = SyncSession::<String>::launch(2);
    assert_eq!(session.step(settled(0, failed("rpc down"))), Directive::Cancel(1));
    assert!(!session.is_resolved());
    assert_eq!(session.status(0), Some(JobStatus::Settled));
    assert_eq!(session.status(1), Some(JobStatus::Cancelling));
    assert_eq!(session.directive(), Directive::Cancel(1));
    assert_eq!(session.step(replied(1, CancelReply::Acknowledged)), Directive::Resolve);
    assert_eq!(session.status(1), Some(JobStatus::Cancelled));
    assert!(session.is_resolved());
    assert_eq!(session.into_outcome(), Some(failed("rpc down")));
}

#[test]
fn session_is_not_over_while_a_job_is_being_cancelled() {
    let mut session = SyncSession::<String>::launch(2);
    session.step(settled(1, Ok(())));
    assert_eq!(session.directive(), Directive::Cancel(0));
    assert_eq!(session.into_outcome(), None);
}

#[test]
fn late_failure_of_the_cancelled_job_is_never_observed() {
    let mut session = SyncSession::<String>::launch(2);
    assert_eq!(session.step(settled(0, Ok(()))), Directive::Cancel(1));
    assert_eq!(
        session.step(replied(1, CancelReply::Settled(failed("late")))),
        Directive::Resolve
    );
    assert_eq!(session.winner(), Some(0));
    assert_eq!(session.into_outcome(), Some(Ok(())));
}

#[test]
fn second_settling_changes_nothing() {
    let mut session = SyncSession::<String>::launch(2);
    assert_eq!(session.step(settled(0, Ok(()))), Directive::Cancel(1));
    assert_eq!(session.step(settled(1, failed("late"))), Directive::Cancel(1));
    assert_eq!(session.winner(), Some(0));
    assert_eq!(session.status(1), Some(JobStatus::Cancelling));
    assert_eq!(session.step(replied(1, CancelReply::Acknowledged)), Directive::Resolve);
    assert_eq!(session.step(settled(1, failed("later still"))), Directive::Resolve);
    assert_eq!(session.into_outcome(), Some(Ok(())));
}

#[test]
fn failed_cancellation_does_not_fail_the_session() {
    let mut session = SyncSession::<String>::launch(2);
    session.step(settled(1, Ok(())));
    assert_eq!(session.step(replied(0, CancelReply::Failed)), Directive::Resolve);
    assert_eq!(session.status(0), Some(JobStatus::Cancelled));
    assert_eq!(session.into_outcome(), Some(Ok(())));
}

#[test]
fn others_are_cancelled_one_at_a_time_with_the_last_in_the_winners_place() {
    let mut session = SyncSession::<String>::launch(4);
    assert_eq!(session.step(settled(1, failed("boom"))), Directive::Cancel(0));
    assert_eq!(session.status(0), Some(JobStatus::Cancelling));
    assert_eq!(session.status(2), Some(JobStatus::Running));
    assert_eq!(session.status(3), Some(JobStatus::Running));
    assert_eq!(session.step(replied(0, CancelReply::Acknowledged)), Directive::Cancel(3));
    assert_eq!(session.status(0), Some(JobStatus::Cancelled));
    assert_eq!(session.status(3), Some(JobStatus::Cancelling));
    assert_eq!(session.status(2), Some(JobStatus::Running));
    assert_eq!(session.step(replied(3, CancelReply::Failed)), Directive::Cancel(2));
    assert_eq!(session.step(replied(2, CancelReply::Settled(Ok(())))), Directive::Resolve);
    assert_eq!(session.status(1), Some(JobStatus::Settled));
    for job in [0, 2, 3] {
        assert_eq!(session.status(job), Some(JobStatus::Cancelled));
    }
    assert_eq!(session.into_outcome(), Some(failed("boom")));
}

#[test]
fn others_are_cancelled_in_launch_order_when_the_last_job_wins() {
    let mut session = SyncSession::<String>::launch(3);
    assert_eq!(session.step(settled(2, Ok(()))), Directive::Cancel(0));
    assert_eq!(session.step(replied(0, CancelReply::Acknowledged)), Directive::Cancel(1));
    assert_eq!(session.step(replied(1, CancelReply::Acknowledged)), Directive::Resolve);
    assert_eq!(session.into_outcome(), Some(Ok(())));
}

#[test]
fn first_job_winning_has_the_last_job_cancelled_first() {
    let mut session = SyncSession::<String>::launch(3);
    assert_eq!(session.step(settled(0, Ok(()))), Directive::Cancel(2));
    assert_eq!(session.step(replied(2, CancelReply::Acknowledged)), Directive::Cancel(1));
    assert_eq!(session.step(replied(1, CancelReply::Acknowledged)), Directive::Resolve);
}

#[test]
fn reply_from_another_job_does_not_count() {
    let mut session = SyncSession::<String>::launch(3);
    assert_eq!(session.step(settled(1, Ok(()))), Directive::Cancel(0));
    assert_eq!(session.step(replied(2, CancelReply::Acknowledged)), Directive::Cancel(0));
    assert_eq!(session.step(replied(1, CancelReply::Acknowledged)), Directive::Cancel(0));
    assert_eq!(session.step(replied(9, CancelReply::Acknowledged)), Directive::Cancel(0));
    assert_eq!(session.status(2), Some(JobStatus::Running));
    assert!(!session.is_resolved());
}

#[test]
fn reply_before_any_job_settled_does_not_count() {
    let mut session = SyncSession::<String>::launch(2);
    assert_eq!(session.step(replied(0, CancelReply::Acknowledged)), Directive::Wait);
    assert_eq!(session.status(0), Some(JobStatus::Running));
    assert_eq!(session.winner(), None);
}

#[test]
fn settling_of_a_job_that_was_not_launched_does_not_count() {
    let mut session = SyncSession::<String>::launch(2);
    assert_eq!(session.step(settled(2, failed("stray"))), Directive::Wait);
    assert_eq!(session.winner(), None);
    assert_eq!(session.step(settled(1, Ok(()))), Directive::Cancel(0));
    assert_eq!(session.step(replied(0, CancelReply::Acknowledged)), Directive::Resolve);
    assert_eq!(session.into_outcome(), Some(Ok(())));
}

#[test]
fn reply_after_resolution_changes_nothing() {
    let mut session = SyncSession::<String>::launch(2);
    session.step(settled(0, failed("first")));
    session.step(replied(1, CancelReply::Acknowledged));
    assert_eq!(session.step(replied(1, CancelReply::Settled(Ok(())))), Directive::Resolve);
    assert_eq!(session.step(replied(0, CancelReply::Failed)), Directive::Resolve);
    assert_eq!(session.status(0), Some(JobStatus::Settled));
    assert_eq!(session.into_outcome(), Some(failed("first")));
}

#[test]
fn session_after_a_resolved_one_starts_clean() {
    let mut first = SyncSession::<String>::launch(2);
    first.step(settled(0, failed("first run")));
    first.step(replied(1, CancelReply::Acknowledged));
    assert!(first.is_resolved());
    let second = SyncSession::<String>::launch(2);
    assert_eq!(second.directive(), Directive::Wait);
    assert_eq!(second.winner(), None);
    assert_eq!(second.status(0), Some(JobStatus::Running));
    assert_eq!(second.status(1), Some(JobStatus::Running));
    assert_eq!(second.into_outcome(), None);
    assert_eq!(first.into_outcome(), Some(failed("first run")));
}
