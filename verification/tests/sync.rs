use abacus_base::scripted::MailboxReply;
use abacus_base::{
    CachingMailbox, CancelReply, ContractSync, Directive, FactCategory, IndexSettings, JobStatus,
    ScriptedMailbox, SessionEvent, SyncLaunch, SyncSession,
};
use ethers::types::H256;

fn caching() -> CachingMailbox<ScriptedMailbox, Vec<u32>, String> {
    let handle = ScriptedMailbox::new(
        String::from("alfajores"),
        44787,
        H256::from_low_u64_be(1),
        H256::from_low_u64_be(2),
        vec![MailboxReply::Count(Ok(1))],
    );
    CachingMailbox::new(handle, vec![7, 8], String::from("dispatch indexer"))
}

fn settings() -> IndexSettings {
    IndexSettings { from_block: 1_000, chunk_size: 250 }
}

#[test]
fn sync_scopes_the_engine_to_the_decorator() {
    let wrapped = caching();
    let launch: SyncLaunch<Vec<u32>, String, &str, String> = wrapped.sync(settings(), "metrics");
    assert_eq!(launch.engine.chain_name, "alfajores");
    assert_eq!(launch.engine.db, vec![7, 8]);
    assert_eq!(launch.engine.indexer, "dispatch indexer");
    assert_eq!(launch.engine.index_settings, settings());
    assert_eq!(launch.engine.index_settings.from_block, 1_000);
    assert_eq!(launch.engine.index_settings.chunk_size, 250);
    assert_eq!(launch.engine.metrics, "metrics");
}

#[test]
fn sync_launches_the_indexing_of_dispatched_messages() {
    let wrapped = caching();
    let launch: SyncLaunch<Vec<u32>, String, (), String> = wrapped.sync(settings(), ());
    assert_eq!(launch.jobs, vec![FactCategory::DispatchedMessages]);
    assert_eq!(launch.session.jobs(), 1);
    assert_eq!(launch.session.directive(), Directive::Wait);
    assert_eq!(launch.session.status(0), Some(JobStatus::Running));
    assert_eq!(launch.session.status(1), None);
}

#[test]
fn sync_reaches_neither_chain_nor_cache() {
    let wrapped = caching();
    let _launch: SyncLaunch<Vec<u32>, String, (), String> = wrapped.sync(settings(), ());
    assert!(wrapped.mailbox().calls().is_empty());
    assert_eq!(wrapped.mailbox().remaining(), 1);
    assert_eq!(wrapped.db(), &vec![7, 8]);
}

#[test]
fn sync_session_resolves_to_the_outcome_of_its_job() {
    let wrapped = caching();
    let launch: SyncLaunch<Vec<u32>, String, (), String> = wrapped.sync(settings(), ());
    let mut session = launch.session;
    let event = SessionEvent::JobSettled { job: 0, outcome: Err(String::from("db closed")) };
    assert_eq!(session.step(event), Directive::Resolve);
    assert_eq!(session.into_outcome(), Some(Err(String::from("db closed"))));
}

#[test]
fn sync_again_after_a_resolved_session_starts_clean() {
    let wrapped = caching();
    let first: SyncLaunch<Vec<u32>, String, (), String> = wrapped.sync(settings(), ());
    let mut session = first.session;
    session.step(SessionEvent::JobSettled { job: 0, outcome: Err(String::from("failed")) });
    session.step(SessionEvent::CancelReplied { job: 0, reply: CancelReply::Failed });
    assert!(session.is_resolved());
    let second: SyncLaunch<Vec<u32>, String, (), String> = wrapped.sync(settings(), ());
    assert_eq!(second.jobs, vec![FactCategory::DispatchedMessages]);
    assert_eq!(second.session.directive(), Directive::Wait);
    assert_eq!(second.session.winner(), None);
    assert_eq!(second.session.status(0), Some(JobStatus::Running));
    assert!(!second.session.is_resolved());
    assert_eq!(second.session.into_outcome(), None);
    assert_eq!(second.engine.chain_name, "alfajores");
}

#[test]
fn engine_holds_the_parts_it_was_made_from() {
    let sync = ContractSync::new(String::from("fuji"), 1u8, 2u16, settings(), 3u32);
    assert_eq!(sync.chain_name, "fuji");
    assert_eq!(sync.db, 1);
    assert_eq!(sync.indexer, 2);
    assert_eq!(sync.index_settings, settings());
    assert_eq!(sync.metrics, 3);
}

#[test]
fn session_over_as_many_jobs_as_launched() {
    let session = SyncSession::<String>::launch(5);
    assert_eq!(session.jobs(), 5);
    assert_eq!(session.status(4), Some(JobStatus::Running));
    assert_eq!(session.status(5), None);
}

#[test]
fn prepared_session_is_for_the_chain_given() {
    let launch: SyncLaunch<Vec<u32>, String, u8, String> =
        SyncLaunch::prepare("fuji", &vec![1], &String::from("ix"), settings(), 9);
    assert_eq!(launch.engine.chain_name, "fuji");
    assert_eq!(launch.engine.db, vec![1]);
    assert_eq!(launch.engine.indexer, "ix");
    assert_eq!(launch.engine.index_settings, settings());
    assert_eq!(launch.engine.metrics, 9);
    assert_eq!(launch.jobs, vec![FactCategory::DispatchedMessages]);
    assert_eq!(launch.session.jobs(), 1);
    assert_eq!(launch.session.directive(), Directive::Wait);
}
