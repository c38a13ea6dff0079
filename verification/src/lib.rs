//! A caching decorator for a chain's mailbox contract, and the supervisor of
//! the background jobs that keep its cache current.

pub mod chains;
pub mod contract_sync;
pub mod mailbox;
pub mod scripted;
pub mod session;
pub mod traits;
pub mod types;

pub use chains::IndexSettings;
pub use contract_sync::{ContractSync, FactCategory};
pub use mailbox::{CachingMailbox, SyncLaunch};
pub use scripted::ScriptedMailbox;
pub use session::{CancelReply, Directive, JobStatus, SessionEvent, SyncSession};
pub use traits::{AbacusChain, AbacusContract, Mailbox};
