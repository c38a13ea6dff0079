//! What a synchronization engine is built from, and the kinds of jobs that it
//! runs.

use crate::chains::IndexSettings;
use vstd::prelude::*;

verus! {

/// A category of facts that a job keeps current in the cache.
#[derive(Clone, Copy, Debug, PartialEq, Eq)]
pub enum FactCategory {
    /// The messages that the mailbox has dispatched.
    DispatchedMessages,
}

/// The parts of one synchronization engine: the chain it scans, the cache it
/// writes to, the indexer it fetches with, where and how it scans, and the
/// sink of its metrics.
#[derive(Debug)]
pub struct ContractSync<D, I, X> {
    pub chain_name: String,
    pub db: D,
    pub indexer: I,
    pub index_settings: IndexSettings,
    pub metrics: X,
}

impl<D, I, X> ContractSync<D, I, X> {
    /// Puts an engine together from its parts.
    pub fn new(chain_name: String, db: D, indexer: I, index_settings: IndexSettings, metrics: X) -> (sync:
        Self)
        ensures
            sync == (ContractSync { chain_name, db, indexer, index_settings, metrics }),
    {
        ContractSync { chain_name, db, indexer, index_settings, metrics }
    }
}

} // verus!
