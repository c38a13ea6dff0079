//! The caching decorator of a mailbox handle.
//!
//! The decorator owns a handle to the chain's mailbox, a handle to the cache,
//! and an indexer. Every operation of the mailbox goes to the wrapped handle
//! as it came and its answer goes back as it came: the cache holds indexed
//! history only, and the decorator itself never writes to it. `sync` prepares
//! the session whose jobs do.

use crate::chains::IndexSettings;
use crate::contract_sync::{ContractSync, FactCategory};
use crate::session::{SessionView, SyncSession};
use crate::traits::{AbacusChain, AbacusContract, Mailbox};
use crate::types::{
    AbacusMessage, AbacusMessageView, ChainCommunicationError, Checkpoint, Failure, TxCostEstimate,
    TxOutcome,
};
use ethers::types::{H256, U256};
use vstd::prelude::*;

verus! {

/// Caching Mailbox type
#[derive(Debug, Clone)]
pub struct CachingMailbox<M, D, I> {
    mailbox: M,
    db: D,
    indexer: I,
}

/// What a decorator is made of.
pub struct CachingMailboxView<M, D, I> {
    pub mailbox: M,
    pub db: D,
    pub indexer: I,
}

impl<M, D, I> View for CachingMailbox<M, D, I> {
    type V = CachingMailboxView<M, D, I>;

    closed spec fn view(&self) -> CachingMailboxView<M, D, I> {
        CachingMailboxView { mailbox: self.mailbox, db: self.db, indexer: self.indexer }
    }
}

/// What `sync` prepares: the engine to build, the jobs to launch with it, in
/// launch order, and the session that supervises them.
#[derive(Debug)]
pub struct SyncLaunch<D, I, X, E> {
    pub engine: ContractSync<D, I, X>,
    pub jobs: Vec<FactCategory>,
    pub session: SyncSession<E>,
}

impl<M, D, I> CachingMailbox<M, D, I> {
    /// Instantiate new CachingMailbox
    pub fn new(mailbox: M, db: D, indexer: I) -> (caching: Self)
        ensures
            caching@ == (CachingMailboxView { mailbox, db, indexer }),
    {
        Self { mailbox, db, indexer }
    }

    /// Return handle on mailbox object
    pub fn mailbox(&self) -> (mailbox: &M)
        ensures
            *mailbox == self@.mailbox,
    {
        &self.mailbox
    }

    /// Return handle on the cache
    pub fn db(&self) -> (db: &D)
        ensures
            *db == self@.db,
    {
        &self.db
    }

    /// Whether `after` has the cache handle and the indexer of this decorator,
    /// untouched.
    pub open spec fn keeps_the_rest(&self, after: &Self) -> bool {
        &&& after@.db == self@.db
        &&& after@.indexer == self@.indexer
    }
}

impl<D: Clone, I: Clone, X, E> SyncLaunch<D, I, X, E> {
    /// Prepares a session for the chain `chain_name`.
    ///
    /// The engine has the chain's name, a clone of the cache handle and a
    /// clone of the indexer; the settings and the metrics go to it as they
    /// came. One job is to be launched, the indexing of dispatched messages,
    /// and the session over it is new.
    pub fn prepare(
        chain_name: &str,
        db: &D,
        indexer: &I,
        index_settings: IndexSettings,
        metrics: X,
    ) -> (launch: Self)
        ensures
            launch.engine.chain_name@ == chain_name@,
            cloned(*db, launch.engine.db),
            cloned(*indexer, launch.engine.indexer),
            launch.engine.index_settings == index_settings,
            launch.engine.metrics == metrics,
            launch.jobs@ == seq![FactCategory::DispatchedMessages],
            launch.session@ == SessionView::<E>::launch(1),
    {
        let engine = ContractSync::new(
            chain_name.to_owned(),
            db.clone(),
            indexer.clone(),
            index_settings,
            metrics,
        );
        let mut jobs: Vec<FactCategory> = Vec::new();
        jobs.push(FactCategory::DispatchedMessages);
        let session = SyncSession::launch(jobs.len());
        SyncLaunch { engine, jobs, session }
    }
}

impl<M: Mailbox, D: Clone, I: Clone> CachingMailbox<M, D, I> {
    /// Prepares a session that syncs the cache with the on-chain event data.
    ///
    /// The engine is scoped to this decorator: it has the name of the wrapped
    /// handle's chain, a clone of the cache handle and a clone of the indexer.
    /// The settings and the metrics go to it as they came. One job is to be
    /// launched, the indexing of dispatched messages, and the session over it
    /// is new: nothing of an earlier session is in it. The decorator itself
    /// stays as it is.
    pub fn sync<X, E>(&self, index_settings: IndexSettings, metrics: X) -> (launch: SyncLaunch<D, I, X, E>)
        ensures
            launch.engine.chain_name@ == self@.mailbox.spec_chain_name(),
            cloned(self@.db, launch.engine.db),
            cloned(self@.indexer, launch.engine.indexer),
            launch.engine.index_settings == index_settings,
            launch.engine.metrics == metrics,
            launch.jobs@ == seq![FactCategory::DispatchedMessages],
            launch.session@ == SessionView::<E>::launch(1),
    {
        SyncLaunch::prepare(
            self.mailbox.chain_name(),
            &self.db,
            &self.indexer,
            index_settings,
            metrics,
        )
    }
}

impl<M: Mailbox, D, I> CachingMailbox<M, D, I> {
    /// The decorator answers every operation that queries the chain or sends
    /// to it exactly as one call of the wrapped handle with the same arguments
    /// does, value or error, and leaves the cache handle and the indexer as
    /// they were.
    pub proof fn lemma_live_operations_are_the_handles(&self, after: &Self)
        ensures
            forall|reply: Result<u32, ChainCommunicationError>| #[trigger]
                self.count_gives(reply, after) <==> self.keeps_the_rest(after)
                    && self@.mailbox.count_gives(reply, &after@.mailbox),
            forall|id: H256, reply: Result<bool, ChainCommunicationError>| #[trigger]
                self.delivered_gives(id, reply, after) <==> self.keeps_the_rest(after)
                    && self@.mailbox.delivered_gives(id, reply, &after@.mailbox),
            forall|maybe_lag: Option<u64>, reply: Result<Checkpoint, ChainCommunicationError>|
             #[trigger]
                self.latest_checkpoint_gives(maybe_lag, reply, after) <==> self.keeps_the_rest(
                    after,
                ) && self@.mailbox.latest_checkpoint_gives(maybe_lag, reply, &after@.mailbox),
            forall|reply: Result<H256, ChainCommunicationError>| #[trigger]
                self.default_ism_gives(reply, after) <==> self.keeps_the_rest(after)
                    && self@.mailbox.default_ism_gives(reply, &after@.mailbox),
            forall|
                message: AbacusMessageView,
                metadata: Seq<u8>,
                tx_gas_limit: Option<U256>,
                reply: Result<TxOutcome, ChainCommunicationError>,
            | #[trigger]
                self.process_gives(message, metadata, tx_gas_limit, reply, after)
                    <==> self.keeps_the_rest(after) && self@.mailbox.process_gives(
                    message,
                    metadata,
                    tx_gas_limit,
                    reply,
                    &after@.mailbox,
                ),
            forall|
                message: AbacusMessageView,
                metadata: Seq<u8>,
                reply: Result<TxCostEstimate, Failure>,
            | #[trigger]
                self.process_estimate_costs_gives(message, metadata, reply, after)
                    <==> self.keeps_the_rest(after) && self@.mailbox.process_estimate_costs_gives(
                    message,
                    metadata,
                    reply,
                    &after@.mailbox,
                ),
    {
    }

    /// The domain hash, the chain's name, the domain and the address of the
    /// decorator are those of the wrapped handle as it is now: the decorator
    /// keeps no copy of them.
    pub proof fn lemma_identity_is_the_handles(&self)
        ensures
            self.spec_local_domain_hash() == self@.mailbox.spec_local_domain_hash(),
            self.spec_chain_name() == self@.mailbox.spec_chain_name(),
            self.spec_local_domain() == self@.mailbox.spec_local_domain(),
            self.spec_address() == self@.mailbox.spec_address(),
    {
    }

    /// The call data depends on the wrapped handle, the message and the
    /// metadata alone: two decorators around the same handle give the same
    /// bytes for the same arguments, whatever their cache and indexer are,
    /// and these are the bytes that the handle gives.
    pub proof fn lemma_process_calldata_is_deterministic(
        &self,
        other: &Self,
        message: AbacusMessageView,
        metadata: Seq<u8>,
    )
        requires
            self@.mailbox == other@.mailbox,
        ensures
            self.spec_process_calldata(message, metadata) == other.spec_process_calldata(
                message,
                metadata,
            ),
            self.spec_process_calldata(message, metadata) == self@.mailbox.spec_process_calldata(
                message,
                metadata,
            ),
    {
    }
}

impl<M: Mailbox, D, I> AbacusChain for CachingMailbox<M, D, I> {
    open spec fn spec_chain_name(&self) -> Seq<char> {
        self@.mailbox.spec_chain_name()
    }

    open spec fn spec_local_domain(&self) -> u32 {
        self@.mailbox.spec_local_domain()
    }

    fn chain_name(&self) -> (name: &str)
        ensures
            name@ == self@.mailbox.spec_chain_name(),
    {
        self.mailbox.chain_name()
    }

    fn local_domain(&self) -> (domain: u32)
        ensures
            domain == self@.mailbox.spec_local_domain(),
    {
        self.mailbox.local_domain()
    }
}

impl<M: Mailbox, D, I> AbacusContract for CachingMailbox<M, D, I> {
    open spec fn spec_address(&self) -> H256 {
        self@.mailbox.spec_address()
    }

    fn address(&self) -> (address: H256)
        ensures
            address == self@.mailbox.spec_address(),
    {
        self.mailbox.address()
    }
}

impl<M: Mailbox, D, I> Mailbox for CachingMailbox<M, D, I> {
    open spec fn spec_local_domain_hash(&self) -> H256 {
        self@.mailbox.spec_local_domain_hash()
    }

    open spec fn spec_process_calldata(&self, message: AbacusMessageView, metadata: Seq<u8>) -> Seq<u8> {
        self@.mailbox.spec_process_calldata(message, metadata)
    }

    open spec fn count_gives(&self, reply: Result<u32, ChainCommunicationError>, after: &Self) -> bool {
        &&& self@.mailbox.count_gives(reply, &after@.mailbox)
        &&& self.keeps_the_rest(after)
    }

    open spec fn delivered_gives(
        &self,
        id: H256,
        reply: Result<bool, ChainCommunicationError>,
        after: &Self,
    ) -> bool {
        &&& self@.mailbox.delivered_gives(id, reply, &after@.mailbox)
        &&& self.keeps_the_rest(after)
    }

    open spec fn latest_checkpoint_gives(
        &self,
        maybe_lag: Option<u64>,
        reply: Result<Checkpoint, ChainCommunicationError>,
        after: &Self,
    ) -> bool {
        &&& self@.mailbox.latest_checkpoint_gives(maybe_lag, reply, &after@.mailbox)
        &&& self.keeps_the_rest(after)
    }

    open spec fn default_ism_gives(&self, reply: Result<H256, ChainCommunicationError>, after: &Self) -> bool {
        &&& self@.mailbox.default_ism_gives(reply, &after@.mailbox)
        &&& self.keeps_the_rest(after)
    }

    open spec fn process_gives(
        &self,
        message: AbacusMessageView,
        metadata: Seq<u8>,
        tx_gas_limit: Option<U256>,
        reply: Result<TxOutcome, ChainCommunicationError>,
        after: &Self,
    ) -> bool {
        &&& self@.mailbox.process_gives(message, metadata, tx_gas_limit, reply, &after@.mailbox)
        &&& self.keeps_the_rest(after)
    }

    open spec fn process_estimate_costs_gives(
        &self,
        message: AbacusMessageView,
        metadata: Seq<u8>,
        reply: Result<TxCostEstimate, Failure>,
        after: &Self,
    ) -> bool {
        &&& self@.mailbox.process_estimate_costs_gives(message, metadata, reply, &after@.mailbox)
        &&& self.keeps_the_rest(after)
    }

    fn local_domain_hash(&self) -> (hash: H256)
        ensures
            hash == self@.mailbox.spec_local_domain_hash(),
    {
        self.mailbox.local_domain_hash()
    }

    fn count(&mut self) -> (reply: Result<u32, ChainCommunicationError>)
        ensures
            old(self)@.mailbox.count_gives(reply, &final(self)@.mailbox),
            old(self).keeps_the_rest(final(self)),
    {
        self.mailbox.count()
    }

    /// Fetch the status of a message
    fn delivered(&mut self, id: H256) -> (reply: Result<bool, ChainCommunicationError>)
        ensures
            old(self)@.mailbox.delivered_gives(id, reply, &final(self)@.mailbox),
            old(self).keeps_the_rest(final(self)),
    {
        self.mailbox.delivered(id)
    }

    fn latest_checkpoint(&mut self, maybe_lag: Option<u64>) -> (reply: Result<
        Checkpoint,
        ChainCommunicationError,
    >)
        ensures
            old(self)@.mailbox.latest_checkpoint_gives(maybe_lag, reply, &final(self)@.mailbox),
            old(self).keeps_the_rest(final(self)),
    {
        self.mailbox.latest_checkpoint(maybe_lag)
    }

    /// Fetch the current default interchain security module value
    fn default_ism(&mut self) -> (reply: Result<H256, ChainCommunicationError>)
        ensures
            old(self)@.mailbox.default_ism_gives(reply, &final(self)@.mailbox),
            old(self).keeps_the_rest(final(self)),
    {
        self.mailbox.default_ism()
    }

    fn process(
        &mut self,
        message: &AbacusMessage,
        metadata: &[u8],
        tx_gas_limit: Option<U256>,
    ) -> (reply: Result<TxOutcome, ChainCommunicationError>)
        ensures
            old(self)@.mailbox.process_gives(
                message@,
                metadata@,
                tx_gas_limit,
                reply,
                &final(self)@.mailbox,
            ),
            old(self).keeps_the_rest(final(self)),
    {
        self.mailbox.process(message, metadata, tx_gas_limit)
    }

    fn process_estimate_costs(&mut self, message: &AbacusMessage, metadata: &[u8]) -> (reply: Result<
        TxCostEstimate,
        Failure,
    >)
        ensures
            old(self)@.mailbox.process_estimate_costs_gives(
                message@,
                metadata@,
                reply,
                &final(self)@.mailbox,
            ),
            old(self).keeps_the_rest(final(self)),
    {
        self.mailbox.process_estimate_costs(message, metadata)
    }

    fn process_calldata(&self, message: &AbacusMessage, metadata: &[u8]) -> (calldata: Vec<u8>)
        ensures
            calldata@ == self@.mailbox.spec_process_calldata(message@, metadata@),
    {
        self.mailbox.process_calldata(message, metadata)
    }
}

} // verus!
