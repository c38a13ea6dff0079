//! What a chain's binding of the mailbox contract offers.
//!
//! Each chain family implements these traits once. What the chain answers to
//! an operation is the chain's business: a handle states it as a relation
//! between itself before the call, the arguments, the answer, and itself
//! after the call. Code that is written against the traits is verified for
//! every such relation.

use crate::types::{
    AbacusMessage, AbacusMessageView, ChainCommunicationError, Checkpoint, Failure, TxCostEstimate,
    TxOutcome,
};
use ethers::types::{H256, U256};
use vstd::prelude::*;

verus! {

/// Something that lives on one chain.
pub trait AbacusChain {
    /// The name of the chain.
    spec fn spec_chain_name(&self) -> Seq<char>;

    /// The domain of the chain.
    spec fn spec_local_domain(&self) -> u32;

    /// The name of the chain.
    fn chain_name(&self) -> (name: &str)
        ensures
            name@ == self.spec_chain_name(),
    ;

    /// The domain of the chain.
    fn local_domain(&self) -> (domain: u32)
        ensures
            domain == self.spec_local_domain(),
    ;
}

/// A contract on a chain.
pub trait AbacusContract: AbacusChain {
    /// The address of the contract.
    spec fn spec_address(&self) -> H256;

    /// The address of the contract.
    fn address(&self) -> (address: H256)
        ensures
            address == self.spec_address(),
    ;
}

/// The mailbox contract of one chain.
///
/// The operations that query the chain or send to it take the handle by
/// `&mut`: the handle after the call is part of what the call did. The others
/// depend on the handle and their arguments alone.
pub trait Mailbox: AbacusContract {
    /// The hash of the chain's domain.
    spec fn spec_local_domain_hash(&self) -> H256;

    /// The call data of the transaction that processes `message` with
    /// `metadata`.
    spec fn spec_process_calldata(&self, message: AbacusMessageView, metadata: Seq<u8>) -> Seq<u8>;

    /// Whether one call of `count` on this handle may answer `reply` and
    /// leave the handle as `after`.
    spec fn count_gives(&self, reply: Result<u32, ChainCommunicationError>, after: &Self) -> bool;

    /// Whether one call of `delivered` with `id` on this handle may answer
    /// `reply` and leave the handle as `after`.
    spec fn delivered_gives(
        &self,
        id: H256,
        reply: Result<bool, ChainCommunicationError>,
        after: &Self,
    ) -> bool;

    /// Whether one call of `latest_checkpoint` with `maybe_lag` on this handle
    /// may answer `reply` and leave the handle as `after`.
    spec fn latest_checkpoint_gives(
        &self,
        maybe_lag: Option<u64>,
        reply: Result<Checkpoint, ChainCommunicationError>,
        after: &Self,
    ) -> bool;

    /// Whether one call of `default_ism` on this handle may answer `reply` and
    /// leave the handle as `after`.
    spec fn default_ism_gives(&self, reply: Result<H256, ChainCommunicationError>, after: &Self) -> bool;

    /// Whether one call of `process` with these arguments on this handle may
    /// answer `reply` and leave the handle as `after`.
    spec fn process_gives(
        &self,
        message: AbacusMessageView,
        metadata: Seq<u8>,
        tx_gas_limit: Option<U256>,
        reply: Result<TxOutcome, ChainCommunicationError>,
        after: &Self,
    ) -> bool;

    /// Whether one call of `process_estimate_costs` with these arguments on
    /// this handle may answer `reply` and leave the handle as `after`.
    spec fn process_estimate_costs_gives(
        &self,
        message: AbacusMessageView,
        metadata: Seq<u8>,
        reply: Result<TxCostEstimate, Failure>,
        after: &Self,
    ) -> bool;

    /// The hash of the chain's domain.
    fn local_domain_hash(&self) -> (hash: H256)
        ensures
            hash == self.spec_local_domain_hash(),
    ;

    /// The number of messages dispatched so far.
    fn count(&mut self) -> (reply: Result<u32, ChainCommunicationError>)
        ensures
            old(self).count_gives(reply, final(self)),
    ;

    /// Whether the message `id` was delivered.
    fn delivered(&mut self, id: H256) -> (reply: Result<bool, ChainCommunicationError>)
        ensures
            old(self).delivered_gives(id, reply, final(self)),
    ;

    /// The latest checkpoint, `maybe_lag` blocks behind the tip where a lag
    /// is given.
    fn latest_checkpoint(&mut self, maybe_lag: Option<u64>) -> (reply: Result<
        Checkpoint,
        ChainCommunicationError,
    >)
        ensures
            old(self).latest_checkpoint_gives(maybe_lag, reply, final(self)),
    ;

    /// The default interchain security module.
    fn default_ism(&mut self) -> (reply: Result<H256, ChainCommunicationError>)
        ensures
            old(self).default_ism_gives(reply, final(self)),
    ;

    /// Sends the transaction that processes `message` with `metadata`.
    fn process(
        &mut self,
        message: &AbacusMessage,
        metadata: &[u8],
        tx_gas_limit: Option<U256>,
    ) -> (reply: Result<TxOutcome, ChainCommunicationError>)
        ensures
            old(self).process_gives(message@, metadata@, tx_gas_limit, reply, final(self)),
    ;

    /// Estimates what processing `message` with `metadata` would cost.
    fn process_estimate_costs(&mut self, message: &AbacusMessage, metadata: &[u8]) -> (reply: Result<
        TxCostEstimate,
        Failure,
    >)
        ensures
            old(self).process_estimate_costs_gives(message@, metadata@, reply, final(self)),
    ;

    /// The call data of the transaction that processes `message` with
    /// `metadata`. It depends on the handle and the arguments alone, and the
    /// handle stays as it is.
    fn process_calldata(&self, message: &AbacusMessage, metadata: &[u8]) -> (calldata: Vec<u8>)
        ensures
            calldata@ == self.spec_process_calldata(message@, metadata@),
    ;
}

} // verus!
