//! The values that pass between a mailbox handle and its callers.

use ethers::types::{H256, U256};
use vstd::prelude::*;

verus! {

/// `ethers::types::H256`, a 256-bit identifier: a message id, a contract
/// address, a merkle root. The library carries such values and never looks
/// into them.
#[verifier::external_type_specification]
#[verifier::external_body]
pub struct ExH256(ethers::types::H256);

/// `ethers::types::U256`, a 256-bit unsigned number: an amount of gas or a gas
/// price. The library carries such values and never looks into them.
#[verifier::external_type_specification]
#[verifier::external_body]
pub struct ExU256(ethers::types::U256);

/// A commitment to every message dispatched up to `index`.
#[derive(Clone, Copy, Debug, PartialEq, Eq)]
pub struct Checkpoint {
    /// The merkle root over the dispatched messages.
    pub root: H256,
    /// The index of the last message that the root commits to.
    pub index: u32,
}

/// A message that travels from one chain to another.
#[derive(Debug, PartialEq, Eq)]
pub struct AbacusMessage {
    pub version: u8,
    pub nonce: u32,
    pub origin: u32,
    pub sender: H256,
    pub destination: u32,
    pub recipient: H256,
    pub body: Vec<u8>,
}

/// What a message says.
pub struct AbacusMessageView {
    pub version: u8,
    pub nonce: u32,
    pub origin: u32,
    pub sender: H256,
    pub destination: u32,
    pub recipient: H256,
    pub body: Seq<u8>,
}

impl View for AbacusMessage {
    type V = AbacusMessageView;

    open spec fn view(&self) -> AbacusMessageView {
        AbacusMessageView {
            version: self.version,
            nonce: self.nonce,
            origin: self.origin,
            sender: self.sender,
            destination: self.destination,
            recipient: self.recipient,
            body: self.body@,
        }
    }
}

impl AbacusMessage {
    /// A second message that says the same.
    pub fn duplicate(&self) -> (copy: Self)
        ensures
            copy@ == self@,
    {
        AbacusMessage {
            version: self.version,
            nonce: self.nonce,
            origin: self.origin,
            sender: self.sender,
            destination: self.destination,
            recipient: self.recipient,
            body: self.body.clone(),
        }
    }
}

/// What became of a transaction that was sent to the chain.
#[derive(Clone, Copy, Debug, PartialEq, Eq)]
pub struct TxOutcome {
    pub txid: H256,
    pub executed: bool,
}

/// What a transaction is expected to cost.
#[derive(Clone, Copy, Debug, PartialEq, Eq)]
pub struct TxCostEstimate {
    pub gas_limit: U256,
    pub gas_price: U256,
}

/// A failed exchange with the chain. The caller may try again; the library
/// never does.
#[derive(Clone, Debug, PartialEq, Eq)]
pub enum ChainCommunicationError {
    /// The node refused or failed the remote procedure call.
    Rpc(String),
    /// The node could not be reached.
    Network(String),
    /// The contract rejected the call.
    ContractCall(String),
}

/// A failure that is only described, not classified.
#[derive(Clone, Debug, PartialEq, Eq)]
pub struct Failure {
    pub message: String,
}

} // verus!
