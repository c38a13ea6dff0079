//! A mailbox handle that answers from a script.
//!
//! The handle is made with the answers that it will give, in order, and keeps
//! a record of every call that reaches it. It stands in for a chain's binding
//! where no chain is at hand: in dry runs and in tests of code that is written
//! against the mailbox traits.

use crate::traits::{AbacusChain, AbacusContract, Mailbox};
use crate::types::{
    AbacusMessage, AbacusMessageView, ChainCommunicationError, Checkpoint, Failure, TxCostEstimate,
    TxOutcome,
};
use ethers::types::{H256, U256};
use vstd::prelude::*;
use vstd::slice::slice_to_vec;

verus! {

/// An operation of the mailbox that queries the chain or sends to it.
#[derive(Clone, Copy, Debug, PartialEq, Eq, Structural)]
pub enum Operation {
    Count,
    Delivered,
    LatestCheckpoint,
    DefaultIsm,
    Process,
    ProcessEstimateCosts,
}

/// One call that reached the handle, with its arguments.
#[derive(Debug, PartialEq, Eq)]
pub enum MailboxCall {
    Count,
    Delivered { id: H256 },
    LatestCheckpoint { maybe_lag: Option<u64> },
    DefaultIsm,
    Process { message: AbacusMessage, metadata: Vec<u8>, tx_gas_limit: Option<U256> },
    ProcessEstimateCosts { message: AbacusMessage, metadata: Vec<u8> },
}

/// What a recorded call says.
pub enum MailboxCallView {
    Count,
    Delivered { id: H256 },
    LatestCheckpoint { maybe_lag: Option<u64> },
    DefaultIsm,
    Process { message: AbacusMessageView, metadata: Seq<u8>, tx_gas_limit: Option<U256> },
    ProcessEstimateCosts { message: AbacusMessageView, metadata: Seq<u8> },
}

impl View for MailboxCall {
    type V = MailboxCallView;

    open spec fn view(&self) -> MailboxCallView {
        match *self {
            MailboxCall::Count => MailboxCallView::Count,
            MailboxCall::Delivered { id } => MailboxCallView::Delivered { id },
            MailboxCall::LatestCheckpoint { maybe_lag } => MailboxCallView::LatestCheckpoint {
                maybe_lag,
            },
            MailboxCall::DefaultIsm => MailboxCallView::DefaultIsm,
            MailboxCall::Process { message, metadata, tx_gas_limit } => MailboxCallView::Process {
                message: message@,
                metadata: metadata@,
                tx_gas_limit,
            },
            MailboxCall::ProcessEstimateCosts { message, metadata } => {
                MailboxCallView::ProcessEstimateCosts { message: message@, metadata: metadata@ }
            },
        }
    }
}

impl MailboxCallView {
    /// The operation that was called.
    pub open spec fn operation(self) -> Operation {
        match self {
            MailboxCallView::Count => Operation::Count,
            MailboxCallView::Delivered { .. } => Operation::Delivered,
            MailboxCallView::LatestCheckpoint { .. } => Operation::LatestCheckpoint,
            MailboxCallView::DefaultIsm => Operation::DefaultIsm,
            MailboxCallView::Process { .. } => Operation::Process,
            MailboxCallView::ProcessEstimateCosts { .. } => Operation::ProcessEstimateCosts,
        }
    }
}

impl MailboxCall {
    /// The operation that was called.
    pub fn operation(&self) -> (operation: Operation)
        ensures
            operation == self@.operation(),
    {
        match self {
            MailboxCall::Count => Operation::Count,
            MailboxCall::Delivered { .. } => Operation::Delivered,
            MailboxCall::LatestCheckpoint { .. } => Operation::LatestCheckpoint,
            MailboxCall::DefaultIsm => Operation::DefaultIsm,
            MailboxCall::Process { .. } => Operation::Process,
            MailboxCall::ProcessEstimateCosts { .. } => Operation::ProcessEstimateCosts,
        }
    }
}

/// One answer of the script, for one operation.
#[derive(Debug, PartialEq, Eq)]
pub enum MailboxReply {
    Count(Result<u32, ChainCommunicationError>),
    Delivered(Result<bool, ChainCommunicationError>),
    LatestCheckpoint(Result<Checkpoint, ChainCommunicationError>),
    DefaultIsm(Result<H256, ChainCommunicationError>),
    Process(Result<TxOutcome, ChainCommunicationError>),
    ProcessEstimateCosts(Result<TxCostEstimate, Failure>),
}

impl MailboxReply {
    /// The operation that the answer is for.
    pub open spec fn spec_operation(self) -> Operation {
        match self {
            MailboxReply::Count(_) => Operation::Count,
            MailboxReply::Delivered(_) => Operation::Delivered,
            MailboxReply::LatestCheckpoint(_) => Operation::LatestCheckpoint,
            MailboxReply::DefaultIsm(_) => Operation::DefaultIsm,
            MailboxReply::Process(_) => Operation::Process,
            MailboxReply::ProcessEstimateCosts(_) => Operation::ProcessEstimateCosts,
        }
    }

    /// The operation that the answer is for.
    pub fn operation(&self) -> (operation: Operation)
        ensures
            operation == self.spec_operation(),
    {
        match self {
            MailboxReply::Count(_) => Operation::Count,
            MailboxReply::Delivered(_) => Operation::Delivered,
            MailboxReply::LatestCheckpoint(_) => Operation::LatestCheckpoint,
            MailboxReply::DefaultIsm(_) => Operation::DefaultIsm,
            MailboxReply::Process(_) => Operation::Process,
            MailboxReply::ProcessEstimateCosts(_) => Operation::ProcessEstimateCosts,
        }
    }
}

/// What the handle says where its script has no answer for a call.
pub open spec fn unscripted() -> Seq<char> {
    "no scripted answer"@
}

/// Whether `reply` is what an operation that fails with a chain
/// communication error answers where the script has no answer for it.
pub open spec fn is_unscripted<T>(reply: Result<T, ChainCommunicationError>) -> bool {
    reply matches Err(ChainCommunicationError::Rpc(text)) && text@ == unscripted()
}

/// Whether `reply` is what the estimate of costs answers where the script has
/// no answer for it.
pub open spec fn is_unscripted_estimate(reply: Result<TxCostEstimate, Failure>) -> bool {
    reply matches Err(failure) && failure.message@ == unscripted()
}

/// A mailbox handle that answers from a script and records its calls.
#[derive(Debug)]
pub struct ScriptedMailbox {
    chain_name: String,
    local_domain: u32,
    address: H256,
    local_domain_hash: H256,
    script: Vec<MailboxReply>,
    calls: Vec<MailboxCall>,
}

/// What a scripted handle is made of.
pub struct ScriptedMailboxView {
    pub chain_name: Seq<char>,
    pub local_domain: u32,
    pub address: H256,
    pub local_domain_hash: H256,
    /// The answers that are still to be given, the next one first.
    pub script: Seq<MailboxReply>,
    /// The calls that reached the handle, the first one first.
    pub calls: Seq<MailboxCallView>,
}

impl ScriptedMailboxView {
    /// The answer that the script gives to a call of `operation`: its next
    /// answer, where that is an answer for this operation.
    pub open spec fn scripted_for(self, operation: Operation) -> Option<MailboxReply> {
        if self.script.len() > 0 && self.script[0].spec_operation() == operation {
            Some(self.script[0])
        } else {
            None
        }
    }

    /// The handle after `call` reached it: the call is recorded, and the
    /// script has lost its next answer where that was an answer for the
    /// call's operation.
    pub open spec fn after(self, call: MailboxCallView) -> Self {
        ScriptedMailboxView {
            script: if self.scripted_for(call.operation()) is Some {
                self.script.drop_first()
            } else {
                self.script
            },
            calls: self.calls.push(call),
            ..self
        }
    }
}

impl View for ScriptedMailbox {
    type V = ScriptedMailboxView;

    closed spec fn view(&self) -> ScriptedMailboxView {
        ScriptedMailboxView {
            chain_name: self.chain_name@,
            local_domain: self.local_domain,
            address: self.address,
            local_domain_hash: self.local_domain_hash,
            script: self.script@,
            calls: self.calls@.map_values(|call: MailboxCall| call@),
        }
    }
}

impl ScriptedMailbox {
    /// A handle on the chain `chain_name` that will give the answers of
    /// `script` in order and that no call has reached yet.
    pub fn new(
        chain_name: String,
        local_domain: u32,
        address: H256,
        local_domain_hash: H256,
        script: Vec<MailboxReply>,
    ) -> (handle: Self)
        ensures
            handle@ == (ScriptedMailboxView {
                chain_name: chain_name@,
                local_domain,
                address,
                local_domain_hash,
                script: script@,
                calls: Seq::empty(),
            }),
    {
        let handle = ScriptedMailbox {
            chain_name,
            local_domain,
            address,
            local_domain_hash,
            script,
            calls: Vec::new(),
        };
        assert(handle.calls@.map_values(|call: MailboxCall| call@) =~= Seq::empty());
        handle
    }

    /// The calls that reached the handle, the first one first.
    pub fn calls(&self) -> (calls: &Vec<MailboxCall>)
        ensures
            calls@.len() == self@.calls.len(),
            forall|i: int| 0 <= i < calls@.len() ==> (#[trigger] calls@[i])@ == self@.calls[i],
    {
        &self.calls
    }

    /// The number of answers that are still to be given.
    pub fn remaining(&self) -> (remaining: usize)
        ensures
            remaining == self@.script.len(),
    {
        self.script.len()
    }

    /// Records `call` and takes the script's answer to it.
    fn answer(&mut self, call: MailboxCall) -> (reply: Option<MailboxReply>)
        ensures
            final(self)@ == old(self)@.after(call@),
            reply == old(self)@.scripted_for(call@.operation()),
    {
        let operation = call.operation();
        let ghost recorded = self.calls@.map_values(|call: MailboxCall| call@);
        self.calls.push(call);
        assert(self.calls@.map_values(|call: MailboxCall| call@) =~= recorded.push(call@));
        if self.script.len() > 0 && self.script[0].operation() == operation {
            let reply = self.script.remove(0);
            assert(self.script@ =~= old(self).script@.drop_first());
            Some(reply)
        } else {
            None
        }
    }
}

/// The error that says that the script had no answer.
fn unscripted_error() -> (error: ChainCommunicationError)
    ensures
        error matches ChainCommunicationError::Rpc(text) && text@ == unscripted(),
{
    ChainCommunicationError::Rpc("no scripted answer".to_owned())
}

impl AbacusChain for ScriptedMailbox {
    open spec fn spec_chain_name(&self) -> Seq<char> {
        self@.chain_name
    }

    open spec fn spec_local_domain(&self) -> u32 {
        self@.local_domain
    }

    fn chain_name(&self) -> (name: &str) {
        self.chain_name.as_str()
    }

    fn local_domain(&self) -> (domain: u32) {
        self.local_domain
    }
}

impl AbacusContract for ScriptedMailbox {
    open spec fn spec_address(&self) -> H256 {
        self@.address
    }

    fn address(&self) -> (address: H256) {
        self.address
    }
}

impl Mailbox for ScriptedMailbox {
    open spec fn spec_local_domain_hash(&self) -> H256 {
        self@.local_domain_hash
    }

    /// The metadata, then the body of the message.
    open spec fn spec_process_calldata(&self, message: AbacusMessageView, metadata: Seq<u8>) -> Seq<u8> {
        metadata + message.body
    }

    open spec fn count_gives(&self, reply: Result<u32, ChainCommunicationError>, after: &Self) -> bool {
        &&& after@ == self@.after(MailboxCallView::Count)
        &&& match self@.scripted_for(Operation::Count) {
            Some(MailboxReply::Count(scripted)) => reply == scripted,
            _ => is_unscripted(reply),
        }
    }

    open spec fn delivered_gives(
        &self,
        id: H256,
        reply: Result<bool, ChainCommunicationError>,
        after: &Self,
    ) -> bool {
        &&& after@ == self@.after(MailboxCallView::Delivered { id })
        &&& match self@.scripted_for(Operation::Delivered) {
            Some(MailboxReply::Delivered(scripted)) => reply == scripted,
            _ => is_unscripted(reply),
        }
    }

    open spec fn latest_checkpoint_gives(
        &self,
        maybe_lag: Option<u64>,
        reply: Result<Checkpoint, ChainCommunicationError>,
        after: &Self,
    ) -> bool {
        &&& after@ == self@.after(MailboxCallView::LatestCheckpoint { maybe_lag })
        &&& match self@.scripted_for(Operation::LatestCheckpoint) {
            Some(MailboxReply::LatestCheckpoint(scripted)) => reply == scripted,
            _ => is_unscripted(reply),
        }
    }

    open spec fn default_ism_gives(&self, reply: Result<H256, ChainCommunicationError>, after: &Self) -> bool {
        &&& after@ == self@.after(MailboxCallView::DefaultIsm)
        &&& match self@.scripted_for(Operation::DefaultIsm) {
            Some(MailboxReply::DefaultIsm(scripted)) => reply == scripted,
            _ => is_unscripted(reply),
        }
    }

    open spec fn process_gives(
        &self,
        message: AbacusMessageView,
        metadata: Seq<u8>,
        tx_gas_limit: Option<U256>,
        reply: Result<TxOutcome, ChainCommunicationError>,
        after: &Self,
    ) -> bool {
        &&& after@ == self@.after(MailboxCallView::Process { message, metadata, tx_gas_limit })
        &&& match self@.scripted_for(Operation::Process) {
            Some(MailboxReply::Process(scripted)) => reply == scripted,
            _ => is_unscripted(reply),
        }
    }

    open spec fn process_estimate_costs_gives(
        &self,
        message: AbacusMessageView,
        metadata: Seq<u8>,
        reply: Result<TxCostEstimate, Failure>,
        after: &Self,
    ) -> bool {
        &&& after@ == self@.after(MailboxCallView::ProcessEstimateCosts { message, metadata })
        &&& match self@.scripted_for(Operation::ProcessEstimateCosts) {
            Some(MailboxReply::ProcessEstimateCosts(scripted)) => reply == scripted,
            _ => is_unscripted_estimate(reply),
        }
    }

    fn local_domain_hash(&self) -> (hash: H256) {
        self.local_domain_hash
    }

    fn count(&mut self) -> (reply: Result<u32, ChainCommunicationError>) {
        match self.answer(MailboxCall::Count) {
            Some(MailboxReply::Count(scripted)) => scripted,
            _ => Err(unscripted_error()),
        }
    }

    fn delivered(&mut self, id: H256) -> (reply: Result<bool, ChainCommunicationError>) {
        match self.answer(MailboxCall::Delivered { id }) {
            Some(MailboxReply::Delivered(scripted)) => scripted,
            _ => Err(unscripted_error()),
        }
    }

    fn latest_checkpoint(&mut self, maybe_lag: Option<u64>) -> (reply: Result<
        Checkpoint,
        ChainCommunicationError,
    >) {
        match self.answer(MailboxCall::LatestCheckpoint { maybe_lag }) {
            Some(MailboxReply::LatestCheckpoint(scripted)) => scripted,
            _ => Err(unscripted_error()),
        }
    }

    fn default_ism(&mut self) -> (reply: Result<H256, ChainCommunicationError>) {
        match self.answer(MailboxCall::DefaultIsm) {
            Some(MailboxReply::DefaultIsm(scripted)) => scripted,
            _ => Err(unscripted_error()),
        }
    }

    fn process(
        &mut self,
        message: &AbacusMessage,
        metadata: &[u8],
        tx_gas_limit: Option<U256>,
    ) -> (reply: Result<TxOutcome, ChainCommunicationError>) {
        let call = MailboxCall::Process {
            message: message.duplicate(),
            metadata: slice_to_vec(metadata),
            tx_gas_limit,
        };
        match self.answer(call) {
            Some(MailboxReply::Process(scripted)) => scripted,
            _ => Err(unscripted_error()),
        }
    }

    fn process_estimate_costs(&mut self, message: &AbacusMessage, metadata: &[u8]) -> (reply: Result<
        TxCostEstimate,
        Failure,
    >) {
        let call = MailboxCall::ProcessEstimateCosts {
            message: message.duplicate(),
            metadata: slice_to_vec(metadata),
        };
        match self.answer(call) {
            Some(MailboxReply::ProcessEstimateCosts(scripted)) => scripted,
            _ => Err(Failure { message: "no scripted answer".to_owned() }),
        }
    }

    fn process_calldata(&self, message: &AbacusMessage, metadata: &[u8]) -> (calldata: Vec<u8>) {
        let mut calldata = slice_to_vec(metadata);
        let mut body = message.body.clone();
        calldata.append(&mut body);
        calldata
    }
}

} // verus!
