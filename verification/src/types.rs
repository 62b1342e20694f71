//! The calls that a batch holds, their typed arguments, and what comes back
//! for each call.

use crate::context::{Message, Tag};
use crate::text::{debug_quoted, debug_text, decimal, decimal_digits};
use vstd::prelude::*;
use vstd::string::StringExecFns;

verus! {

/// Arguments of the methods that read or remove one entry.
#[derive(Debug, PartialEq, Eq)]
pub struct Key {
    /// The key of the entry.
    pub key: String,
    /// The nonce that guards the call against replay.
    pub nonce: u64,
}

/// Arguments of the methods that write one entry.
#[derive(Debug, PartialEq, Eq)]
pub struct KeyValue {
    /// The key of the entry.
    pub key: String,
    /// The value to store.
    pub value: String,
    /// The nonce that guards the call against replay.
    pub nonce: u64,
}

/// Arguments of the method that withdraws from the consensus layer.
#[derive(Debug, PartialEq, Eq)]
pub struct Withdraw {
    /// The nonce that guards the call against replay.
    pub nonce: u64,
    /// The encoded withdrawal.
    pub withdraw: Vec<u8>,
}

/// Arguments of the method that transfers to a consensus account.
#[derive(Debug, PartialEq, Eq)]
pub struct Transfer {
    /// The nonce that guards the call against replay.
    pub nonce: u64,
    /// The encoded transfer.
    pub transfer: Vec<u8>,
}

/// Arguments of the method that adds to escrow.
#[derive(Debug, PartialEq, Eq)]
pub struct AddEscrow {
    /// The nonce that guards the call against replay.
    pub nonce: u64,
    /// The encoded escrow.
    pub escrow: Vec<u8>,
}

/// Arguments of the method that reclaims from escrow.
#[derive(Debug, PartialEq, Eq)]
pub struct ReclaimEscrow {
    /// The nonce that guards the call against replay.
    pub nonce: u64,
    /// The encoded reclaim.
    pub reclaim_escrow: Vec<u8>,
}

/// Arguments of the method that updates the runtime's descriptor.
#[derive(Debug, PartialEq, Eq)]
pub struct UpdateRuntime {
    /// The nonce that guards the call against replay.
    pub nonce: u64,
    /// The encoded descriptor.
    pub update_runtime: Vec<u8>,
}

/// The shapes that the arguments of a method can have.
#[derive(Clone, Copy, Debug, PartialEq, Eq, Structural)]
pub enum ArgsKind {
    /// No arguments.
    Unit,
    /// A [`Key`].
    Key,
    /// A [`KeyValue`].
    KeyValue,
    /// A [`Withdraw`].
    Withdraw,
    /// A [`Transfer`].
    Transfer,
    /// An [`AddEscrow`].
    AddEscrow,
    /// A [`ReclaimEscrow`].
    ReclaimEscrow,
    /// An [`UpdateRuntime`].
    UpdateRuntime,
}

/// The arguments of a call, decoded into the shape that its method takes.
#[derive(Debug, PartialEq, Eq)]
pub enum CallArgs {
    /// No arguments.
    Unit,
    /// Arguments of a method that reads or removes one entry.
    Key(Key),
    /// Arguments of a method that writes one entry.
    KeyValue(KeyValue),
    /// Arguments of the withdrawal.
    Withdraw(Withdraw),
    /// Arguments of the transfer.
    Transfer(Transfer),
    /// Arguments of adding to escrow.
    AddEscrow(AddEscrow),
    /// Arguments of reclaiming from escrow.
    ReclaimEscrow(ReclaimEscrow),
    /// Arguments of the update of the runtime's descriptor.
    UpdateRuntime(UpdateRuntime),
    /// The arguments could not be decoded into the shape that the method
    /// takes.
    Malformed {
        /// Why decoding failed.
        reason: String,
    },
}

impl CallArgs {
    /// The shape of the arguments, if they were decoded.
    pub open spec fn kind(&self) -> Option<ArgsKind> {
        match self {
            CallArgs::Unit => Some(ArgsKind::Unit),
            CallArgs::Key(_) => Some(ArgsKind::Key),
            CallArgs::KeyValue(_) => Some(ArgsKind::KeyValue),
            CallArgs::Withdraw(_) => Some(ArgsKind::Withdraw),
            CallArgs::Transfer(_) => Some(ArgsKind::Transfer),
            CallArgs::AddEscrow(_) => Some(ArgsKind::AddEscrow),
            CallArgs::ReclaimEscrow(_) => Some(ArgsKind::ReclaimEscrow),
            CallArgs::UpdateRuntime(_) => Some(ArgsKind::UpdateRuntime),
            CallArgs::Malformed { .. } => None,
        }
    }
}

/// One call of a method.
#[derive(Debug, PartialEq, Eq)]
pub struct TxnCall {
    /// The name of the method.
    pub method: String,
    /// The arguments.
    pub args: CallArgs,
}

/// One entry of a batch, as far as it could be decoded.
#[derive(Debug, PartialEq, Eq)]
pub enum BatchEntry {
    /// The entry is a call.
    Call(TxnCall),
    /// The entry could not be decoded as a call.
    Malformed {
        /// Why decoding failed.
        reason: String,
    },
}

/// Why a call gave no output.
#[derive(Debug, PartialEq, Eq)]
pub enum CallError {
    /// Not a failure: the call was only checked, and would have gone through.
    CheckOnlySuccess,
    /// The batch entry could not be decoded as a call.
    MalformedCall {
        /// Why decoding failed.
        reason: String,
    },
    /// No method of that name is registered.
    MethodNotFound {
        /// The name that the call gave.
        method: String,
    },
    /// The arguments have not the shape that the method takes.
    MalformedArguments {
        /// Why decoding failed; empty where they decoded into another shape.
        reason: String,
    },
    /// The nonce was used before.
    DuplicateNonce {
        /// The nonce.
        nonce: u64,
    },
    /// The value is too big to be inserted.
    ValueTooBig,
    /// The stored value is not text.
    InvalidUtf8,
    /// The key manager gave no keys.
    KeyManager {
        /// What the key manager reported.
        reason: String,
    },
    /// The consensus state could not be read.
    ConsensusState {
        /// What the read reported.
        reason: String,
    },
}

/// [`CallError`] as contracts speak of it.
pub enum CallErrorView {
    CheckOnlySuccess,
    MalformedCall { reason: Seq<char> },
    MethodNotFound { method: Seq<char> },
    MalformedArguments { reason: Seq<char> },
    DuplicateNonce { nonce: u64 },
    ValueTooBig,
    InvalidUtf8,
    KeyManager { reason: Seq<char> },
    ConsensusState { reason: Seq<char> },
}

impl DeepView for CallError {
    type V = CallErrorView;

    open spec fn deep_view(&self) -> CallErrorView {
        match self {
            CallError::CheckOnlySuccess => CallErrorView::CheckOnlySuccess,
            CallError::MalformedCall { reason } => CallErrorView::MalformedCall { reason: reason@ },
            CallError::MethodNotFound { method } => CallErrorView::MethodNotFound {
                method: method@,
            },
            CallError::MalformedArguments { reason } => CallErrorView::MalformedArguments {
                reason: reason@,
            },
            CallError::DuplicateNonce { nonce } => CallErrorView::DuplicateNonce { nonce: *nonce },
            CallError::ValueTooBig => CallErrorView::ValueTooBig,
            CallError::InvalidUtf8 => CallErrorView::InvalidUtf8,
            CallError::KeyManager { reason } => CallErrorView::KeyManager { reason: reason@ },
            CallError::ConsensusState { reason } => CallErrorView::ConsensusState {
                reason: reason@,
            },
        }
    }
}

impl CallErrorView {
    /// The text that is reported for the error: what went wrong, then, behind
    /// a colon, the cause where there is one.
    pub open spec fn message(self) -> Seq<char> {
        match self {
            CallErrorView::CheckOnlySuccess => "transaction check successful"@,
            CallErrorView::MalformedCall { reason } => "unable to parse call: "@ + reason,
            CallErrorView::MethodNotFound { method } => "method not found: "@ + debug_quoted(
                method,
            ),
            CallErrorView::MalformedArguments { reason } => "unable to parse call arguments: "@
                + reason,
            CallErrorView::DuplicateNonce { nonce } => "Duplicate nonce: "@ + decimal_digits(
                nonce as nat,
            ),
            CallErrorView::ValueTooBig => "Value too big to be inserted."@,
            CallErrorView::InvalidUtf8 => "invalid utf-8 sequence"@,
            CallErrorView::KeyManager { reason } => reason,
            CallErrorView::ConsensusState { reason } => reason,
        }
    }
}

impl CallError {
    /// The text that is reported for the error.
    pub fn message(&self) -> (text: String)
        ensures
            text@ == self.deep_view().message(),
    {
        match self {
            CallError::CheckOnlySuccess => "transaction check successful".to_owned(),
            CallError::MalformedCall { reason } => "unable to parse call: ".to_owned().concat(
                reason.as_str(),
            ),
            CallError::MethodNotFound { method } => "method not found: ".to_owned().concat(
                debug_text(method.as_str()).as_str(),
            ),
            CallError::MalformedArguments { reason } => "unable to parse call arguments: "
                .to_owned().concat(reason.as_str()),
            CallError::DuplicateNonce { nonce } => "Duplicate nonce: ".to_owned().concat(
                decimal(*nonce).as_str(),
            ),
            CallError::ValueTooBig => "Value too big to be inserted.".to_owned(),
            CallError::InvalidUtf8 => "invalid utf-8 sequence".to_owned(),
            CallError::KeyManager { reason } => reason.clone(),
            CallError::ConsensusState { reason } => reason.clone(),
        }
    }
}

/// What a method gives back.
#[derive(Debug, PartialEq, Eq)]
pub enum Output {
    /// Nothing.
    Unit,
    /// A text, or none.
    Text(Option<String>),
    /// The encoded accounts and delegations of the consensus layer.
    Accounts(Vec<u8>),
}

/// [`Output`] as contracts speak of it.
pub enum OutputView {
    Unit,
    Text(Option<Seq<char>>),
    Accounts(Seq<u8>),
}

impl DeepView for Output {
    type V = OutputView;

    open spec fn deep_view(&self) -> OutputView {
        match self {
            Output::Unit => OutputView::Unit,
            Output::Text(text) => OutputView::Text(
                match text {
                    Some(t) => Some(t@),
                    None => None,
                },
            ),
            Output::Accounts(bytes) => OutputView::Accounts(bytes@),
        }
    }
}

/// What a method gives back, or why it gave nothing, as contracts speak of it.
pub open spec fn result_view(r: Result<Output, CallError>) -> Result<OutputView, CallErrorView> {
    match r {
        Ok(output) => Ok(output.deep_view()),
        Err(error) => Err(error.deep_view()),
    }
}

/// The output of one executed call.
#[derive(Debug, PartialEq, Eq)]
pub enum TxnOutput {
    /// The call went through, with this output.
    Success(Output),
    /// The call failed.
    Error(CallError),
}

impl DeepView for TxnOutput {
    type V = Result<OutputView, CallErrorView>;

    open spec fn deep_view(&self) -> Result<OutputView, CallErrorView> {
        match self {
            TxnOutput::Success(output) => Ok(output.deep_view()),
            TxnOutput::Error(error) => Err(error.deep_view()),
        }
    }
}

/// The result of one executed call: its output and the tags that it emitted.
#[derive(Debug, PartialEq, Eq)]
pub struct ExecuteTxResult {
    /// The output of the call.
    pub output: TxnOutput,
    /// The tags that the call emitted.
    pub tags: Vec<Tag>,
}

impl DeepView for ExecuteTxResult {
    type V = (Result<OutputView, CallErrorView>, Seq<(Seq<u8>, Seq<u8>)>);

    open spec fn deep_view(&self) -> (Result<OutputView, CallErrorView>, Seq<(Seq<u8>, Seq<u8>)>) {
        (self.output.deep_view(), self.tags.deep_view())
    }
}

/// The result of one checked call.
#[derive(Debug, PartialEq, Eq)]
pub struct CheckTxResult {
    /// Zero where the call would go through, one where it would not.
    pub code: u32,
    /// Why the call would not go through, where it would not.
    pub error: Option<CallError>,
}

impl DeepView for CheckTxResult {
    type V = (u32, Option<CallErrorView>);

    open spec fn deep_view(&self) -> (u32, Option<CallErrorView>) {
        (
            self.code,
            match self.error {
                Some(error) => Some(error.deep_view()),
                None => None,
            },
        )
    }
}

/// The result of an executed batch.
#[derive(Debug, PartialEq, Eq)]
pub struct ExecuteBatchResult {
    /// One result for each call, in the order of the calls.
    pub results: Vec<ExecuteTxResult>,
    /// The messages that the calls emitted, in the order emitted.
    pub messages: Vec<Message>,
    /// The tags of the batch as a whole: always empty.
    pub block_tags: Vec<Tag>,
    /// The weight limits for the next batch: always unset.
    pub batch_weight_limits: Option<Vec<(u8, u64)>>,
}

/// Why a batch as a whole gave no results.
#[derive(Debug, PartialEq, Eq)]
pub enum BatchError {
    /// The abort flag was set: the batch stops, and what it had done so far
    /// is given up.
    Aborted,
    /// The ledger and the host's report do not fit together.
    Fatal(crate::ledger::Fatal),
}

} // verus!
