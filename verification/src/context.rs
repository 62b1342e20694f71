//! The state that one batch carries from call to call: the round it runs in,
//! whether it only checks, what the previous round resolved, and what the
//! calls have emitted so far.

use crate::bytes::copy_bytes;
use vstd::prelude::*;

verus! {

/// The kinds of message that a call can send to the consensus layer.
#[derive(Clone, Copy, Debug, PartialEq, Eq, Structural)]
pub enum MessageKind {
    /// Withdraw from the consensus layer into the runtime's account.
    Withdraw,
    /// Transfer from the runtime's account to another account.
    Transfer,
    /// Put funds of the runtime's account into escrow.
    AddEscrow,
    /// Reclaim funds from escrow.
    ReclaimEscrow,
    /// Update the runtime's descriptor in the registry.
    UpdateRuntime,
}

/// A message for the consensus layer. The body is carried, never looked into.
#[derive(Debug, PartialEq, Eq)]
pub struct Message {
    /// What the message asks for.
    pub kind: MessageKind,
    /// The version of the message format.
    pub version: u16,
    /// The encoded body of the message.
    pub body: Vec<u8>,
}

impl DeepView for Message {
    type V = (MessageKind, u16, Seq<u8>);

    open spec fn deep_view(&self) -> (MessageKind, u16, Seq<u8>) {
        (self.kind, self.version, self.body@)
    }
}

/// A key/value pair that a call attaches to its result.
#[derive(Debug, PartialEq, Eq)]
pub struct Tag {
    /// The tag's key.
    pub key: Vec<u8>,
    /// The tag's value.
    pub value: Vec<u8>,
}

impl DeepView for Tag {
    type V = (Seq<u8>, Seq<u8>);

    open spec fn deep_view(&self) -> (Seq<u8>, Seq<u8>) {
        (self.key@, self.value@)
    }
}

/// What the host reports of one message of the previous round.
#[derive(Debug, PartialEq, Eq)]
pub struct MessageEvent {
    /// The module that handled the message; empty on success.
    pub module: String,
    /// The result code; zero on success.
    pub code: u32,
    /// The index that the message was emitted under.
    pub index: u32,
}

/// What the host reports of the previous round.
#[derive(Debug, PartialEq, Eq)]
pub struct RoundResults {
    /// One event for each message that was resolved.
    pub messages: Vec<MessageEvent>,
}

impl RoundResults {
    /// The indices of the resolved messages, in the order reported.
    pub open spec fn indices(&self) -> Seq<u32> {
        self.messages@.map_values(|e: MessageEvent| e.index)
    }

    /// Round results that resolve nothing.
    pub fn new() -> (results: RoundResults)
        ensures
            results.indices() == Seq::<u32>::empty(),
    {
        let results = RoundResults { messages: Vec::new() };
        proof {
            assert(results.indices() =~= Seq::<u32>::empty());
        }
        results
    }

    /// Round results that resolve the messages of the given indices, each
    /// with success.
    pub fn resolving(indices: &[u32]) -> (results: RoundResults)
        ensures
            results.indices() == indices@,
            forall|i: int|
                0 <= i < results.messages@.len() ==> {
                    &&& (#[trigger] results.messages@[i]).code == 0
                    &&& results.messages@[i].module@.len() == 0
                },
    {
        let mut messages: Vec<MessageEvent> = Vec::new();
        let mut i: usize = 0;
        while i < indices.len()
            invariant
                i <= indices.len(),
                messages@.len() == i,
                forall|j: int|
                    0 <= j < i ==> {
                        &&& (#[trigger] messages@[j]).index == indices@[j]
                        &&& messages@[j].code == 0
                        &&& messages@[j].module@.len() == 0
                    },
            decreases indices.len() - i,
        {
            messages.push(MessageEvent { module: String::new(), code: 0, index: indices[i] });
            i += 1;
        }
        let results = RoundResults { messages };
        proof {
            assert(results.indices() =~= indices@);
        }
        results
    }
}

/// What the embedding program installs for the methods to read.
#[derive(Debug, PartialEq, Eq)]
pub struct RuntimeContext {
    /// The identifier of this runtime, in its printed form.
    pub test_runtime_id: String,
}

/// The state of one batch.
#[derive(Debug, PartialEq, Eq)]
pub struct TxnContext {
    /// The epoch of the round that the batch belongs to.
    pub epoch: u64,
    /// Whether the batch is only checked, not executed.
    pub check_only: bool,
    /// What the host reports of the previous round.
    pub round_results: RoundResults,
    /// What the embedding program installed, if anything.
    pub runtime: Option<RuntimeContext>,
    /// The tags emitted since they were last taken.
    pub tags: Vec<Tag>,
    /// The messages emitted so far.
    pub messages: Vec<Message>,
}

impl TxnContext {
    /// The state at the start of a batch: nothing installed, nothing emitted.
    pub fn new(epoch: u64, check_only: bool, round_results: RoundResults) -> (ctx: TxnContext)
        ensures
            ctx.epoch == epoch,
            ctx.check_only == check_only,
            ctx.round_results == round_results,
            ctx.runtime is None,
            ctx.tags@.len() == 0,
            ctx.messages@.len() == 0,
    {
        TxnContext {
            epoch,
            check_only,
            round_results,
            runtime: None,
            tags: Vec::new(),
            messages: Vec::new(),
        }
    }

    /// The context with other messages and tags, and all else as it is.
    pub open spec fn with_emitted(self, tags: Vec<Tag>, messages: Vec<Message>) -> TxnContext {
        TxnContext { tags, messages, ..self }
    }

    /// Whether the accumulator can take one more message: indices are 32-bit.
    pub open spec fn can_emit(&self) -> bool {
        self.messages@.len() < u32::MAX
    }

    /// Tells whether the accumulator can take one more message.
    pub fn has_room(&self) -> (r: bool)
        ensures
            r == self.can_emit(),
    {
        self.messages.len() < u32::MAX as usize
    }

    /// Queues a message for the consensus layer and gives the index that it was
    /// emitted under: the number of messages emitted before it.
    pub fn emit_message(&mut self, message: Message) -> (index: u32)
        requires
            old(self).can_emit(),
        ensures
            index == old(self).messages@.len(),
            final(self).messages@ == old(self).messages@.push(message),
            *final(self) == old(self).with_emitted(old(self).tags, final(self).messages),
    {
        let index = self.messages.len() as u32;
        self.messages.push(message);
        index
    }

    /// Attaches a tag to the call that is running.
    pub fn emit_txn_tag(&mut self, key: &[u8], value: &[u8])
        ensures
            final(self).tags.deep_view() == old(self).tags.deep_view().push((key@, value@)),
            *final(self) == old(self).with_emitted(final(self).tags, old(self).messages),
    {
        let ghost before = self.tags.deep_view();
        self.tags.push(Tag { key: copy_bytes(key), value: copy_bytes(value) });
        proof {
            assert(self.tags.deep_view() =~= before.push((key@, value@)));
        }
    }

    /// Takes the tags emitted since they were last taken.
    pub fn take_tags(&mut self) -> (tags: Vec<Tag>)
        ensures
            tags == old(self).tags,
            final(self).tags@.len() == 0,
            *final(self) == old(self).with_emitted(final(self).tags, old(self).messages),
    {
        let mut tags: Vec<Tag> = Vec::new();
        core::mem::swap(&mut self.tags, &mut tags);
        tags
    }

    /// Ends the batch and gives the messages that it emitted, in order.
    pub fn close(self) -> (messages: Vec<Message>)
        ensures
            messages == self.messages,
    {
        self.messages
    }
}

} // verus!
