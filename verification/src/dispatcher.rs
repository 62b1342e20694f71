//! The registry of methods and the dispatch of calls and batches.

use crate::abort::AbortFlag;
use crate::context::{MessageKind, RoundResults, RuntimeContext, TxnContext};
use crate::ledger::BlockHandler;
use crate::methods::{
    accounts_effect, applied, consensus_accounts, consensus_add_escrow,
    consensus_reclaim_escrow, consensus_transfer, consensus_withdraw, enc_get, enc_insert,
    enc_remove, encrypted_effect, failed, get, get_effect, get_runtime_id, insert, insert_effect,
    lemma_nothing_emitted, message_effect, remove, remove_effect, runtime_id_effect, took_effect,
    update_runtime, Effect, EncryptedOp, Handled, HandledView, Pending,
};
use crate::store::Store;
use crate::types::{
    result_view, ArgsKind, BatchEntry, BatchError, CallArgs, CallError, CallErrorView,
    CheckTxResult, ExecuteBatchResult, ExecuteTxResult, Output, OutputView, TxnCall, TxnOutput,
};
use std::sync::atomic::AtomicBool;
use std::sync::Arc;
use vstd::prelude::*;

verus! {

/// The methods that can be registered.
#[derive(Clone, Copy, Debug, PartialEq, Eq, Structural)]
pub enum Handler {
    /// Gives the identifier of this runtime.
    GetRuntimeId,
    /// Queries all accounts of the consensus layer.
    ConsensusAccounts,
    /// Withdraws from the consensus layer.
    ConsensusWithdraw,
    /// Transfers to a consensus account.
    ConsensusTransfer,
    /// Adds to escrow.
    ConsensusAddEscrow,
    /// Reclaims from escrow.
    ConsensusReclaimEscrow,
    /// Updates the runtime's descriptor.
    UpdateRuntime,
    /// Inserts a key/value pair.
    Insert,
    /// Retrieves the value of a key.
    Get,
    /// Removes a key.
    Remove,
    /// Inserts a key/value pair, encrypted.
    EncInsert,
    /// Retrieves the value of a key, encrypted.
    EncGet,
    /// Removes a key, encrypted.
    EncRemove,
}

impl Handler {
    /// The shape of the arguments that the method takes.
    pub open spec fn args_kind(self) -> ArgsKind {
        match self {
            Handler::GetRuntimeId | Handler::ConsensusAccounts => ArgsKind::Unit,
            Handler::ConsensusWithdraw => ArgsKind::Withdraw,
            Handler::ConsensusTransfer => ArgsKind::Transfer,
            Handler::ConsensusAddEscrow => ArgsKind::AddEscrow,
            Handler::ConsensusReclaimEscrow => ArgsKind::ReclaimEscrow,
            Handler::UpdateRuntime => ArgsKind::UpdateRuntime,
            Handler::Insert | Handler::EncInsert => ArgsKind::KeyValue,
            Handler::Get | Handler::Remove | Handler::EncGet | Handler::EncRemove => ArgsKind::Key,
        }
    }

    /// The shape of the arguments that the method takes.
    pub fn expects(self) -> (kind: ArgsKind)
        ensures
            kind == self.args_kind(),
    {
        match self {
            Handler::GetRuntimeId | Handler::ConsensusAccounts => ArgsKind::Unit,
            Handler::ConsensusWithdraw => ArgsKind::Withdraw,
            Handler::ConsensusTransfer => ArgsKind::Transfer,
            Handler::ConsensusAddEscrow => ArgsKind::AddEscrow,
            Handler::ConsensusReclaimEscrow => ArgsKind::ReclaimEscrow,
            Handler::UpdateRuntime => ArgsKind::UpdateRuntime,
            Handler::Insert | Handler::EncInsert => ArgsKind::KeyValue,
            Handler::Get | Handler::Remove | Handler::EncGet | Handler::EncRemove => ArgsKind::Key,
        }
    }
}

/// The identifier that the context holds for the methods to read, if any.
pub open spec fn runtime_id(ctx: TxnContext) -> Option<Seq<char>> {
    match ctx.runtime {
        Some(rctx) => Some(rctx.test_runtime_id@),
        None => None,
    }
}

/// What a method does when it is called with the given arguments: the effect
/// of the method where the arguments have the shape that it takes, and a
/// failure that touches nothing where they have not.
pub open spec fn handler_effect(
    handler: Handler,
    args: CallArgs,
    check_only: bool,
    runtime: Option<Seq<char>>,
    emitted: nat,
    store: Map<Seq<u8>, Seq<u8>>,
) -> Effect {
    let mismatch = failed(store, CallErrorView::MalformedArguments { reason: Seq::empty() });
    match args {
        CallArgs::Malformed { reason } => failed(
            store,
            CallErrorView::MalformedArguments { reason: reason@ },
        ),
        CallArgs::Unit => match handler {
            Handler::GetRuntimeId => runtime_id_effect(runtime->0, store),
            Handler::ConsensusAccounts => accounts_effect(check_only, store),
            _ => mismatch,
        },
        CallArgs::Key(a) => match handler {
            Handler::Get => get_effect(a, check_only, store),
            Handler::Remove => remove_effect(a, check_only, store),
            Handler::EncGet => encrypted_effect(
                EncryptedOp::Get,
                a.nonce,
                a.key@,
                None,
                check_only,
                store,
            ),
            Handler::EncRemove => encrypted_effect(
                EncryptedOp::Remove,
                a.nonce,
                a.key@,
                None,
                check_only,
                store,
            ),
            _ => mismatch,
        },
        CallArgs::KeyValue(a) => match handler {
            Handler::Insert => insert_effect(a, check_only, store),
            Handler::EncInsert => encrypted_effect(
                EncryptedOp::Insert,
                a.nonce,
                a.key@,
                Some(a.value@),
                check_only,
                store,
            ),
            _ => mismatch,
        },
        CallArgs::Withdraw(a) => match handler {
            Handler::ConsensusWithdraw => message_effect(
                MessageKind::Withdraw,
                a.nonce,
                a.withdraw@,
                check_only,
                emitted,
                store,
            ),
            _ => mismatch,
        },
        CallArgs::Transfer(a) => match handler {
            Handler::ConsensusTransfer => message_effect(
                MessageKind::Transfer,
                a.nonce,
                a.transfer@,
                check_only,
                emitted,
                store,
            ),
            _ => mismatch,
        },
        CallArgs::AddEscrow(a) => match handler {
            Handler::ConsensusAddEscrow => message_effect(
                MessageKind::AddEscrow,
                a.nonce,
                a.escrow@,
                check_only,
                emitted,
                store,
            ),
            _ => mismatch,
        },
        CallArgs::ReclaimEscrow(a) => match handler {
            Handler::ConsensusReclaimEscrow => message_effect(
                MessageKind::ReclaimEscrow,
                a.nonce,
                a.reclaim_escrow@,
                check_only,
                emitted,
                store,
            ),
            _ => mismatch,
        },
        CallArgs::UpdateRuntime(a) => match handler {
            Handler::UpdateRuntime => message_effect(
                MessageKind::UpdateRuntime,
                a.nonce,
                a.update_runtime@,
                check_only,
                emitted,
                store,
            ),
            _ => mismatch,
        },
    }
}

/// What one entry of a batch does, given the methods that are registered: an
/// entry that is no call, or that names no registered method, fails and
/// touches nothing; any other has the effect of its method.
pub open spec fn entry_effect(
    methods: Map<Seq<char>, Handler>,
    entry: BatchEntry,
    check_only: bool,
    runtime: Option<Seq<char>>,
    emitted: nat,
    store: Map<Seq<u8>, Seq<u8>>,
) -> Effect {
    match entry {
        BatchEntry::Malformed { reason } => failed(
            store,
            CallErrorView::MalformedCall { reason: reason@ },
        ),
        BatchEntry::Call(call) => if methods.contains_key(call.method@) {
            handler_effect(methods[call.method@], call.args, check_only, runtime, emitted, store)
        } else {
            failed(store, CallErrorView::MethodNotFound { method: call.method@ })
        },
    }
}

/// Descriptor of a method.
#[derive(Debug, PartialEq, Eq)]
pub struct MethodDescriptor {
    /// The name that calls give.
    pub name: String,
}

/// A method: its descriptor and what it does.
#[derive(Debug, PartialEq, Eq)]
pub struct Method {
    descriptor: MethodDescriptor,
    handler: Handler,
}

/// Whether the method can be called with the arguments in the context: there
/// is room for the message that it may emit, and where the call reads the
/// runtime's identifier, one is installed.
pub open spec fn can_run(handler: Handler, args: CallArgs, ctx: TxnContext) -> bool {
    &&& ctx.can_emit()
    &&& handler == Handler::GetRuntimeId && args is Unit ==> ctx.runtime is Some
}

impl Method {
    /// The name of the method.
    pub closed spec fn name(&self) -> Seq<char> {
        self.descriptor.name@
    }

    /// What the method does.
    pub closed spec fn handler(&self) -> Handler {
        self.handler
    }

    /// A method of the given name that does what `handler` says.
    pub fn new(method: MethodDescriptor, handler: Handler) -> (m: Method)
        ensures
            m.name() == method.name@,
            m.handler() == handler,
    {
        Method { descriptor: method, handler }
    }

    /// The name of the method.
    pub fn get_name(&self) -> (name: &String)
        ensures
            name@ == self.name(),
    {
        &self.descriptor.name
    }

    /// What the method does.
    pub fn get_handler(&self) -> (handler: Handler)
        ensures
            handler == self.handler(),
    {
        self.handler
    }

    /// Calls the method with the arguments of `call`.
    pub fn dispatch(&self, call: &TxnCall, ctx: &mut TxnContext, store: &mut Store) -> (handled:
        Handled)
        requires
            can_run(self.handler(), call.args, *old(ctx)),
        ensures
            took_effect(
                *old(ctx),
                *final(ctx),
                final(store)@,
                handled.deep_view(),
                handler_effect(
                    self.handler(),
                    call.args,
                    old(ctx).check_only,
                    runtime_id(*old(ctx)),
                    old(ctx).messages@.len(),
                    old(store)@,
                ),
            ),
    {
        proof {
            lemma_nothing_emitted(*ctx);
        }
        match (&call.args, self.handler) {
            (CallArgs::Malformed { reason }, _) => Handled::Done(
                Err(CallError::MalformedArguments { reason: reason.clone() }),
            ),
            (CallArgs::Unit, Handler::GetRuntimeId) => Handled::Done(get_runtime_id(ctx)),
            (CallArgs::Unit, Handler::ConsensusAccounts) => consensus_accounts(ctx),
            (CallArgs::Key(a), Handler::Get) => Handled::Done(get(a, ctx, store)),
            (CallArgs::Key(a), Handler::Remove) => Handled::Done(remove(a, ctx, store)),
            (CallArgs::Key(a), Handler::EncGet) => enc_get(a, ctx, store),
            (CallArgs::Key(a), Handler::EncRemove) => enc_remove(a, ctx, store),
            (CallArgs::KeyValue(a), Handler::Insert) => Handled::Done(insert(a, ctx, store)),
            (CallArgs::KeyValue(a), Handler::EncInsert) => enc_insert(a, ctx, store),
            (CallArgs::Withdraw(a), Handler::ConsensusWithdraw) => Handled::Done(
                consensus_withdraw(a, ctx, store),
            ),
            (CallArgs::Transfer(a), Handler::ConsensusTransfer) => Handled::Done(
                consensus_transfer(a, ctx, store),
            ),
            (CallArgs::AddEscrow(a), Handler::ConsensusAddEscrow) => Handled::Done(
                consensus_add_escrow(a, ctx, store),
            ),
            (CallArgs::ReclaimEscrow(a), Handler::ConsensusReclaimEscrow) => Handled::Done(
                consensus_reclaim_escrow(a, ctx, store),
            ),
            (CallArgs::UpdateRuntime(a), Handler::UpdateRuntime) => Handled::Done(
                update_runtime(a, ctx, store),
            ),
            _ => Handled::Done(Err(CallError::MalformedArguments { reason: String::new() })),
        }
    }
}

/// The methods that a list of registrations leaves registered: under each
/// name, what was registered last.
pub closed spec fn registry(methods: Seq<Method>) -> Map<Seq<char>, Handler>
    decreases methods.len(),
{
    if methods.len() == 0 {
        Map::empty()
    } else {
        registry(methods.drop_last()).insert(methods.last().name(), methods.last().handler())
    }
}

} // verus!

verus! {

/// Installs in the context of every batch what the methods are to read.
#[derive(Debug, PartialEq, Eq)]
pub struct ContextInitializer {
    /// What to install.
    pub runtime: RuntimeContext,
}

impl ContextInitializer {
    /// Installs the runtime context in `ctx`.
    pub fn init(&self, ctx: &mut TxnContext)
        ensures
            runtime_id(*final(ctx)) == Some(self.runtime.test_runtime_id@),
            final(ctx).epoch == old(ctx).epoch,
            final(ctx).check_only == old(ctx).check_only,
            final(ctx).round_results == old(ctx).round_results,
            final(ctx).tags == old(ctx).tags,
            final(ctx).messages == old(ctx).messages,
    {
        ctx.runtime = Some(RuntimeContext { test_runtime_id: self.runtime.test_runtime_id.clone() });
    }
}

/// The wish of the embedding program to be told of every storage root that
/// was committed.
#[derive(Clone, Copy, Debug)]
pub struct Finalizer;

/// What a checked call reports: code zero and no error where it is done
/// without error, or with the signal that the check went through, or where it
/// has passed its checks and waits; code one and the error where it failed.
pub open spec fn check_view(handled: HandledView) -> (u32, Option<CallErrorView>) {
    match handled {
        HandledView::Done(Ok(_)) => (0u32, None),
        HandledView::Done(Err(CallErrorView::CheckOnlySuccess)) => (0u32, None),
        HandledView::Done(Err(error)) => (1u32, Some(error)),
        HandledView::Waiting(_) => (0u32, None),
    }
}

/// Whether the entry reaches the method that reads the runtime's identifier:
/// it calls a name under which that method is registered, with the arguments
/// that the method takes.
pub open spec fn reads_identifier(methods: Map<Seq<char>, Handler>, entry: BatchEntry) -> bool {
    &&& entry matches BatchEntry::Call(call)
    &&& methods.contains_key(call.method@)
    &&& methods[call.method@] == Handler::GetRuntimeId
    &&& call.args is Unit
}

/// How far an executed call has come.
#[derive(Debug, PartialEq, Eq)]
pub enum ExecuteStep {
    /// The call is done, with this result.
    Done(ExecuteTxResult),
    /// The call has passed its checks and waits for outside work.
    Waiting(Pending),
}

/// The result of an executed call, from what the call gave and the tags that
/// it left in the context.
pub fn complete_execute(result: Result<Output, CallError>, ctx: &mut TxnContext) -> (r:
    ExecuteTxResult)
    ensures
        r.output.deep_view() == result_view(result),
        r.tags == old(ctx).tags,
        final(ctx).tags@.len() == 0,
        *final(ctx) == old(ctx).with_emitted(final(ctx).tags, old(ctx).messages),
{
    let rsp = match result {
        Ok(response) => TxnOutput::Success(response),
        Err(error) => TxnOutput::Error(error),
    };
    ExecuteTxResult { output: rsp, tags: ctx.take_tags() }
}

/// In a batch that only checks, no entry touches the store, emits a message
/// or waits.
pub proof fn lemma_check_only_effect(
    methods: Map<Seq<char>, Handler>,
    entry: BatchEntry,
    runtime: Option<Seq<char>>,
    emitted: nat,
    store: Map<Seq<u8>, Seq<u8>>,
)
    ensures
        entry_effect(methods, entry, true, runtime, emitted, store).store == store,
        entry_effect(methods, entry, true, runtime, emitted, store).messages.len() == 0,
        entry_effect(methods, entry, true, runtime, emitted, store).handled is Done,
        entry_effect(methods, entry, true, runtime, emitted, store) == entry_effect(
            methods,
            entry,
            true,
            runtime,
            0,
            store,
        ),
{
}

/// The dispatcher of a runtime: the registered methods, what runs at the ends
/// of a batch, and the flag that stops a batch.
pub struct MethodDispatcher {
    methods: Vec<Method>,
    batch_handler: Option<BlockHandler>,
    ctx_initializer: Option<ContextInitializer>,
    finalizer: Option<Finalizer>,
    abort_batch: AbortFlag,
}

/// An executing batch between two calls, or waiting for the outside work of
/// one call, or stopped.
#[derive(Debug, PartialEq, Eq)]
pub struct Execution {
    /// The context of the batch.
    pub ctx: TxnContext,
    /// The results of the calls that are done, in the order of the calls.
    pub results: Vec<ExecuteTxResult>,
    /// Whether the last call waits for outside work.
    pub waiting: bool,
    /// Whether the batch was asked to stop.
    pub aborted: bool,
}

impl Execution {
    /// The batch can take its next call.
    pub open spec fn ready(&self) -> bool {
        &&& !self.waiting
        &&& !self.aborted
        &&& !self.ctx.check_only
        &&& self.ctx.tags@.len() == 0
    }

    /// Tells whether the batch can take its next call and has room for the
    /// message that the call may emit.
    pub fn can_continue(&self) -> (r: bool)
        ensures
            r == (self.ready() && self.ctx.can_emit()),
    {
        !self.waiting && !self.aborted && !self.ctx.check_only && self.ctx.tags.len() == 0
            && self.ctx.has_room()
    }
}

/// What taking the next call made of an executing batch.
#[derive(Debug, PartialEq, Eq)]
pub enum Step {
    /// The call is done and its result is recorded.
    Recorded,
    /// The call waits for outside work; its result is to be handed in.
    Waiting(Pending),
    /// The batch was asked to stop. The call was not looked at.
    Aborted,
}

impl MethodDispatcher {
    /// The registered methods, by name.
    pub closed spec fn methods(&self) -> Map<Seq<char>, Handler> {
        registry(self.methods@)
    }

    /// Whether a batch handler is configured.
    pub closed spec fn has_batch_handler(&self) -> bool {
        self.batch_handler is Some
    }

    /// The identifier that the context initializer installs, if one is
    /// configured.
    pub closed spec fn runtime(&self) -> Option<Seq<char>> {
        match self.ctx_initializer {
            Some(init) => Some(init.runtime.test_runtime_id@),
            None => None,
        }
    }

    /// Whether a finalizer is configured.
    pub closed spec fn has_finalizer(&self) -> bool {
        self.finalizer is Some
    }

    /// The abort flag that is configured, if one is.
    pub closed spec fn abort_flag(&self) -> Option<Arc<AtomicBool>> {
        self.abort_batch.flag()
    }

    /// Whether an abort flag is configured.
    pub open spec fn can_abort(&self) -> bool {
        self.abort_flag() is Some
    }

    /// Whether the dispatcher can run the entry in `ctx`: there is room for
    /// the message that the entry may emit, and where the entry reads the
    /// runtime's identifier, one is installed.
    pub open spec fn can_dispatch(&self, entry: BatchEntry, ctx: TxnContext) -> bool {
        &&& ctx.can_emit()
        &&& reads_identifier(self.methods(), entry) ==> ctx.runtime is Some
    }

    /// A dispatcher with no method and nothing configured.
    pub fn new() -> (d: MethodDispatcher)
        ensures
            d.methods() == Map::<Seq<char>, Handler>::empty(),
            !d.has_batch_handler(),
            d.runtime() is None,
            !d.has_finalizer(),
            d.abort_flag() is None,
    {
        MethodDispatcher {
            methods: Vec::new(),
            batch_handler: None,
            ctx_initializer: None,
            finalizer: None,
            abort_batch: AbortFlag::none(),
        }
    }

    /// Registers a method. A method registered before under the same name is
    /// replaced.
    pub fn add_method(&mut self, method: Method)
        ensures
            final(self).methods() == old(self).methods().insert(method.name(), method.handler()),
            final(self).has_batch_handler() == old(self).has_batch_handler(),
            final(self).runtime() == old(self).runtime(),
            final(self).has_finalizer() == old(self).has_finalizer(),
            final(self).abort_flag() == old(self).abort_flag(),
    {
        let ghost before = self.methods@;
        self.methods.push(method);
        proof {
            assert(self.methods@.drop_last() =~= before);
        }
    }

    /// Configures what runs at the ends of every batch.
    pub fn set_batch_handler(&mut self, handler: BlockHandler)
        ensures
            final(self).has_batch_handler(),
            final(self).methods() == old(self).methods(),
            final(self).runtime() == old(self).runtime(),
            final(self).has_finalizer() == old(self).has_finalizer(),
            final(self).abort_flag() == old(self).abort_flag(),
    {
        self.batch_handler = Some(handler);
    }

    /// Configures what is installed in the context of every batch.
    pub fn set_context_initializer(&mut self, initializer: ContextInitializer)
        ensures
            final(self).runtime() == Some(initializer.runtime.test_runtime_id@),
            final(self).methods() == old(self).methods(),
            final(self).has_batch_handler() == old(self).has_batch_handler(),
            final(self).has_finalizer() == old(self).has_finalizer(),
            final(self).abort_flag() == old(self).abort_flag(),
    {
        self.ctx_initializer = Some(initializer);
    }

    /// Configures that the embedding program is told of committed roots.
    pub fn set_finalizer(&mut self, finalizer: Finalizer)
        ensures
            final(self).has_finalizer(),
            final(self).methods() == old(self).methods(),
            final(self).has_batch_handler() == old(self).has_batch_handler(),
            final(self).runtime() == old(self).runtime(),
            final(self).abort_flag() == old(self).abort_flag(),
    {
        self.finalizer = Some(finalizer);
    }

    /// Configures the flag that stops a batch.
    pub fn set_abort_batch_flag(&mut self, abort_batch: AbortFlag)
        ensures
            final(self).abort_flag() == abort_batch.flag(),
            final(self).methods() == old(self).methods(),
            final(self).has_batch_handler() == old(self).has_batch_handler(),
            final(self).runtime() == old(self).runtime(),
            final(self).has_finalizer() == old(self).has_finalizer(),
    {
        self.abort_batch = abort_batch;
    }

    /// The position of the method that is registered under `name`, if one is.
    fn find(&self, name: &String) -> (found: Option<usize>)
        ensures
            match found {
                Some(i) => {
                    &&& i < self.methods@.len()
                    &&& self.methods().contains_key(name@)
                    &&& self.methods()[name@] == self.methods@[i as int].handler()
                },
                None => !self.methods().contains_key(name@),
            },
    {
        let mut i: usize = self.methods.len();
        proof {
            assert(self.methods@.take(i as int) =~= self.methods@);
        }
        while i > 0
            invariant
                i <= self.methods@.len(),
                registry(self.methods@).get(name@) == registry(self.methods@.take(i as int)).get(
                    name@,
                ),
            decreases i,
        {
            i -= 1;
            proof {
                let upto = self.methods@.take(i as int + 1);
                assert(upto.drop_last() =~= self.methods@.take(i as int));
                assert(upto.last() == self.methods@[i as int]);
            }
            if *self.methods[i].get_name() == *name {
                return Some(i);
            }
        }
        None
    }

    /// Tells whether the entry reaches the method that reads the runtime's
    /// identifier.
    pub fn needs_runtime_id(&self, entry: &BatchEntry) -> (r: bool)
        ensures
            r == reads_identifier(self.methods(), *entry),
    {
        let call = match entry {
            BatchEntry::Call(call) => call,
            BatchEntry::Malformed { .. } => {
                return false;
            },
        };
        match &call.args {
            CallArgs::Unit => {},
            _ => {
                return false;
            },
        }
        match self.find(&call.method) {
            Some(i) => match self.methods[i].get_handler() {
                Handler::GetRuntimeId => true,
                _ => false,
            },
            None => false,
        }
    }

    /// Tells whether a context initializer is configured, which installs the
    /// runtime's identifier.
    pub fn installs_runtime_id(&self) -> (r: bool)
        ensures
            r == (self.runtime() is Some),
    {
        self.ctx_initializer.is_some()
    }

    /// The shape of the arguments that the method registered under `name`
    /// takes, if one is registered.
    pub fn args_kind(&self, name: &String) -> (kind: Option<ArgsKind>)
        ensures
            kind == match self.methods().get(name@) {
                Some(handler) => Some(handler.args_kind()),
                None => None,
            },
    {
        match self.find(name) {
            Some(i) => Some(self.methods[i].get_handler().expects()),
            None => None,
        }
    }

    /// Runs one entry of a batch as far as it goes without outside work.
    pub fn dispatch_fallible(&self, entry: &BatchEntry, ctx: &mut TxnContext, store: &mut Store) -> (handled:
        Handled)
        requires
            self.can_dispatch(*entry, *old(ctx)),
        ensures
            took_effect(
                *old(ctx),
                *final(ctx),
                final(store)@,
                handled.deep_view(),
                entry_effect(
                    self.methods(),
                    *entry,
                    old(ctx).check_only,
                    runtime_id(*old(ctx)),
                    old(ctx).messages@.len(),
                    old(store)@,
                ),
            ),
    {
        proof {
            lemma_nothing_emitted(*ctx);
        }
        let call = match entry {
            BatchEntry::Call(call) => call,
            BatchEntry::Malformed { reason } => {
                return Handled::Done(Err(CallError::MalformedCall { reason: reason.clone() }));
            },
        };
        match self.find(&call.method) {
            Some(i) => self.methods[i].dispatch(call, ctx, store),
            None => Handled::Done(Err(CallError::MethodNotFound { method: call.method.clone() })),
        }
    }

    /// Checks one entry of a batch: the entry is run, and what became of it is
    /// reported as the result of a check.
    pub fn dispatch_check(&self, entry: &BatchEntry, ctx: &mut TxnContext, store: &mut Store) -> (r:
        CheckTxResult)
        requires
            self.can_dispatch(*entry, *old(ctx)),
        ensures
            ({
                let effect = entry_effect(
                    self.methods(),
                    *entry,
                    old(ctx).check_only,
                    runtime_id(*old(ctx)),
                    old(ctx).messages@.len(),
                    old(store)@,
                );
                &&& applied(*old(ctx), *final(ctx), final(store)@, effect)
                &&& r.deep_view() == check_view(effect.handled)
            }),
    {
        match self.dispatch_fallible(entry, ctx, store) {
            Handled::Done(Ok(_response)) => CheckTxResult { code: 0, error: None },
            Handled::Done(Err(error)) => match error {
                CallError::CheckOnlySuccess => CheckTxResult { code: 0, error: None },
                error => CheckTxResult { code: 1, error: Some(error) },
            },
            Handled::Waiting(_) => CheckTxResult { code: 0, error: None },
        }
    }

    /// Executes one entry of a batch as far as it goes without outside work.
    /// Where the call is done, the tags that it emitted go into its result.
    pub fn dispatch_execute(&self, entry: &BatchEntry, ctx: &mut TxnContext, store: &mut Store) -> (step:
        ExecuteStep)
        requires
            self.can_dispatch(*entry, *old(ctx)),
        ensures
            ({
                let effect = entry_effect(
                    self.methods(),
                    *entry,
                    old(ctx).check_only,
                    runtime_id(*old(ctx)),
                    old(ctx).messages@.len(),
                    old(store)@,
                );
                &&& final(store)@ == effect.store
                &&& final(ctx).messages.deep_view() == old(ctx).messages.deep_view()
                    + effect.messages
                &&& *final(ctx) == old(ctx).with_emitted(final(ctx).tags, final(ctx).messages)
                &&& match step {
                    ExecuteStep::Done(r) => {
                        &&& effect.handled == HandledView::Done(r.output.deep_view())
                        &&& r.tags.deep_view() == old(ctx).tags.deep_view() + effect.tags
                        &&& final(ctx).tags@.len() == 0
                    },
                    ExecuteStep::Waiting(pending) => {
                        &&& effect.handled == HandledView::Waiting(pending.deep_view())
                        &&& final(ctx).tags.deep_view() == old(ctx).tags.deep_view() + effect.tags
                    },
                }
            }),
    {
        match self.dispatch_fallible(entry, ctx, store) {
            Handled::Done(result) => ExecuteStep::Done(complete_execute(result, ctx)),
            Handled::Waiting(pending) => ExecuteStep::Waiting(pending),
        }
    }

    /// The context of a new batch, with what the initializer installs.
    fn start_context(&self, epoch: u64, check_only: bool, round_results: RoundResults) -> (ctx:
        TxnContext)
        ensures
            ctx.epoch == epoch,
            ctx.check_only == check_only,
            ctx.round_results == round_results,
            runtime_id(ctx) == self.runtime(),
            ctx.tags@.len() == 0,
            ctx.messages@.len() == 0,
    {
        let mut ctx = TxnContext::new(epoch, check_only, round_results);
        match &self.ctx_initializer {
            Some(ctx_init) => {
                ctx_init.init(&mut ctx);
            },
            None => {},
        }
        ctx
    }

    /// Checks one entry of a batch, given what the poll of the abort flag
    /// gave. Where the flag was found set the entry is not looked at and
    /// nothing changes. Otherwise the entry is checked.
    pub fn check_polled(
        &self,
        set: bool,
        entry: &BatchEntry,
        ctx: &mut TxnContext,
        store: &mut Store,
    ) -> (r: Option<CheckTxResult>)
        requires
            !set ==> self.can_dispatch(*entry, *old(ctx)),
        ensures
            set <==> r is None,
            set ==> *final(ctx) == *old(ctx) && final(store)@ == old(store)@,
            !set ==> ({
                let effect = entry_effect(
                    self.methods(),
                    *entry,
                    old(ctx).check_only,
                    runtime_id(*old(ctx)),
                    old(ctx).messages@.len(),
                    old(store)@,
                );
                &&& applied(*old(ctx), *final(ctx), final(store)@, effect)
                &&& r matches Some(result) && result.deep_view() == check_view(effect.handled)
            }),
    {
        if set {
            return None;
        }
        Some(self.dispatch_check(entry, ctx, store))
    }

    /// Checks a batch: every entry is checked against the store as it stands,
    /// and nothing is written. The results come in the order of the entries.
    /// The batch fails as a whole where the abort flag is found set before an
    /// entry.
    pub fn check_batch(
        &self,
        epoch: u64,
        round_results: RoundResults,
        batch: &Vec<BatchEntry>,
        store: &mut Store,
    ) -> (r: Result<Vec<CheckTxResult>, BatchError>)
        requires
            forall|i: int|
                0 <= i < batch@.len() && reads_identifier(self.methods(), #[trigger] batch@[i])
                    ==> self.runtime() is Some,
        ensures
            final(store)@ == old(store)@,
            !self.can_abort() ==> r is Ok,
            batch@.len() == 0 ==> r is Ok,
            match r {
                Ok(results) => {
                    &&& results@.len() == batch@.len()
                    &&& forall|i: int|
                        0 <= i < batch@.len() ==> (#[trigger] results@[i]).deep_view()
                            == check_view(
                            entry_effect(
                                self.methods(),
                                batch@[i],
                                true,
                                self.runtime(),
                                0,
                                old(store)@,
                            ).handled,
                        )
                },
                Err(e) => e is Aborted,
            },
    {
        let mut ctx = self.start_context(epoch, true, round_results);
        // Invoke start batch handler.
        match &self.batch_handler {
            Some(handler) => match handler.start_batch(&ctx, store) {
                Ok(()) => {},
                Err(fatal) => {
                    return Err(BatchError::Fatal(fatal));
                },
            },
            None => {},
        }
        // Process batch.
        let mut results: Vec<CheckTxResult> = Vec::new();
        let mut i: usize = 0;
        while i < batch.len()
            invariant
                i <= batch@.len(),
                results@.len() == i,
                store@ == old(store)@,
                ctx.check_only,
                ctx.tags@.len() == 0,
                ctx.messages@.len() == 0,
                runtime_id(ctx) == self.runtime(),
                forall|j: int|
                    0 <= j < batch@.len() && reads_identifier(self.methods(), #[trigger] batch@[j])
                        ==> self.runtime() is Some,
                forall|j: int|
                    0 <= j < i ==> (#[trigger] results@[j]).deep_view() == check_view(
                        entry_effect(
                            self.methods(),
                            batch@[j],
                            true,
                            self.runtime(),
                            0,
                            old(store)@,
                        ).handled,
                    ),
            decreases batch@.len() - i,
        {
            proof {
                lemma_check_only_effect(
                    self.methods(),
                    batch@[i as int],
                    self.runtime(),
                    0,
                    store@,
                );
            }
            let ghost before = ctx;
            let set = self.abort_batch.is_set();
            let result = match self.check_polled(set, &batch[i], &mut ctx, store) {
                Some(result) => result,
                None => {
                    return Err(BatchError::Aborted);
                },
            };
            let _ = ctx.take_tags();
            proof {
                assert(ctx.messages.deep_view().len() == before.messages.deep_view().len());
            }
            results.push(result);
            i += 1;
        }
        Ok(results)
    }

    /// Starts the execution of a batch: the context is made, and the ledger is
    /// reconciled with what the host reports of the previous round.
    pub fn begin_execute(&self, epoch: u64, round_results: RoundResults, store: &mut Store) -> (r:
        Result<Execution, BatchError>)
        ensures
            match r {
                Ok(run) => {
                    &&& run.ready()
                    &&& run.results@.len() == 0
                    &&& run.ctx.messages@.len() == 0
                    &&& run.ctx.epoch == epoch
                    &&& run.ctx.round_results == round_results
                    &&& runtime_id(run.ctx) == self.runtime()
                    &&& if self.has_batch_handler() {
                        crate::ledger::batch_started(
                            false,
                            old(store)@,
                            round_results.indices(),
                            epoch,
                            Ok(()),
                            final(store)@,
                        )
                    } else {
                        final(store)@ == old(store)@
                    }
                },
                Err(BatchError::Fatal(fatal)) => {
                    &&& self.has_batch_handler()
                    &&& crate::ledger::batch_started(
                        false,
                        old(store)@,
                        round_results.indices(),
                        epoch,
                        Err(fatal),
                        final(store)@,
                    )
                },
                Err(BatchError::Aborted) => false,
            },
    {
        let ctx = self.start_context(epoch, false, round_results);
        // Invoke start batch handler.
        match &self.batch_handler {
            Some(handler) => match handler.start_batch(&ctx, store) {
                Ok(()) => {},
                Err(fatal) => {
                    return Err(BatchError::Fatal(fatal));
                },
            },
            None => {},
        }
        Ok(Execution { ctx, results: Vec::new(), waiting: false, aborted: false })
    }

    /// What taking `entry` made of the batch: `step` and the batch and store
    /// after it are what the entry's effect says, or the batch stopped and
    /// nothing else changed.
    pub open spec fn took_step(
        &self,
        before: Execution,
        after: Execution,
        store_before: Map<Seq<u8>, Seq<u8>>,
        store_after: Map<Seq<u8>, Seq<u8>>,
        entry: BatchEntry,
        step: Step,
    ) -> bool {
        let effect = entry_effect(
            self.methods(),
            entry,
            false,
            runtime_id(before.ctx),
            before.ctx.messages@.len(),
            store_before,
        );
        &&& after.ctx == before.ctx.with_emitted(after.ctx.tags, after.ctx.messages)
        &&& after.ctx.tags@.len() == 0
        &&& match step {
            Step::Aborted => {
                &&& after.aborted
                &&& !after.waiting
                &&& after.results == before.results
                &&& after.ctx.messages == before.ctx.messages
                &&& store_after == store_before
            },
            Step::Recorded => {
                &&& after.ready()
                &&& store_after == effect.store
                &&& after.ctx.messages.deep_view() == before.ctx.messages.deep_view()
                    + effect.messages
                &&& exists|result: Result<OutputView, CallErrorView>|
                    {
                        &&& effect.handled == HandledView::Done(result)
                        &&& after.results.deep_view() == before.results.deep_view().push(
                            (result, effect.tags),
                        )
                    }
            },
            Step::Waiting(pending) => {
                &&& after.waiting
                &&& !after.aborted
                &&& store_after == effect.store
                &&& effect.handled == HandledView::Waiting(pending.deep_view())
                &&& after.results == before.results
                &&& after.ctx.messages.deep_view() == before.ctx.messages.deep_view()
                    + effect.messages
            },
        }
    }

    /// Takes the next entry of an executing batch, given what the poll of
    /// the abort flag gave. Where the flag was found set the batch stops and
    /// the entry is not looked at. Otherwise the entry is executed: its
    /// result is recorded, or it waits for outside work and its result is to
    /// be handed to `complete`.
    pub fn execute_polled(
        &self,
        set: bool,
        run: &mut Execution,
        entry: &BatchEntry,
        store: &mut Store,
    ) -> (step: Step)
        requires
            old(run).ready(),
            self.can_dispatch(*entry, old(run).ctx),
        ensures
            set <==> step is Aborted,
            self.took_step(*old(run), *final(run), old(store)@, final(store)@, *entry, step),
    {
        if set {
            run.aborted = true;
            return Step::Aborted;
        }
        let ghost before = run.results.deep_view();
        let ghost tags_before = run.ctx.tags.deep_view();
        match self.dispatch_execute(entry, &mut run.ctx, store) {
            ExecuteStep::Done(result) => {
                let ghost output = result.output.deep_view();
                let ghost tags = result.tags.deep_view();
                run.results.push(result);
                proof {
                    assert(tags_before =~= Seq::<(Seq<u8>, Seq<u8>)>::empty());
                    let effect = entry_effect(
                        self.methods(),
                        *entry,
                        false,
                        runtime_id(old(run).ctx),
                        old(run).ctx.messages@.len(),
                        old(store)@,
                    );
                    assert(tags =~= effect.tags);
                    assert(run.results.deep_view() =~= before.push((output, effect.tags)));
                }
                Step::Recorded
            },
            ExecuteStep::Waiting(pending) => {
                proof {
                    let effect = entry_effect(
                        self.methods(),
                        *entry,
                        false,
                        runtime_id(old(run).ctx),
                        old(run).ctx.messages@.len(),
                        old(store)@,
                    );
                    assert(tags_before =~= Seq::<(Seq<u8>, Seq<u8>)>::empty());
                    assert(effect.tags.len() == 0);
                    assert(run.ctx.tags.deep_view().len() == 0);
                }
                run.waiting = true;
                Step::Waiting(pending)
            },
        }
    }

    /// Takes the next entry of an executing batch: polls the abort flag, and
    /// goes on as the poll says.
    pub fn execute_next(&self, run: &mut Execution, entry: &BatchEntry, store: &mut Store) -> (step:
        Step)
        requires
            old(run).ready(),
            self.can_dispatch(*entry, old(run).ctx),
        ensures
            !self.can_abort() ==> !(step is Aborted),
            self.took_step(*old(run), *final(run), old(store)@, final(store)@, *entry, step),
    {
        let set = self.abort_batch.is_set();
        self.execute_polled(set, run, entry, store)
    }

    /// Hands in the result of the call that the batch waits for. The result
    /// is recorded and the batch can take its next call.
    pub fn complete(&self, run: &mut Execution, result: Result<Output, CallError>)
        requires
            old(run).waiting,
            !old(run).aborted,
            !old(run).ctx.check_only,
            old(run).ctx.tags@.len() == 0,
        ensures
            final(run).ready(),
            final(run).results.deep_view() == old(run).results.deep_view().push(
                (result_view(result), Seq::empty()),
            ),
            final(run).ctx == old(run).ctx.with_emitted(final(run).ctx.tags, old(run).ctx.messages),
    {
        let ghost before = run.results.deep_view();
        let ghost view = result_view(result);
        let done = complete_execute(result, &mut run.ctx);
        proof {
            assert(done.tags.deep_view() =~= Seq::<(Seq<u8>, Seq<u8>)>::empty());
        }
        run.results.push(done);
        run.waiting = false;
        proof {
            assert(run.results.deep_view() =~= before.push((view, Seq::empty())));
        }
    }

    /// Ends an executing batch. A batch that was asked to stop gives up what
    /// it had done. Any other gives the results of its calls in their order,
    /// the messages that they emitted, no tags of its own and no weight
    /// limits.
    pub fn execute_finish(&self, run: Execution) -> (r: Result<ExecuteBatchResult, BatchError>)
        requires
            !run.waiting,
        ensures
            match r {
                Ok(batch) => {
                    &&& !run.aborted
                    &&& batch.results == run.results
                    &&& batch.messages == run.ctx.messages
                    &&& batch.block_tags@.len() == 0
                    &&& batch.batch_weight_limits is None
                },
                Err(e) => run.aborted && e is Aborted,
            },
    {
        if run.aborted {
            return Err(BatchError::Aborted);
        }
        // Invoke end batch handler.
        match &self.batch_handler {
            Some(handler) => {
                handler.end_batch(&run.ctx);
            },
            None => {},
        }
        Ok(
            ExecuteBatchResult {
                results: run.results,
                messages: run.ctx.close(),
                // No support for block tags in the deprecated dispatcher.
                block_tags: Vec::new(),
                // No support for custom batch weight limits.
                batch_weight_limits: None,
            },
        )
    }

    /// Runs once the storage of a round was committed to a new root. Gives
    /// the root to tell the embedding program of, where a finalizer is
    /// configured. The store is out of reach here.
    pub fn finalize(&self, new_storage_root: Vec<u8>) -> (told: Option<Vec<u8>>)
        ensures
            told == if self.has_finalizer() {
                Some(new_storage_root)
            } else {
                None
            },
    {
        match &self.finalizer {
            Some(_finalizer) => Some(new_storage_root),
            None => None,
        }
    }
}

/// Where an executing batch stands after it ran on.
#[derive(Debug, PartialEq, Eq)]
pub enum BatchProgress {
    /// Every entry is done.
    Finished,
    /// An entry waits for outside work; its result is to be handed in.
    Waiting(Pending),
    /// The batch was asked to stop.
    Aborted,
}

/// An executing batch as contracts speak of it: the store, the results
/// recorded, and the messages emitted.
pub struct RunModel {
    pub store: Map<Seq<u8>, Seq<u8>>,
    pub results: Seq<(Result<OutputView, CallErrorView>, Seq<(Seq<u8>, Seq<u8>)>)>,
    pub messages: Seq<(MessageKind, u16, Seq<u8>)>,
}

/// The result of a call that is done.
pub open spec fn done_result(handled: HandledView) -> Result<OutputView, CallErrorView> {
    match handled {
        HandledView::Done(result) => result,
        HandledView::Waiting(_) => arbitrary(),
    }
}

/// What the next entry does to an executing batch.
pub open spec fn next_effect(
    methods: Map<Seq<char>, Handler>,
    runtime: Option<Seq<char>>,
    entry: BatchEntry,
    at: RunModel,
) -> Effect {
    entry_effect(methods, entry, false, runtime, at.messages.len(), at.store)
}

/// The batch after the given entries, each taken in turn and done: every
/// entry works on the store that the one before it left, its result is
/// recorded behind the results of those before it, and its messages follow
/// theirs.
pub open spec fn after_entries(
    methods: Map<Seq<char>, Handler>,
    runtime: Option<Seq<char>>,
    entries: Seq<BatchEntry>,
    start: RunModel,
) -> RunModel
    decreases entries.len(),
{
    if entries.len() == 0 {
        start
    } else {
        let before = after_entries(methods, runtime, entries.drop_last(), start);
        let effect = next_effect(methods, runtime, entries.last(), before);
        RunModel {
            store: effect.store,
            results: before.results.push((done_result(effect.handled), effect.tags)),
            messages: before.messages + effect.messages,
        }
    }
}

/// The batch `run` on the store `store` stands as `model` says.
pub open spec fn stands_at(run: Execution, store: Map<Seq<u8>, Seq<u8>>, model: RunModel) -> bool {
    &&& store == model.store
    &&& run.results.deep_view() == model.results
    &&& run.ctx.messages.deep_view() == model.messages
}

/// The batch `run` on the store `store`, as contracts speak of it.
pub open spec fn model_of(run: Execution, store: Map<Seq<u8>, Seq<u8>>) -> RunModel {
    RunModel {
        store,
        results: run.results.deep_view(),
        messages: run.ctx.messages.deep_view(),
    }
}

/// No entry emits more than one message.
pub proof fn lemma_one_message_at_most(
    methods: Map<Seq<char>, Handler>,
    entry: BatchEntry,
    check_only: bool,
    runtime: Option<Seq<char>>,
    emitted: nat,
    store: Map<Seq<u8>, Seq<u8>>,
)
    ensures
        entry_effect(methods, entry, check_only, runtime, emitted, store).messages.len() <= 1,
{
}

impl MethodDispatcher {
    /// Executes the entries of `batch` from position `from` on, one after the
    /// other, until all are done, one of them waits for outside work, or the
    /// abort flag is found set before an entry. Gives the position that it
    /// came to: the end of the batch, the entry that waits, or the entry that
    /// it stopped before.
    pub fn execute_batch(
        &self,
        run: &mut Execution,
        batch: &Vec<BatchEntry>,
        from: usize,
        store: &mut Store,
    ) -> (r: (usize, BatchProgress))
        requires
            old(run).ready(),
            from <= batch@.len(),
            old(run).ctx.messages@.len() + (batch@.len() - from) < u32::MAX,
            forall|j: int|
                from <= j < batch@.len() && reads_identifier(self.methods(), #[trigger] batch@[j])
                    ==> old(run).ctx.runtime is Some,
        ensures
            from <= r.0 <= batch@.len(),
            !self.can_abort() ==> !(r.1 is Aborted),
            from == batch@.len() ==> r.1 is Finished,
            final(run).ctx == old(run).ctx.with_emitted(
                final(run).ctx.tags,
                final(run).ctx.messages,
            ),
            final(run).ctx.tags@.len() == 0,
            forall|j: int|
                from <= j < r.0 ==> (#[trigger] next_effect(
                    self.methods(),
                    runtime_id(old(run).ctx),
                    batch@[j],
                    after_entries(
                        self.methods(),
                        runtime_id(old(run).ctx),
                        batch@.subrange(from as int, j),
                        model_of(*old(run), old(store)@),
                    ),
                )).handled is Done,
            ({
                let reached = after_entries(
                    self.methods(),
                    runtime_id(old(run).ctx),
                    batch@.subrange(from as int, r.0 as int),
                    model_of(*old(run), old(store)@),
                );
                match r.1 {
                    BatchProgress::Finished => {
                        &&& r.0 == batch@.len()
                        &&& final(run).ready()
                        &&& stands_at(*final(run), final(store)@, reached)
                    },
                    BatchProgress::Aborted => {
                        &&& final(run).aborted
                        &&& !final(run).waiting
                        &&& stands_at(*final(run), final(store)@, reached)
                    },
                    BatchProgress::Waiting(pending) => {
                        let effect = next_effect(
                            self.methods(),
                            runtime_id(old(run).ctx),
                            batch@[r.0 as int],
                            reached,
                        );
                        &&& r.0 < batch@.len()
                        &&& final(run).waiting
                        &&& !final(run).aborted
                        &&& effect.handled == HandledView::Waiting(pending.deep_view())
                        &&& final(store)@ == effect.store
                        &&& final(run).results.deep_view() == reached.results
                        &&& final(run).ctx.messages.deep_view() == reached.messages
                            + effect.messages
                    },
                }
            }),
    {
        let ghost methods = self.methods();
        let ghost runtime = runtime_id(run.ctx);
        let ghost start = model_of(*run, store@);
        let mut i: usize = from;
        proof {
            assert(batch@.subrange(from as int, from as int) =~= Seq::<BatchEntry>::empty());
        }
        while i < batch.len()
            invariant
                from <= i <= batch@.len(),
                run.ready(),
                forall|j: int|
                    from <= j < batch@.len() && reads_identifier(methods, #[trigger] batch@[j])
                        ==> run.ctx.runtime is Some,
                methods == self.methods(),
                runtime == runtime_id(old(run).ctx),
                runtime == runtime_id(run.ctx),
                start == model_of(*old(run), old(store)@),
                run.ctx == old(run).ctx.with_emitted(run.ctx.tags, run.ctx.messages),
                run.ctx.messages@.len() + (batch@.len() - i) < u32::MAX,
                stands_at(
                    *run,
                    store@,
                    after_entries(methods, runtime, batch@.subrange(from as int, i as int), start),
                ),
                forall|j: int|
                    from <= j < i ==> (#[trigger] next_effect(
                        methods,
                        runtime,
                        batch@[j],
                        after_entries(methods, runtime, batch@.subrange(from as int, j), start),
                    )).handled is Done,
            decreases batch@.len() - i,
        {
            let ghost reached = after_entries(
                methods,
                runtime,
                batch@.subrange(from as int, i as int),
                start,
            );
            let ghost emitted = run.ctx.messages@.len();
            proof {
                assert(run.ctx.messages.deep_view().len() == emitted);
                lemma_one_message_at_most(
                    methods,
                    batch@[i as int],
                    false,
                    runtime,
                    emitted,
                    store@,
                );
                let longer = batch@.subrange(from as int, i as int + 1);
                assert(longer.drop_last() =~= batch@.subrange(from as int, i as int));
                assert(longer.last() == batch@[i as int]);
            }
            match self.execute_next(run, &batch[i], store) {
                Step::Recorded => {
                    proof {
                        assert(run.ctx.messages.deep_view().len() == run.ctx.messages@.len());
                    }
                },
                Step::Aborted => {
                    return (i, BatchProgress::Aborted);
                },
                Step::Waiting(pending) => {
                    return (i, BatchProgress::Waiting(pending));
                },
            }
            i += 1;
        }
        (i, BatchProgress::Finished)
    }
}

} // verus!
