//! The methods of the runtime: what each does to the store and to the batch's
//! context, and what it gives back.

use crate::bytes::copy_bytes;
use crate::context::{MessageKind, TxnContext};
use crate::encryption::{
    key_pair_id, open_request_for, open_view, placeholder_nonce, sha512_256, zero_nonce,
    encrypted_key, envelope, EncryptionContext, OpenRequest, SealRequest, NONCE_SIZE,
};
use crate::ledger::{emit, metadata_tag, pending_key};
use crate::nonce::{check_nonce, nonce_reserved, nonce_used};
use crate::store::{bytes_view, Store};
use crate::types::{
    AddEscrow, CallError, CallErrorView, Key, KeyValue, Output, OutputView, ReclaimEscrow,
    Transfer, UpdateRuntime, Withdraw, result_view,
};
use vstd::prelude::*;
use vstd::utf8::{decode_utf8, encode_utf8, valid_utf8};

verus! {

/// The longest value, in bytes, that the plain `insert` stores.
pub const MAX_VALUE_SIZE: usize = 128;

/// What an encrypted call does to its entry.
#[derive(Clone, Copy, Debug, PartialEq, Eq, Structural)]
pub enum EncryptedOp {
    /// Store a value and give back the one that was there.
    Insert,
    /// Give back the value.
    Get,
    /// Remove the entry and give back its value.
    Remove,
}

/// A call on an encrypted entry that has passed its checks and now waits for
/// the keys of its entry and for the cipher.
#[derive(Debug, PartialEq, Eq)]
pub struct EncryptedCall {
    /// What the call does to its entry.
    pub op: EncryptedOp,
    /// The identifier of the key pair to ask the key manager for.
    pub key_pair_id: Vec<u8>,
    /// The plain key of the entry.
    pub key: Vec<u8>,
    /// The value to store, where the call stores one.
    pub value: Option<Vec<u8>>,
    /// The nonce to seal the value under: all zeros, until the embedding
    /// program puts one here that is unique for the value.
    pub nonce: [u8; NONCE_SIZE],
}

/// The outside work that a call waits for.
#[derive(Debug, PartialEq, Eq)]
pub enum Pending {
    /// The keys of an encrypted entry, and the cipher.
    Keys(EncryptedCall),
    /// A read of the accounts and delegations of the consensus layer.
    ConsensusAccounts,
}

/// [`Pending`] as contracts speak of it.
pub enum PendingView {
    Keys {
        op: EncryptedOp,
        key_pair_id: Seq<u8>,
        key: Seq<u8>,
        value: Option<Seq<u8>>,
        nonce: Seq<u8>,
    },
    ConsensusAccounts,
}

impl DeepView for Pending {
    type V = PendingView;

    open spec fn deep_view(&self) -> PendingView {
        match self {
            Pending::Keys(call) => PendingView::Keys {
                op: call.op,
                key_pair_id: call.key_pair_id@,
                key: call.key@,
                value: bytes_view(call.value),
                nonce: call.nonce@,
            },
            Pending::ConsensusAccounts => PendingView::ConsensusAccounts,
        }
    }
}

/// How far a call has come: it is done, or it waits for outside work.
#[derive(Debug, PartialEq, Eq)]
pub enum Handled {
    /// The call is done, with this result.
    Done(Result<Output, CallError>),
    /// The call has passed its checks and waits.
    Waiting(Pending),
}

/// [`Handled`] as contracts speak of it.
pub enum HandledView {
    Done(Result<OutputView, CallErrorView>),
    Waiting(PendingView),
}

impl DeepView for Handled {
    type V = HandledView;

    open spec fn deep_view(&self) -> HandledView {
        match self {
            Handled::Done(r) => HandledView::Done(result_view(*r)),
            Handled::Waiting(p) => HandledView::Waiting(p.deep_view()),
        }
    }
}

/// What one call does: how far it comes, the store that it leaves, and the
/// tags and messages that it emits.
pub struct Effect {
    pub handled: HandledView,
    pub store: Map<Seq<u8>, Seq<u8>>,
    pub tags: Seq<(Seq<u8>, Seq<u8>)>,
    pub messages: Seq<(MessageKind, u16, Seq<u8>)>,
}

/// The effect of a call that fails and emits nothing.
pub open spec fn failed(store: Map<Seq<u8>, Seq<u8>>, error: CallErrorView) -> Effect {
    Effect {
        handled: HandledView::Done(Err(error)),
        store,
        tags: Seq::empty(),
        messages: Seq::empty(),
    }
}

/// A stored value as the text that a method gives back: no text where nothing
/// was stored, an error where what was stored is not text.
pub open spec fn stored_text(stored: Option<Seq<u8>>) -> Result<OutputView, CallErrorView> {
    match stored {
        None => Ok(OutputView::Text(None)),
        Some(bytes) => if valid_utf8(bytes) {
            Ok(OutputView::Text(Some(decode_utf8(bytes))))
        } else {
            Err(CallErrorView::InvalidUtf8)
        },
    }
}

/// The two tags that a plain method attaches: what it did, and to which key.
pub open spec fn kv_tags(op: Seq<char>, key: Seq<char>) -> Seq<(Seq<u8>, Seq<u8>)> {
    seq![(encode_utf8("kv_op"@), encode_utf8(op)), (encode_utf8("kv_key"@), encode_utf8(key))]
}

/// What the plain `insert` does.
pub open spec fn insert_effect(
    args: KeyValue,
    check_only: bool,
    store: Map<Seq<u8>, Seq<u8>>,
) -> Effect {
    let reserved = nonce_reserved(store, args.nonce, check_only);
    let key = encode_utf8(args.key@);
    let value = encode_utf8(args.value@);
    if nonce_used(store, args.nonce) {
        failed(store, CallErrorView::DuplicateNonce { nonce: args.nonce })
    } else if value.len() > MAX_VALUE_SIZE {
        failed(reserved, CallErrorView::ValueTooBig)
    } else if check_only {
        failed(reserved, CallErrorView::CheckOnlySuccess)
    } else {
        Effect {
            handled: HandledView::Done(stored_text(reserved.get(key))),
            store: reserved.insert(key, value),
            tags: kv_tags("insert"@, args.key@),
            messages: Seq::empty(),
        }
    }
}

/// What the plain `get` does.
pub open spec fn get_effect(args: Key, check_only: bool, store: Map<Seq<u8>, Seq<u8>>) -> Effect {
    let reserved = nonce_reserved(store, args.nonce, check_only);
    let key = encode_utf8(args.key@);
    if nonce_used(store, args.nonce) {
        failed(store, CallErrorView::DuplicateNonce { nonce: args.nonce })
    } else if check_only {
        failed(reserved, CallErrorView::CheckOnlySuccess)
    } else {
        Effect {
            handled: HandledView::Done(stored_text(reserved.get(key))),
            store: reserved,
            tags: kv_tags("get"@, args.key@),
            messages: Seq::empty(),
        }
    }
}

/// What the plain `remove` does.
pub open spec fn remove_effect(args: Key, check_only: bool, store: Map<Seq<u8>, Seq<u8>>) -> Effect {
    let reserved = nonce_reserved(store, args.nonce, check_only);
    let key = encode_utf8(args.key@);
    if nonce_used(store, args.nonce) {
        failed(store, CallErrorView::DuplicateNonce { nonce: args.nonce })
    } else if check_only {
        failed(reserved, CallErrorView::CheckOnlySuccess)
    } else {
        Effect {
            handled: HandledView::Done(stored_text(reserved.get(key))),
            store: reserved.remove(key),
            tags: kv_tags("remove"@, args.key@),
            messages: Seq::empty(),
        }
    }
}

/// What a method does that sends a message of the given kind to the consensus
/// layer, when `emitted` messages were emitted before it in the batch.
pub open spec fn message_effect(
    kind: MessageKind,
    nonce: u64,
    body: Seq<u8>,
    check_only: bool,
    emitted: nat,
    store: Map<Seq<u8>, Seq<u8>>,
) -> Effect {
    let reserved = nonce_reserved(store, nonce, check_only);
    if nonce_used(store, nonce) {
        failed(store, CallErrorView::DuplicateNonce { nonce })
    } else if check_only {
        failed(reserved, CallErrorView::CheckOnlySuccess)
    } else {
        Effect {
            handled: HandledView::Done(Ok(OutputView::Unit)),
            store: reserved.insert(pending_key(emitted as u32), metadata_tag(kind)),
            tags: Seq::empty(),
            messages: seq![(kind, 0u16, body)],
        }
    }
}

/// What a method on an encrypted entry does before it waits: it checks the
/// nonce, and then asks for the keys of the entry.
pub open spec fn encrypted_effect(
    op: EncryptedOp,
    nonce: u64,
    key: Seq<char>,
    value: Option<Seq<char>>,
    check_only: bool,
    store: Map<Seq<u8>, Seq<u8>>,
) -> Effect {
    let reserved = nonce_reserved(store, nonce, check_only);
    if nonce_used(store, nonce) {
        failed(store, CallErrorView::DuplicateNonce { nonce })
    } else if check_only {
        failed(reserved, CallErrorView::CheckOnlySuccess)
    } else {
        Effect {
            handled: HandledView::Waiting(
                PendingView::Keys {
                    op,
                    key_pair_id: sha512_256(encode_utf8(key)),
                    key: encode_utf8(key),
                    value: match value {
                        Some(v) => Some(encode_utf8(v)),
                        None => None,
                    },
                    nonce: zero_nonce(),
                },
            ),
            store: reserved,
            tags: Seq::empty(),
            messages: Seq::empty(),
        }
    }
}

/// What the query of the consensus accounts does before it waits.
pub open spec fn accounts_effect(check_only: bool, store: Map<Seq<u8>, Seq<u8>>) -> Effect {
    if check_only {
        failed(store, CallErrorView::CheckOnlySuccess)
    } else {
        Effect {
            handled: HandledView::Waiting(PendingView::ConsensusAccounts),
            store,
            tags: Seq::empty(),
            messages: Seq::empty(),
        }
    }
}

/// What the query of the runtime's identifier does.
pub open spec fn runtime_id_effect(id: Seq<char>, store: Map<Seq<u8>, Seq<u8>>) -> Effect {
    Effect {
        handled: HandledView::Done(Ok(OutputView::Text(Some(id)))),
        store,
        tags: Seq::empty(),
        messages: Seq::empty(),
    }
}

/// The store and the context are as the effect says: the store is the one
/// that it leaves, its tags and messages were added to those of the context,
/// and the rest of the context is as it was.
pub open spec fn applied(
    before: TxnContext,
    after: TxnContext,
    store: Map<Seq<u8>, Seq<u8>>,
    effect: Effect,
) -> bool {
    &&& store == effect.store
    &&& after.tags.deep_view() == before.tags.deep_view() + effect.tags
    &&& after.messages.deep_view() == before.messages.deep_view() + effect.messages
    &&& after == before.with_emitted(after.tags, after.messages)
}

/// The call has had the effect `effect`: it came as far as the effect says,
/// and the store and the context are as the effect says.
pub open spec fn took_effect(
    before: TxnContext,
    after: TxnContext,
    store: Map<Seq<u8>, Seq<u8>>,
    handled: HandledView,
    effect: Effect,
) -> bool {
    &&& handled == effect.handled
    &&& applied(before, after, store, effect)
}

/// Turns bytes into text.
///
/// Calls `String::from_utf8`, which gives the text where the bytes are valid
/// UTF-8 and an error where they are not. The contract claims that, with
/// validity and decoding as `vstd::utf8` defines them.
#[verifier::external_body]
fn text_from_utf8(bytes: Vec<u8>) -> (text: Option<String>)
    ensures
        text is Some <==> valid_utf8(bytes@),
        text matches Some(t) ==> t@ == decode_utf8(bytes@),
{
    String::from_utf8(bytes).ok()
}

/// A stored value as the text that a method gives back.
pub fn text_output(stored: Option<Vec<u8>>) -> (r: Result<Output, CallError>)
    ensures
        result_view(r) == stored_text(bytes_view(stored)),
{
    match stored {
        None => Ok(Output::Text(None)),
        Some(bytes) => match text_from_utf8(bytes) {
            Some(text) => Ok(Output::Text(Some(text))),
            None => Err(CallError::InvalidUtf8),
        },
    }
}

/// Gives the identifier of this runtime, which the embedding program must
/// have installed in the context.
pub fn get_runtime_id(ctx: &TxnContext) -> (r: Result<Output, CallError>)
    requires
        ctx.runtime is Some,
    ensures
        result_view(r) == Ok::<OutputView, CallErrorView>(
            OutputView::Text(Some(ctx.runtime->0.test_runtime_id@)),
        ),
{
    match &ctx.runtime {
        Some(rctx) => Ok(Output::Text(Some(rctx.test_runtime_id.clone()))),
        None => Ok(Output::Text(None)),
    }
}

/// Queries all accounts of the consensus layer. The read itself is outside
/// work: a batch that executes waits for it.
pub fn consensus_accounts(ctx: &TxnContext) -> (handled: Handled)
    ensures
        handled.deep_view() == if ctx.check_only {
            HandledView::Done(Err(CallErrorView::CheckOnlySuccess))
        } else {
            HandledView::Waiting(PendingView::ConsensusAccounts)
        },
{
    if ctx.check_only {
        return Handled::Done(Err(CallError::CheckOnlySuccess));
    }
    Handled::Waiting(Pending::ConsensusAccounts)
}

/// What the query of the consensus accounts gives once the read is done: the
/// encoded accounts and delegations, or the failure of the read.
pub fn consensus_accounts_read(read: Result<Vec<u8>, String>) -> (r: Result<Output, CallError>)
    ensures
        result_view(r) == match read {
            Ok(accounts) => Ok::<OutputView, CallErrorView>(OutputView::Accounts(accounts@)),
            Err(reason) => Err(CallErrorView::ConsensusState { reason: reason@ }),
        },
{
    match read {
        Ok(accounts) => Ok(Output::Accounts(accounts)),
        Err(reason) => Err(CallError::ConsensusState { reason }),
    }
}

/// Checks the nonce, and unless the batch only checks, sends a message of the
/// given kind and records it in the ledger.
fn send_message(
    kind: MessageKind,
    nonce: u64,
    body: &[u8],
    ctx: &mut TxnContext,
    store: &mut Store,
) -> (r: Result<Output, CallError>)
    requires
        old(ctx).can_emit(),
    ensures
        took_effect(
            *old(ctx),
            *final(ctx),
            final(store)@,
            HandledView::Done(result_view(r)),
            message_effect(
                kind,
                nonce,
                body@,
                old(ctx).check_only,
                old(ctx).messages@.len(),
                old(store)@,
            ),
        ),
{
    proof {
        lemma_nothing_emitted(*ctx);
    }
    match check_nonce(nonce, ctx, store) {
        Ok(()) => {},
        Err(e) => {
            return Err(e);
        },
    }
    if ctx.check_only {
        return Err(CallError::CheckOnlySuccess);
    }
    let ghost before = ctx.messages.deep_view();
    let _index = emit(kind, copy_bytes(body), ctx, store);
    proof {
        assert(ctx.messages.deep_view() =~= before + seq![(kind, 0u16, body@)]);
    }
    Ok(Output::Unit)
}

/// Withdraws from the consensus layer into the runtime's account.
pub fn consensus_withdraw(args: &Withdraw, ctx: &mut TxnContext, store: &mut Store) -> (r: Result<
    Output,
    CallError,
>)
    requires
        old(ctx).can_emit(),
    ensures
        took_effect(
            *old(ctx),
            *final(ctx),
            final(store)@,
            HandledView::Done(result_view(r)),
            message_effect(
                MessageKind::Withdraw,
                args.nonce,
                args.withdraw@,
                old(ctx).check_only,
                old(ctx).messages@.len(),
                old(store)@,
            ),
        ),
{
    send_message(MessageKind::Withdraw, args.nonce, args.withdraw.as_slice(), ctx, store)
}

/// Transfers from the runtime's account to another account of the consensus
/// layer.
pub fn consensus_transfer(args: &Transfer, ctx: &mut TxnContext, store: &mut Store) -> (r: Result<
    Output,
    CallError,
>)
    requires
        old(ctx).can_emit(),
    ensures
        took_effect(
            *old(ctx),
            *final(ctx),
            final(store)@,
            HandledView::Done(result_view(r)),
            message_effect(
                MessageKind::Transfer,
                args.nonce,
                args.transfer@,
                old(ctx).check_only,
                old(ctx).messages@.len(),
                old(store)@,
            ),
        ),
{
    send_message(MessageKind::Transfer, args.nonce, args.transfer.as_slice(), ctx, store)
}

/// Adds escrow from the runtime's account to an account of the consensus
/// layer.
pub fn consensus_add_escrow(args: &AddEscrow, ctx: &mut TxnContext, store: &mut Store) -> (r:
    Result<Output, CallError>)
    requires
        old(ctx).can_emit(),
    ensures
        took_effect(
            *old(ctx),
            *final(ctx),
            final(store)@,
            HandledView::Done(result_view(r)),
            message_effect(
                MessageKind::AddEscrow,
                args.nonce,
                args.escrow@,
                old(ctx).check_only,
                old(ctx).messages@.len(),
                old(store)@,
            ),
        ),
{
    send_message(MessageKind::AddEscrow, args.nonce, args.escrow.as_slice(), ctx, store)
}

/// Reclaims escrow to the runtime's account.
pub fn consensus_reclaim_escrow(
    args: &ReclaimEscrow,
    ctx: &mut TxnContext,
    store: &mut Store,
) -> (r: Result<Output, CallError>)
    requires
        old(ctx).can_emit(),
    ensures
        took_effect(
            *old(ctx),
            *final(ctx),
            final(store)@,
            HandledView::Done(result_view(r)),
            message_effect(
                MessageKind::ReclaimEscrow,
                args.nonce,
                args.reclaim_escrow@,
                old(ctx).check_only,
                old(ctx).messages@.len(),
                old(store)@,
            ),
        ),
{
    send_message(
        MessageKind::ReclaimEscrow,
        args.nonce,
        args.reclaim_escrow.as_slice(),
        ctx,
        store,
    )
}

/// Updates the runtime's descriptor in the registry.
pub fn update_runtime(args: &UpdateRuntime, ctx: &mut TxnContext, store: &mut Store) -> (r: Result<
    Output,
    CallError,
>)
    requires
        old(ctx).can_emit(),
    ensures
        took_effect(
            *old(ctx),
            *final(ctx),
            final(store)@,
            HandledView::Done(result_view(r)),
            message_effect(
                MessageKind::UpdateRuntime,
                args.nonce,
                args.update_runtime@,
                old(ctx).check_only,
                old(ctx).messages@.len(),
                old(store)@,
            ),
        ),
{
    send_message(
        MessageKind::UpdateRuntime,
        args.nonce,
        args.update_runtime.as_slice(),
        ctx,
        store,
    )
}

/// Attaches the two tags of a plain method to the running call.
fn emit_kv_tags(ctx: &mut TxnContext, op: &str, key: &str)
    ensures
        final(ctx).tags.deep_view() == old(ctx).tags.deep_view() + kv_tags(op@, key@),
        final(ctx).messages == old(ctx).messages,
        *final(ctx) == old(ctx).with_emitted(final(ctx).tags, final(ctx).messages),
{
    let ghost before = ctx.tags.deep_view();
    ctx.emit_txn_tag("kv_op".as_bytes(), op.as_bytes());
    ctx.emit_txn_tag("kv_key".as_bytes(), key.as_bytes());
    proof {
        assert(ctx.tags.deep_view() =~= before + kv_tags(op@, key@));
    }
}

/// Nothing emitted leaves the tags and messages as they were.
pub proof fn lemma_nothing_emitted(ctx: TxnContext)
    ensures
        ctx.tags.deep_view() + Seq::<(Seq<u8>, Seq<u8>)>::empty() == ctx.tags.deep_view(),
        ctx.messages.deep_view() + Seq::<(MessageKind, u16, Seq<u8>)>::empty()
            == ctx.messages.deep_view(),
        ctx == ctx.with_emitted(ctx.tags, ctx.messages),
{
    assert(ctx.tags.deep_view() + Seq::<(Seq<u8>, Seq<u8>)>::empty() =~= ctx.tags.deep_view());
    assert(ctx.messages.deep_view() + Seq::<(MessageKind, u16, Seq<u8>)>::empty()
        =~= ctx.messages.deep_view());
}

/// Inserts a key/value pair and gives back the value that the key had.
pub fn insert(args: &KeyValue, ctx: &mut TxnContext, store: &mut Store) -> (r: Result<
    Output,
    CallError,
>)
    ensures
        took_effect(
            *old(ctx),
            *final(ctx),
            final(store)@,
            HandledView::Done(result_view(r)),
            insert_effect(*args, old(ctx).check_only, old(store)@),
        ),
{
    proof {
        lemma_nothing_emitted(*ctx);
    }
    match check_nonce(args.nonce, ctx, store) {
        Ok(()) => {},
        Err(e) => {
            return Err(e);
        },
    }
    if args.value.as_str().as_bytes().len() > MAX_VALUE_SIZE {
        return Err(CallError::ValueTooBig);
    }
    if ctx.check_only {
        return Err(CallError::CheckOnlySuccess);
    }
    emit_kv_tags(ctx, "insert", args.key.as_str());
    let existing = store.insert(args.key.as_str().as_bytes(), args.value.as_str().as_bytes());
    text_output(existing)
}

/// Retrieves the value of a key.
pub fn get(args: &Key, ctx: &mut TxnContext, store: &mut Store) -> (r: Result<Output, CallError>)
    ensures
        took_effect(
            *old(ctx),
            *final(ctx),
            final(store)@,
            HandledView::Done(result_view(r)),
            get_effect(*args, old(ctx).check_only, old(store)@),
        ),
{
    proof {
        lemma_nothing_emitted(*ctx);
    }
    match check_nonce(args.nonce, ctx, store) {
        Ok(()) => {},
        Err(e) => {
            return Err(e);
        },
    }
    if ctx.check_only {
        return Err(CallError::CheckOnlySuccess);
    }
    emit_kv_tags(ctx, "get", args.key.as_str());
    let existing = store.get(args.key.as_str().as_bytes());
    text_output(existing)
}

/// Removes a key and gives back the value that it had.
pub fn remove(args: &Key, ctx: &mut TxnContext, store: &mut Store) -> (r: Result<
    Output,
    CallError,
>)
    ensures
        took_effect(
            *old(ctx),
            *final(ctx),
            final(store)@,
            HandledView::Done(result_view(r)),
            remove_effect(*args, old(ctx).check_only, old(store)@),
        ),
{
    proof {
        lemma_nothing_emitted(*ctx);
    }
    match check_nonce(args.nonce, ctx, store) {
        Ok(()) => {},
        Err(e) => {
            return Err(e);
        },
    }
    if ctx.check_only {
        return Err(CallError::CheckOnlySuccess);
    }
    emit_kv_tags(ctx, "remove", args.key.as_str());
    let existing = store.remove(args.key.as_str().as_bytes());
    text_output(existing)
}

/// The part that the three methods on encrypted entries share: the nonce is
/// checked, and unless the batch only checks, the call is handed out to wait
/// for its keys.
fn start_encrypted(
    op: EncryptedOp,
    nonce: u64,
    key: &str,
    value: Option<&str>,
    ctx: &TxnContext,
    store: &mut Store,
) -> (handled: Handled)
    ensures
        took_effect(
            *ctx,
            *ctx,
            final(store)@,
            handled.deep_view(),
            encrypted_effect(
                op,
                nonce,
                key@,
                match value {
                    Some(v) => Some(v@),
                    None => None,
                },
                ctx.check_only,
                old(store)@,
            ),
        ),
{
    proof {
        lemma_nothing_emitted(*ctx);
    }
    match check_nonce(nonce, ctx, store) {
        Ok(()) => {},
        Err(e) => {
            return Handled::Done(Err(e));
        },
    }
    if ctx.check_only {
        return Handled::Done(Err(CallError::CheckOnlySuccess));
    }
    // The nonce is a placeholder: a deployment must derive one that is unique
    // for each value sealed under one key.
    let nonce = placeholder_nonce();
    let plain_key = key.as_bytes();
    let value = match value {
        Some(v) => Some(copy_bytes(v.as_bytes())),
        None => None,
    };
    Handled::Waiting(
        Pending::Keys(
            EncryptedCall {
                op,
                key_pair_id: key_pair_id(plain_key),
                key: copy_bytes(plain_key),
                value,
                nonce,
            },
        ),
    )
}

/// (encrypted) Inserts a key/value pair.
pub fn enc_insert(args: &KeyValue, ctx: &TxnContext, store: &mut Store) -> (handled: Handled)
    ensures
        took_effect(
            *ctx,
            *ctx,
            final(store)@,
            handled.deep_view(),
            encrypted_effect(
                EncryptedOp::Insert,
                args.nonce,
                args.key@,
                Some(args.value@),
                ctx.check_only,
                old(store)@,
            ),
        ),
{
    start_encrypted(
        EncryptedOp::Insert,
        args.nonce,
        args.key.as_str(),
        Some(args.value.as_str()),
        ctx,
        store,
    )
}

/// (encrypted) Retrieves the value of a key.
pub fn enc_get(args: &Key, ctx: &TxnContext, store: &mut Store) -> (handled: Handled)
    ensures
        took_effect(
            *ctx,
            *ctx,
            final(store)@,
            handled.deep_view(),
            encrypted_effect(
                EncryptedOp::Get,
                args.nonce,
                args.key@,
                None,
                ctx.check_only,
                old(store)@,
            ),
        ),
{
    start_encrypted(EncryptedOp::Get, args.nonce, args.key.as_str(), None, ctx, store)
}

/// (encrypted) Removes a key.
pub fn enc_remove(args: &Key, ctx: &TxnContext, store: &mut Store) -> (handled: Handled)
    ensures
        took_effect(
            *ctx,
            *ctx,
            final(store)@,
            handled.deep_view(),
            encrypted_effect(
                EncryptedOp::Remove,
                args.nonce,
                args.key@,
                None,
                ctx.check_only,
                old(store)@,
            ),
        ),
{
    start_encrypted(EncryptedOp::Remove, args.nonce, args.key.as_str(), None, ctx, store)
}

/// The store after an encrypted call was applied: the entry under the key
/// derived from the sealed plain key holds the new envelope, is as it was,
/// or is gone.
pub open spec fn encrypted_store(
    op: EncryptedOp,
    nonce: Seq<u8>,
    sealed_key: Seq<u8>,
    sealed_value: Option<Seq<u8>>,
    store: Map<Seq<u8>, Seq<u8>>,
) -> Map<Seq<u8>, Seq<u8>> {
    match op {
        EncryptedOp::Insert => match sealed_value {
            Some(sealed) => store.insert(encrypted_key(sealed_key), envelope(sealed, nonce)),
            None => store,
        },
        EncryptedOp::Get => store,
        EncryptedOp::Remove => store.remove(encrypted_key(sealed_key)),
    }
}

impl EncryptedCall {
    /// What the call gives when the key manager gave no keys.
    pub fn fail(&self, reason: String) -> (r: Result<Output, CallError>)
        ensures
            result_view(r) == Err::<OutputView, CallErrorView>(
                CallErrorView::KeyManager { reason: reason@ },
            ),
    {
        Err(CallError::KeyManager { reason })
    }

    /// What the cipher is asked to seal to derive the key of the entry.
    pub fn key_request(&self, enc: &EncryptionContext) -> (request: SealRequest)
        ensures
            request.key@ == enc.key(),
            request.nonce@ == zero_nonce(),
            request.plaintext@ == self.key@,
    {
        enc.key_request(self.key.as_slice())
    }

    /// What the cipher is asked to seal to protect the value, where the call
    /// stores one.
    pub fn value_request(&self, enc: &EncryptionContext) -> (request: Option<SealRequest>)
        ensures
            request is Some <==> self.value is Some,
            request matches Some(r) ==> {
                &&& r.key@ == enc.key()
                &&& r.nonce@ == self.nonce@
                &&& r.plaintext@ == self.value->0@
            },
    {
        match &self.value {
            Some(value) => Some(enc.value_request(value.as_slice(), self.nonce.as_slice())),
            None => None,
        }
    }

    /// Applies the call to the store, given what the cipher sealed for it, and
    /// says what the cipher is asked to open to get the value that the call
    /// gives back. A call that stores a value must be given the sealed value.
    pub fn apply(
        &self,
        enc: &EncryptionContext,
        sealed_key: &[u8],
        sealed_value: Option<Vec<u8>>,
        store: &mut Store,
    ) -> (request: Option<OpenRequest>)
        requires
            self.op == EncryptedOp::Insert ==> sealed_value is Some,
        ensures
            final(store)@ == encrypted_store(
                self.op,
                self.nonce@,
                sealed_key@,
                bytes_view(sealed_value),
                old(store)@,
            ),
            open_view(request) == open_request_for(
                enc.key(),
                old(store)@.get(encrypted_key(sealed_key@)),
            ),
    {
        match self.op {
            EncryptedOp::Insert => match sealed_value {
                Some(sealed) => enc.insert(store, sealed_key, sealed, self.nonce.as_slice()),
                None => None,
            },
            EncryptedOp::Get => enc.get(store, sealed_key),
            EncryptedOp::Remove => enc.remove(store, sealed_key),
        }
    }

    /// What the call gives once the cipher has opened the stored value, if
    /// there was one to open and it opened.
    pub fn finish(&self, opened: Option<Vec<u8>>) -> (r: Result<Output, CallError>)
        ensures
            result_view(r) == stored_text(bytes_view(opened)),
    {
        text_output(opened)
    }
}

} // verus!
