//! What holds of the library as a whole: laws that relate several of its
//! functions, each stated over the models that the functions' own contracts
//! use, and proved.

use crate::context::MessageKind;
use crate::dispatcher::{
    after_entries, entry_effect, handler_effect, next_effect, Handler, RunModel,
};
use crate::encryption::{
    encrypted_key, envelope, open_request_for, split_envelope, zero_nonce, ENCRYPTED_KEY_PREFIX,
    NONCE_SIZE, TAG_SIZE,
};
use crate::key_format::{lemma_encoded_injective, NonceKeyFormat, PendingMessagesKeyFormat};
use crate::ledger::{
    all_expected, batch_started, epoch_key, first_unexpected, ledger_is_empty, metadata_seen,
    metadata_tag, pending_key, recognized, reconciled, reconciliation, resolved_keys, Fatal,
};
use crate::methods::{encrypted_store, failed, stored_text, EncryptedOp};
use crate::nonce::{nonce_key, nonce_reserved, nonce_used};
use crate::types::{BatchEntry, CallArgs, CallErrorView, OutputView};
use vstd::prelude::*;
use vstd::utf8::{encode_utf8, encode_utf8_valid_utf8, valid_first_scalar};

verus! {

/// The nonce that guards a call, where its arguments carry one.
pub open spec fn args_nonce(args: CallArgs) -> Option<u64> {
    match args {
        CallArgs::Unit => None,
        CallArgs::Malformed { .. } => None,
        CallArgs::Key(a) => Some(a.nonce),
        CallArgs::KeyValue(a) => Some(a.nonce),
        CallArgs::Withdraw(a) => Some(a.nonce),
        CallArgs::Transfer(a) => Some(a.nonce),
        CallArgs::AddEscrow(a) => Some(a.nonce),
        CallArgs::ReclaimEscrow(a) => Some(a.nonce),
        CallArgs::UpdateRuntime(a) => Some(a.nonce),
    }
}

/// The encoding of a text never starts with a byte above `0xF7`: no key that
/// is a text starts with the prefix byte of the nonces.
pub proof fn lemma_text_first_byte(text: Seq<char>)
    ensures
        encode_utf8(text).len() > 0 ==> encode_utf8(text)[0] <= 0xF7,
{
    encode_utf8_valid_utf8(text);
    let bytes = encode_utf8(text);
    if bytes.len() > 0 {
        assert(valid_first_scalar(bytes));
    }
}

/// The keys of the nonces, of the ledger, of the epoch and of the encrypted
/// entries start with four different bytes, so no two of them are equal, and
/// no text is the key of a nonce.
pub proof fn lemma_namespaces_disjoint(nonce: u64, index: u32, sealed_key: Seq<u8>, text: Seq<char>)
    ensures
        nonce_key(nonce)[0] == 0xFF,
        pending_key(index)[0] == 0x00,
        epoch_key()[0] == 0x02,
        encrypted_key(sealed_key)[0] == 0x01,
        nonce_key(nonce) != pending_key(index),
        nonce_key(nonce) != epoch_key(),
        nonce_key(nonce) != encrypted_key(sealed_key),
        nonce_key(nonce) != encode_utf8(text),
        pending_key(index) != epoch_key(),
        pending_key(index) != encrypted_key(sealed_key),
        epoch_key() != encrypted_key(sealed_key),
{
    lemma_text_first_byte(text);
    assert(nonce_key(nonce)[0] == 0xFF);
    assert(pending_key(index)[0] == 0x00);
    assert(epoch_key()[0] == 0x02);
    assert(encrypted_key(sealed_key)[0] == 0x01);
}

/// A nonce that passed the check of a batch that executes is used from then
/// on, and reserving it makes no other nonce used.
pub proof fn lemma_reserved_nonce_is_used(store: Map<Seq<u8>, Seq<u8>>, nonce: u64, other: u64)
    ensures
        nonce_used(nonce_reserved(store, nonce, false), nonce),
        nonce_used(nonce_reserved(store, nonce, false), other) <==> other == nonce || nonce_used(
            store,
            other,
        ),
        nonce_reserved(store, nonce, true) == store,
{
    if nonce_key(other) == nonce_key(nonce) {
        lemma_encoded_injective(NonceKeyFormat { nonce: other }, NonceKeyFormat { nonce });
    }
}

/// A call whose nonce is used fails with the duplicate-nonce error and
/// touches nothing, whether the batch checks or executes.
pub proof fn lemma_used_nonce_is_rejected(
    handler: Handler,
    args: CallArgs,
    check_only: bool,
    runtime: Option<Seq<char>>,
    emitted: nat,
    store: Map<Seq<u8>, Seq<u8>>,
    nonce: u64,
)
    requires
        args.kind() == Some(handler.args_kind()),
        args_nonce(args) == Some(nonce),
        nonce_used(store, nonce),
    ensures
        handler_effect(handler, args, check_only, runtime, emitted, store) == failed(
            store,
            CallErrorView::DuplicateNonce { nonce },
        ),
{
}

/// A call whose nonce is not used, in a batch that executes, leaves the nonce
/// used, whatever else becomes of the call.
pub proof fn lemma_executed_call_uses_its_nonce(
    handler: Handler,
    args: CallArgs,
    runtime: Option<Seq<char>>,
    emitted: nat,
    store: Map<Seq<u8>, Seq<u8>>,
    nonce: u64,
)
    requires
        args.kind() == Some(handler.args_kind()),
        args_nonce(args) == Some(nonce),
    ensures
        nonce_used(handler_effect(handler, args, false, runtime, emitted, store).store, nonce),
{
    lemma_reserved_nonce_is_used(store, nonce, nonce);
    if nonce_used(store, nonce) {
        lemma_used_nonce_survives_call(handler, args, false, runtime, emitted, store, nonce);
    } else {
        match args {
            CallArgs::Key(a) => {
                lemma_text_first_byte(a.key@);
            },
            _ => {},
        }
    }
}

/// No call takes a used nonce back: a nonce that is used before a call is used
/// after it.
pub proof fn lemma_used_nonce_survives_call(
    handler: Handler,
    args: CallArgs,
    check_only: bool,
    runtime: Option<Seq<char>>,
    emitted: nat,
    store: Map<Seq<u8>, Seq<u8>>,
    nonce: u64,
)
    requires
        nonce_used(store, nonce),
    ensures
        nonce_used(handler_effect(handler, args, check_only, runtime, emitted, store).store, nonce),
{
    match args {
        CallArgs::Key(a) => {
            lemma_text_first_byte(a.key@);
        },
        _ => {},
    }
}

/// No entry of a batch takes a used nonce back.
pub proof fn lemma_used_nonce_survives_entry(
    methods: Map<Seq<char>, Handler>,
    entry: BatchEntry,
    check_only: bool,
    runtime: Option<Seq<char>>,
    emitted: nat,
    store: Map<Seq<u8>, Seq<u8>>,
    nonce: u64,
)
    requires
        nonce_used(store, nonce),
    ensures
        nonce_used(
            entry_effect(methods, entry, check_only, runtime, emitted, store).store,
            nonce,
        ),
{
    match entry {
        BatchEntry::Call(call) => {
            if methods.contains_key(call.method@) {
                lemma_used_nonce_survives_call(
                    methods[call.method@],
                    call.args,
                    check_only,
                    runtime,
                    emitted,
                    store,
                    nonce,
                );
            }
        },
        BatchEntry::Malformed { .. } => {},
    }
}

/// Neither the second stage of a call on an encrypted entry nor the start of
/// a batch takes a used nonce back.
pub proof fn lemma_used_nonce_survives_the_rest(
    store: Map<Seq<u8>, Seq<u8>>,
    nonce: u64,
    op: EncryptedOp,
    value_nonce: Seq<u8>,
    sealed_key: Seq<u8>,
    sealed_value: Option<Seq<u8>>,
    indices: Seq<u32>,
    epoch: u64,
)
    requires
        nonce_used(store, nonce),
    ensures
        nonce_used(encrypted_store(op, value_nonce, sealed_key, sealed_value, store), nonce),
        nonce_used(reconciled(store, indices, epoch), nonce),
        forall|n: int| nonce_used(#[trigger] store.remove_keys(resolved_keys(indices.take(n))), nonce),
{
    assert forall|i: u32| nonce_key(nonce) != #[trigger] pending_key(i) by {
        assert(pending_key(i)[0] == 0x00);
    }
    assert(nonce_key(nonce)[0] == 0xFF);
    assert(encrypted_key(sealed_key)[0] == 0x01);
    assert(epoch_key()[0] == 0x02);
}

/// In a run of entries, a nonce that is used at the start is used at the
/// end.
pub proof fn lemma_used_nonce_survives_entries(
    methods: Map<Seq<char>, Handler>,
    runtime: Option<Seq<char>>,
    entries: Seq<BatchEntry>,
    start: RunModel,
    nonce: u64,
)
    requires
        nonce_used(start.store, nonce),
    ensures
        nonce_used(after_entries(methods, runtime, entries, start).store, nonce),
    decreases entries.len(),
{
    if entries.len() > 0 {
        lemma_used_nonce_survives_entries(methods, runtime, entries.drop_last(), start, nonce);
        let before = after_entries(methods, runtime, entries.drop_last(), start);
        lemma_used_nonce_survives_entry(
            methods,
            entries.last(),
            false,
            runtime,
            before.messages.len(),
            before.store,
            nonce,
        );
    }
}

/// The entry is a call of a registered method, with arguments of the shape
/// that the method takes, guarded by `nonce`.
pub open spec fn calls_with_nonce(
    methods: Map<Seq<char>, Handler>,
    entry: BatchEntry,
    nonce: u64,
) -> bool {
    &&& entry matches BatchEntry::Call(call)
    &&& methods.contains_key(call.method@)
    &&& call.args.kind() == Some(methods[call.method@].args_kind())
    &&& args_nonce(call.args) == Some(nonce)
}

/// In a run of executed entries, a nonce is accepted once: of two calls that
/// are guarded by the same nonce, the later fails with the duplicate-nonce
/// error and touches nothing.
pub proof fn lemma_nonce_is_accepted_once(
    methods: Map<Seq<char>, Handler>,
    runtime: Option<Seq<char>>,
    entries: Seq<BatchEntry>,
    start: RunModel,
    earlier: int,
    later: int,
    nonce: u64,
)
    requires
        0 <= earlier < later < entries.len(),
        calls_with_nonce(methods, entries[earlier], nonce),
        calls_with_nonce(methods, entries[later], nonce),
    ensures
        ({
            let reached = after_entries(methods, runtime, entries.take(later), start);
            next_effect(methods, runtime, entries[later], reached) == failed(
                reached.store,
                CallErrorView::DuplicateNonce { nonce },
            )
        }),
{
    let upto = entries.take(earlier + 1);
    let before = after_entries(methods, runtime, entries.take(earlier), start);
    assert(upto.drop_last() =~= entries.take(earlier));
    assert(upto.last() == entries[earlier]);
    let first = entries[earlier]->Call_0;
    lemma_executed_call_uses_its_nonce(
        methods[first.method@],
        first.args,
        runtime,
        before.messages.len(),
        before.store,
        nonce,
    );
    let mid = after_entries(methods, runtime, upto, start);
    assert(nonce_used(mid.store, nonce));
    lemma_run_splits(methods, runtime, entries.take(later), start, earlier + 1);
    assert(entries.take(later).take(earlier + 1) =~= upto);
    lemma_used_nonce_survives_entries(
        methods,
        runtime,
        entries.take(later).skip(earlier + 1),
        mid,
        nonce,
    );
    let reached = after_entries(methods, runtime, entries.take(later), start);
    let second = entries[later]->Call_0;
    lemma_used_nonce_is_rejected(
        methods[second.method@],
        second.args,
        false,
        runtime,
        reached.messages.len(),
        reached.store,
        nonce,
    );
}

/// A run of entries is the run of its first entries followed by the run of
/// the rest.
pub proof fn lemma_run_splits(
    methods: Map<Seq<char>, Handler>,
    runtime: Option<Seq<char>>,
    entries: Seq<BatchEntry>,
    start: RunModel,
    at: int,
)
    requires
        0 <= at <= entries.len(),
    ensures
        after_entries(methods, runtime, entries, start) == after_entries(
            methods,
            runtime,
            entries.skip(at),
            after_entries(methods, runtime, entries.take(at), start),
        ),
    decreases entries.len(),
{
    if at == entries.len() {
        assert(entries.take(at) =~= entries);
        assert(entries.skip(at) =~= Seq::<BatchEntry>::empty());
    } else {
        let head = entries.drop_last();
        lemma_run_splits(methods, runtime, head, start, at);
        assert(head.take(at) =~= entries.take(at));
        assert(entries.skip(at).drop_last() =~= head.skip(at));
        assert(entries.skip(at).last() == entries.last());
    }
}

/// Taking an envelope apart gives back the sealed value and the nonce that
/// it was made of.
pub proof fn lemma_envelope_splits(sealed_value: Seq<u8>, nonce: Seq<u8>)
    requires
        nonce.len() == NONCE_SIZE,
        sealed_value.len() >= TAG_SIZE,
    ensures
        split_envelope(envelope(sealed_value, nonce)) == Some((sealed_value, nonce)),
{
    let e = envelope(sealed_value, nonce);
    assert(e.subrange(0, e.len() - NONCE_SIZE) =~= sealed_value);
    assert(e.subrange(e.len() - NONCE_SIZE, e.len() as int) =~= nonce);
}

/// After a value was stored for a key, reading the key asks the cipher to
/// open exactly what was sealed, under the nonce that it was sealed under.
/// Removing the key asks the same, and leaves nothing to read.
pub proof fn lemma_stored_value_is_opened(
    key: Seq<u8>,
    store: Map<Seq<u8>, Seq<u8>>,
    sealed_key: Seq<u8>,
    sealed_value: Seq<u8>,
    nonce: Seq<u8>,
)
    requires
        nonce.len() == NONCE_SIZE,
        sealed_value.len() >= TAG_SIZE,
    ensures
        ({
            let after = encrypted_store(
                EncryptedOp::Insert,
                nonce,
                sealed_key,
                Some(sealed_value),
                store,
            );
            let removed = encrypted_store(EncryptedOp::Remove, nonce, sealed_key, None, after);
            &&& encrypted_store(EncryptedOp::Get, nonce, sealed_key, None, after) == after
            &&& open_request_for(key, after.get(encrypted_key(sealed_key))) == Some(
                (key, nonce, sealed_value),
            )
            &&& open_request_for(key, removed.get(encrypted_key(sealed_key))) is None
        }),
{
    lemma_envelope_splits(sealed_value, nonce);
}

/// The cipher opens what it sealed: whatever is sealed under a key and a
/// nonce is longer by a tag, and opening it under the same key and nonce
/// gives the plaintext back.
pub open spec fn cipher_opens_what_it_sealed(
    seal: spec_fn(Seq<u8>, Seq<u8>, Seq<u8>) -> Seq<u8>,
    open: spec_fn(Seq<u8>, Seq<u8>, Seq<u8>) -> Option<Seq<u8>>,
) -> bool {
    forall|key: Seq<u8>, nonce: Seq<u8>, plaintext: Seq<u8>|
        {
            &&& (#[trigger] seal(key, nonce, plaintext)).len() == plaintext.len() + TAG_SIZE
            &&& open(key, nonce, seal(key, nonce, plaintext)) == Some(plaintext)
        }
}

/// With a cipher that opens what it sealed, a value that was stored for a
/// key is what reading the key gives back: the read asks the cipher to open
/// what was sealed, the cipher answers with the value, and a value that is
/// the encoding of a text comes back as that text.
pub proof fn lemma_encrypted_round_trip(
    seal: spec_fn(Seq<u8>, Seq<u8>, Seq<u8>) -> Seq<u8>,
    open: spec_fn(Seq<u8>, Seq<u8>, Seq<u8>) -> Option<Seq<u8>>,
    key: Seq<u8>,
    store: Map<Seq<u8>, Seq<u8>>,
    plain_key: Seq<u8>,
    text: Seq<char>,
    nonce: Seq<u8>,
)
    requires
        cipher_opens_what_it_sealed(seal, open),
        nonce.len() == NONCE_SIZE,
    ensures
        ({
            let value = encode_utf8(text);
            let sealed_key = seal(key, zero_nonce(), plain_key);
            let sealed_value = seal(key, nonce, value);
            let after = encrypted_store(
                EncryptedOp::Insert,
                nonce,
                sealed_key,
                Some(sealed_value),
                store,
            );
            let request = open_request_for(key, after.get(encrypted_key(sealed_key)));
            &&& request == Some((key, nonce, sealed_value))
            &&& open(key, nonce, sealed_value) == Some(value)
            &&& stored_text(open(key, nonce, sealed_value)) == Ok::<OutputView, CallErrorView>(
                OutputView::Text(Some(text)),
            )
        }),
{
    let value = encode_utf8(text);
    let sealed_key = seal(key, zero_nonce(), plain_key);
    let sealed_value = seal(key, nonce, value);
    assert(sealed_value.len() == value.len() + TAG_SIZE);
    lemma_stored_value_is_opened(key, store, sealed_key, sealed_value, nonce);
    encode_utf8_valid_utf8(text);
    vstd::utf8::encode_utf8_decode_utf8(text);
}

/// With a cipher that opens what it sealed, the key that an entry is stored
/// under is a function of its plain key, and different plain keys are stored
/// under different keys.
pub proof fn lemma_derived_keys_differ(
    seal: spec_fn(Seq<u8>, Seq<u8>, Seq<u8>) -> Seq<u8>,
    open: spec_fn(Seq<u8>, Seq<u8>, Seq<u8>) -> Option<Seq<u8>>,
    key: Seq<u8>,
    a: Seq<u8>,
    b: Seq<u8>,
)
    requires
        cipher_opens_what_it_sealed(seal, open),
    ensures
        encrypted_key(seal(key, zero_nonce(), a)) == encrypted_key(seal(key, zero_nonce(), b))
            <==> a == b,
{
    let sa = seal(key, zero_nonce(), a);
    let sb = seal(key, zero_nonce(), b);
    lemma_encrypted_key_injective(sa, sb);
    if sa == sb {
        assert(open(key, zero_nonce(), sa) == Some(a));
        assert(open(key, zero_nonce(), sb) == Some(b));
    }
}

/// Whatever is stored that is too short to hold a tag and a nonce is never
/// handed to the cipher.
pub proof fn lemma_short_envelope_is_absent(key: Seq<u8>, stored: Seq<u8>)
    requires
        stored.len() < TAG_SIZE + NONCE_SIZE,
    ensures
        open_request_for(key, Some(stored)) is None,
{
}

/// The key that an entry is stored under is a function of its sealed plain
/// key, and different sealed keys give different stored keys.
pub proof fn lemma_encrypted_key_injective(a: Seq<u8>, b: Seq<u8>)
    ensures
        encrypted_key(a) == encrypted_key(b) <==> a == b,
        encrypted_key(a).len() == a.len() + 1,
        encrypted_key(a)[0] == ENCRYPTED_KEY_PREFIX,
{
    if encrypted_key(a) == encrypted_key(b) {
        assert(encrypted_key(a).skip(1) =~= a);
        assert(encrypted_key(b).skip(1) =~= b);
    }
}

/// After a reconciliation that succeeds, the record of every message that was
/// reported resolved is gone, and only those records are gone.
pub proof fn lemma_resolved_records_are_removed(
    store: Map<Seq<u8>, Seq<u8>>,
    indices: Seq<u32>,
    after: Map<Seq<u8>, Seq<u8>>,
    i: int,
)
    requires
        reconciliation(store, indices, Ok(()), after),
        0 <= i < indices.len(),
    ensures
        !after.contains_key(pending_key(indices[i])),
        store.contains_key(pending_key(indices[i])),
        forall|k: Seq<u8>|
            !resolved_keys(indices).contains(k) ==> after.get(k) == #[trigger] store.get(k),
{
    assert(resolved_keys(indices).contains(pending_key(indices[i])));
    assert(recognized(metadata_seen(store, indices, i)));
}

/// The tag that is written for an emitted message, of whatever kind, is one
/// that reconciliation recognizes, and the five tags differ from each other.
pub proof fn lemma_emitted_tags(kind: MessageKind, other: MessageKind)
    ensures
        recognized(Some(metadata_tag(kind))),
        metadata_tag(kind) == metadata_tag(other) <==> kind == other,
{
    reveal_strlit("withdraw");
    reveal_strlit("transfer");
    reveal_strlit("add_escrow");
    reveal_strlit("reclaim_escrow");
    reveal_strlit("update_runtime");
    vstd::utf8::is_ascii_chars_encode_utf8("withdraw"@);
    vstd::utf8::is_ascii_chars_encode_utf8("transfer"@);
    vstd::utf8::is_ascii_chars_encode_utf8("add_escrow"@);
    vstd::utf8::is_ascii_chars_encode_utf8("reclaim_escrow"@);
    vstd::utf8::is_ascii_chars_encode_utf8("update_runtime"@);
    assert(encode_utf8("withdraw"@)[0] == 'w' as u8);
    assert(encode_utf8("transfer"@)[0] == 't' as u8);
    assert(encode_utf8("add_escrow"@)[0] == 'a' as u8);
    assert(encode_utf8("reclaim_escrow"@)[0] == 'r' as u8);
    assert(encode_utf8("update_runtime"@)[0] == 'u' as u8);
}

/// A record that no round result reports resolved stops the batch: where the
/// store holds the record of a message that is not among the resolved ones,
/// reconciliation fails, and where all that it found for the resolved
/// messages was recognized, it fails with a leftover.
pub proof fn lemma_leftover_is_fatal(
    store: Map<Seq<u8>, Seq<u8>>,
    indices: Seq<u32>,
    r: Result<(), Fatal>,
    after: Map<Seq<u8>, Seq<u8>>,
    index: u32,
)
    requires
        reconciliation(store, indices, r, after),
        store.contains_key(pending_key(index)),
        forall|j: int| 0 <= j < indices.len() ==> #[trigger] indices[j] != index,
    ensures
        r is Err,
        all_expected(store, indices) ==> r matches Err(Fatal::LeftoverMetadata { .. }),
{
    assert(!resolved_keys(indices).contains(pending_key(index))) by {
        if resolved_keys(indices).contains(pending_key(index)) {
            let j = choose|j: int|
                0 <= j < indices.len() && pending_key(index) == pending_key(#[trigger] indices[j]);
            lemma_encoded_injective(
                PendingMessagesKeyFormat { index },
                PendingMessagesKeyFormat { index: indices[j] },
            );
        }
    }
    if r is Ok {
        assert(after.contains_key(pending_key(index)));
    }
    match r {
        Err(Fatal::UnexpectedMetadata { index: at, metadata }) => {
            let i = choose|i: int| #[trigger] first_unexpected(store, indices, i);
            assert(!recognized(metadata_seen(store, indices, i)));
        },
        _ => {},
    }
}

/// Once a batch that executes has started, the ledger is empty: every record
/// of the round before was reported resolved and is removed, before any call
/// of the batch is taken.
pub proof fn lemma_started_ledger_is_empty(
    store: Map<Seq<u8>, Seq<u8>>,
    indices: Seq<u32>,
    epoch: u64,
    after: Map<Seq<u8>, Seq<u8>>,
)
    requires
        batch_started(false, store, indices, epoch, Ok(()), after),
    ensures
        ledger_is_empty(after),
{
    assert forall|index: u32| !after.contains_key(#[trigger] pending_key(index)) by {
        assert(pending_key(index)[0] == 0x00);
        assert(epoch_key()[0] == 0x02);
    }
}

} // verus!
