//! The ledger of pending messages: one record for each message that a call
//! sent to the consensus layer, kept until the host reports the message
//! resolved, and reconciled at the start of the next batch.

use crate::bytes::{
    bytes_eq, lemma_lex_le_transitive, lemma_lex_lt_asymmetric, lemma_lex_lt_by_first_byte,
    lemma_lex_lt_irreflexive, lemma_lex_successor, lex_le, lex_lt, lex_lt_at,
};
use crate::context::{Message, MessageKind, RoundResults, TxnContext};
use crate::endian::write_u64_be;
use crate::key_format::{
    decoded, encoded, lemma_decode_encoded, lemma_encode_decoded, lemma_encoded_injective,
    lemma_encoded_partial_ends, KeyFormat, PendingMessagesKeyFormat,
};
use crate::store::{bytes_view, Store};
use vstd::prelude::*;
use vstd::set_lib::lemma_len_subset;
use vstd::utf8::encode_utf8;

verus! {

/// The text that marks a pending message of the given kind.
pub open spec fn tag_text(kind: MessageKind) -> Seq<char> {
    match kind {
        MessageKind::Withdraw => "withdraw"@,
        MessageKind::Transfer => "transfer"@,
        MessageKind::AddEscrow => "add_escrow"@,
        MessageKind::ReclaimEscrow => "reclaim_escrow"@,
        MessageKind::UpdateRuntime => "update_runtime"@,
    }
}

/// The metadata stored for a pending message of the given kind: its tag text
/// as bytes.
pub open spec fn metadata_tag(kind: MessageKind) -> Seq<u8> {
    encode_utf8(tag_text(kind))
}

/// Whether reconciliation accepts what it found for a resolved message: the
/// tag of one of the five kinds of message.
pub open spec fn recognized(metadata: Option<Seq<u8>>) -> bool {
    match metadata {
        Some(tag) => {
            ||| tag == metadata_tag(MessageKind::Withdraw)
            ||| tag == metadata_tag(MessageKind::Transfer)
            ||| tag == metadata_tag(MessageKind::AddEscrow)
            ||| tag == metadata_tag(MessageKind::ReclaimEscrow)
            ||| tag == metadata_tag(MessageKind::UpdateRuntime)
        },
        None => false,
    }
}

/// The key of the ledger record of the message emitted under `index`.
pub open spec fn pending_key(index: u32) -> Seq<u8> {
    encoded(PendingMessagesKeyFormat { index })
}

/// The key that every ledger record is at or above: the prefix byte alone.
pub open spec fn ledger_start() -> Seq<u8> {
    seq![0x00u8]
}

/// The key under which the epoch of the last executed batch is kept.
pub open spec fn epoch_key() -> Seq<u8> {
    seq![0x02u8]
}

/// The keys of the ledger records of the given messages.
pub open spec fn resolved_keys(indices: Seq<u32>) -> Set<Seq<u8>> {
    Set::new(
        |k: Seq<u8>| exists|j: int| 0 <= j < indices.len() && k == pending_key(#[trigger] indices[j]),
    )
}

/// What reconciliation finds when it comes to the `i`-th resolved message: the
/// record of its index as the store had it at the start, unless an earlier
/// event of the same index has taken it away.
pub open spec fn metadata_seen(
    store: Map<Seq<u8>, Seq<u8>>,
    indices: Seq<u32>,
    i: int,
) -> Option<Seq<u8>> {
    if exists|j: int| 0 <= j < i && #[trigger] indices[j] == indices[i] {
        None
    } else {
        store.get(pending_key(indices[i]))
    }
}

/// The `i`-th resolved message is the first for which reconciliation finds no
/// metadata that it recognizes.
pub open spec fn first_unexpected(
    store: Map<Seq<u8>, Seq<u8>>,
    indices: Seq<u32>,
    i: int,
) -> bool {
    &&& 0 <= i < indices.len()
    &&& !recognized(metadata_seen(store, indices, i))
    &&& forall|j: int| 0 <= j < i ==> recognized(#[trigger] metadata_seen(store, indices, j))
}

/// Reconciliation recognizes what it finds for every resolved message.
pub open spec fn all_expected(store: Map<Seq<u8>, Seq<u8>>, indices: Seq<u32>) -> bool {
    forall|j: int| 0 <= j < indices.len() ==> recognized(#[trigger] metadata_seen(store, indices, j))
}

/// `key` is the key of a ledger record: it decodes as one.
pub open spec fn is_record_key(key: Seq<u8>) -> bool {
    decoded::<PendingMessagesKeyFormat>(key) is Some
}

/// The store holds no ledger record: no message is pending.
pub open spec fn ledger_is_empty(store: Map<Seq<u8>, Seq<u8>>) -> bool {
    forall|index: u32| !store.contains_key(#[trigger] pending_key(index))
}

/// `key` is the leftover that the scan of the ledger reports: the least key of
/// a ledger record that the store holds.
pub open spec fn is_leftover(store: Map<Seq<u8>, Seq<u8>>, key: Seq<u8>) -> bool {
    &&& store.contains_key(key)
    &&& is_record_key(key)
    &&& forall|other: Seq<u8>|
        #![trigger store.contains_key(other)]
        store.contains_key(other) && is_record_key(other) ==> lex_le(key, other)
}

/// The keys of the store that are at or after `from`.
pub open spec fn keys_at_or_after(store: Map<Seq<u8>, Seq<u8>>, from: Seq<u8>) -> Set<Seq<u8>> {
    store.dom().filter(|k: Seq<u8>| lex_le(from, k))
}

/// The store of a round that went on: the records of the resolved messages
/// are gone and the epoch is written down.
pub open spec fn reconciled(
    store: Map<Seq<u8>, Seq<u8>>,
    indices: Seq<u32>,
    epoch: u64,
) -> Map<Seq<u8>, Seq<u8>> {
    store.remove_keys(resolved_keys(indices)).insert(
        epoch_key(),
        crate::endian::be_bytes(epoch as nat, 8),
    )
}

/// An inconsistency between the ledger and what the host reports. No call can
/// repair it: the batch, and the process with it, must stop.
#[derive(Debug, PartialEq, Eq)]
pub enum Fatal {
    /// A message was reported resolved, and the ledger holds no record for it
    /// or one with metadata that reconciliation does not recognize.
    UnexpectedMetadata {
        /// The index of the message.
        index: u32,
        /// What the ledger held for it.
        metadata: Option<Vec<u8>>,
    },
    /// A ledger record is left after every resolved message was reconciled:
    /// a message was emitted and never reported resolved.
    LeftoverMetadata {
        /// The key of the record.
        key: Vec<u8>,
    },
}

/// The metadata stored for a pending message of the given kind.
pub fn tag_of(kind: MessageKind) -> (tag: &'static [u8])
    ensures
        tag@ == metadata_tag(kind),
{
    match kind {
        MessageKind::Withdraw => "withdraw".as_bytes(),
        MessageKind::Transfer => "transfer".as_bytes(),
        MessageKind::AddEscrow => "add_escrow".as_bytes(),
        MessageKind::ReclaimEscrow => "reclaim_escrow".as_bytes(),
        MessageKind::UpdateRuntime => "update_runtime".as_bytes(),
    }
}

/// Tells whether reconciliation accepts the metadata found for a resolved
/// message.
pub fn is_recognized(metadata: &Option<Vec<u8>>) -> (r: bool)
    ensures
        r == recognized(bytes_view(*metadata)),
{
    match metadata {
        Some(tag) => {
            bytes_eq(tag.as_slice(), tag_of(MessageKind::Withdraw))
                || bytes_eq(tag.as_slice(), tag_of(MessageKind::Transfer))
                || bytes_eq(tag.as_slice(), tag_of(MessageKind::AddEscrow))
                || bytes_eq(tag.as_slice(), tag_of(MessageKind::ReclaimEscrow))
                || bytes_eq(tag.as_slice(), tag_of(MessageKind::UpdateRuntime))
        },
        None => false,
    }
}

/// Sends a message to the consensus layer: queues it in the batch's context
/// and records its kind in the ledger, under the index that it was given.
pub fn emit(kind: MessageKind, body: Vec<u8>, ctx: &mut TxnContext, store: &mut Store) -> (index:
    u32)
    requires
        old(ctx).can_emit(),
    ensures
        index == old(ctx).messages@.len(),
        final(ctx).messages@ == old(ctx).messages@.push(Message { kind, version: 0, body }),
        *final(ctx) == old(ctx).with_emitted(old(ctx).tags, final(ctx).messages),
        final(store)@ == old(store)@.insert(pending_key(index), metadata_tag(kind)),
{
    let index = ctx.emit_message(Message { kind, version: 0, body });
    let key = PendingMessagesKeyFormat { index }.encode();
    store.insert(key.as_slice(), tag_of(kind));
    index
}

/// Adding one more index adds its key to the keys to remove.
proof fn lemma_resolved_keys_step(indices: Seq<u32>, i: int)
    requires
        0 <= i < indices.len(),
    ensures
        resolved_keys(indices.take(i + 1)) == resolved_keys(indices.take(i)).insert(
            pending_key(indices[i]),
        ),
        resolved_keys(indices.take(i)).contains(pending_key(indices[i])) <==> exists|j: int|
            0 <= j < i && #[trigger] indices[j] == indices[i],
{
    let a = resolved_keys(indices.take(i + 1));
    let b = resolved_keys(indices.take(i)).insert(pending_key(indices[i]));
    assert forall|k: Seq<u8>| a.contains(k) <==> b.contains(k) by {
        if a.contains(k) {
            let j = choose|j: int|
                0 <= j < indices.take(i + 1).len() && k == pending_key(
                    #[trigger] indices.take(i + 1)[j],
                );
            if j < i {
                assert(indices.take(i)[j] == indices[j]);
            }
        }
        if resolved_keys(indices.take(i)).contains(k) {
            let j = choose|j: int|
                0 <= j < indices.take(i).len() && k == pending_key(#[trigger] indices.take(i)[j]);
            assert(indices.take(i + 1)[j] == indices[j]);
        }
        if k == pending_key(indices[i]) {
            assert(indices.take(i + 1)[i] == indices[i]);
        }
    }
    assert(a =~= b);
    if resolved_keys(indices.take(i)).contains(pending_key(indices[i])) {
        let j = choose|j: int|
            0 <= j < indices.take(i).len() && pending_key(indices[i]) == pending_key(
                #[trigger] indices.take(i)[j],
            );
        lemma_encoded_injective(
            PendingMessagesKeyFormat { index: indices[i] },
            PendingMessagesKeyFormat { index: indices[j] },
        );
        assert(indices[j] == indices[i]);
    }
    if exists|j: int| 0 <= j < i && #[trigger] indices[j] == indices[i] {
        let j = choose|j: int| 0 <= j < i && #[trigger] indices[j] == indices[i];
        assert(indices.take(i)[j] == indices[j]);
    }
}

/// `r` and `after` are what reconciling `store` with the resolved messages
/// gives: success with every resolved record removed and no record left; or
/// the first message whose metadata is not recognized, with the records up to
/// and including its own removed; or, with every resolved record removed, the
/// least key of a record that is left.
pub open spec fn reconciliation(
    store: Map<Seq<u8>, Seq<u8>>,
    indices: Seq<u32>,
    r: Result<(), Fatal>,
    after: Map<Seq<u8>, Seq<u8>>,
) -> bool {
    match r {
        Ok(()) => {
            &&& all_expected(store, indices)
            &&& after == store.remove_keys(resolved_keys(indices))
            &&& ledger_is_empty(after)
        },
        Err(Fatal::UnexpectedMetadata { index, metadata }) => exists|i: int|
            {
                &&& #[trigger] first_unexpected(store, indices, i)
                &&& index == indices[i]
                &&& bytes_view(metadata) == metadata_seen(store, indices, i)
                &&& after == store.remove_keys(resolved_keys(indices.take(i + 1)))
            },
        Err(Fatal::LeftoverMetadata { key }) => {
            &&& all_expected(store, indices)
            &&& after == store.remove_keys(resolved_keys(indices))
            &&& is_leftover(after, key@)
        },
    }
}

/// `r` and `after` are what the start of a batch gives: a batch that only
/// checks succeeds and touches nothing; a batch that executes reconciles the
/// ledger and, where that succeeds, writes the epoch down.
pub open spec fn batch_started(
    check_only: bool,
    store: Map<Seq<u8>, Seq<u8>>,
    indices: Seq<u32>,
    epoch: u64,
    r: Result<(), Fatal>,
    after: Map<Seq<u8>, Seq<u8>>,
) -> bool {
    if check_only {
        r is Ok && after == store
    } else {
        match r {
            Ok(()) => {
                &&& reconciliation(store, indices, r, store.remove_keys(resolved_keys(indices)))
                &&& after == reconciled(store, indices, epoch)
            },
            Err(_) => reconciliation(store, indices, r, after),
        }
    }
}

/// Reconciles the ledger with what the host reports of the previous round.
///
/// For each message reported resolved, in the order reported, the ledger
/// record of its index is removed; the metadata found must be recognized.
/// Then the ledger is scanned: no record must be left.
pub fn process_message_results(round_results: &RoundResults, store: &mut Store) -> (r: Result<
    (),
    Fatal,
>)
    ensures
        reconciliation(old(store)@, round_results.indices(), r, final(store)@),
{
    let ghost indices = round_results.indices();
    let ghost start = old(store)@;
    let n = round_results.messages.len();
    let mut i: usize = 0;
    proof {
        assert(resolved_keys(indices.take(0)) =~= Set::<Seq<u8>>::empty());
        assert(start.remove_keys(Set::<Seq<u8>>::empty()) =~= start);
    }
    while i < n
        invariant
            i <= n,
            n == round_results.messages@.len(),
            indices == round_results.indices(),
            start == old(store)@,
            store@ == start.remove_keys(resolved_keys(indices.take(i as int))),
            forall|j: int| 0 <= j < i ==> recognized(#[trigger] metadata_seen(start, indices, j)),
        decreases n - i,
    {
        let index = round_results.messages[i].index;
        assert(index == indices[i as int]);
        let key = PendingMessagesKeyFormat { index }.encode();
        let metadata = store.remove(key.as_slice());
        proof {
            lemma_resolved_keys_step(indices, i as int);
            assert(store@ =~= start.remove_keys(resolved_keys(indices.take(i as int + 1))));
            assert(bytes_view(metadata) == metadata_seen(start, indices, i as int));
        }
        if !is_recognized(&metadata) {
            proof {
                assert(first_unexpected(start, indices, i as int));
            }
            return Err(Fatal::UnexpectedMetadata { index, metadata });
        }
        i += 1;
    }
    proof {
        assert(indices.take(n as int) =~= indices);
    }
    // Check if there are any leftover pending messages metadata.
    match leftover_record(store) {
        Some(key) => Err(Fatal::LeftoverMetadata { key }),
        None => Ok(()),
    }
}

/// The key of a ledger record is its prefix byte and four more bytes, and
/// every such key is the key of the record of some index.
pub proof fn lemma_record_keys(key: Seq<u8>, index: u32)
    ensures
        is_record_key(pending_key(index)),
        is_record_key(key) ==> key.len() == 5 && key[0] == 0x00 && key == pending_key(
            decoded::<PendingMessagesKeyFormat>(key)->0.index,
        ),
{
    lemma_decode_encoded(PendingMessagesKeyFormat { index });
    if is_record_key(key) {
        lemma_encode_decoded::<PendingMessagesKeyFormat>(key);
    }
}

/// Scans the ledger for a record: seeks to the start of the ledger and goes
/// through the keys that start with the ledger's prefix byte, in their order,
/// until one is the key of a record or there are no more. Gives the key of
/// the record found, which is the least that the store holds.
pub fn leftover_record(store: &Store) -> (found: Option<Vec<u8>>)
    ensures
        match found {
            Some(key) => is_leftover(store@, key@),
            None => ledger_is_empty(store@),
        },
{
    let _entries = store.len();
    let mut from = PendingMessagesKeyFormat { index: 0 }.encode_partial(0);
    proof {
        lemma_encoded_partial_ends(PendingMessagesKeyFormat { index: 0 }, 0);
        assert(from@ == ledger_start());
        assert forall|k: Seq<u8>| store@.contains_key(k) && is_record_key(k) implies lex_le(
            from@,
            k,
        ) by {
            lemma_record_keys(k, 0);
            assert(lex_lt_at(from@, k, 1));
        }
    }
    loop
        invariant
            store@.dom().finite(),
            from@.len() > 0,
            from@[0] == 0x00,
            forall|k: Seq<u8>|
                #![trigger store@.contains_key(k)]
                store@.contains_key(k) && is_record_key(k) ==> lex_le(from@, k),
        decreases keys_at_or_after(store@, from@).len(),
    {
        let key = match store.first_at_or_after(from.as_slice()) {
            Some((key, _value)) => key,
            None => {
                proof {
                    assert forall|index: u32| !store@.contains_key(
                        #[trigger] pending_key(index),
                    ) by {
                        let k = pending_key(index);
                        lemma_record_keys(k, index);
                        if store@.contains_key(k) {
                            assert(lex_lt(k, from@));
                            lemma_lex_lt_irreflexive(k);
                            if lex_lt(from@, k) {
                                lemma_lex_lt_asymmetric(k, from@);
                            }
                        }
                    }
                }
                return None;
            },
        };
        proof {
            // The key is at or after a key that is not empty.
            if lex_lt(from@, key@) {
                let at = choose|at: int| lex_lt_at(from@, key@, at);
                assert(at < key@.len());
            }
            assert(key@.len() > 0);
        }
        if key[0] != PendingMessagesKeyFormat::prefix() {
            // The keys that follow belong to other namespaces.
            proof {
                assert forall|index: u32| !store@.contains_key(
                    #[trigger] pending_key(index),
                ) by {
                    let k = pending_key(index);
                    lemma_record_keys(k, index);
                    if store@.contains_key(k) {
                        assert(lex_le(from@, k));
                        assert(lex_le(key@, k));
                        lemma_lex_lt_by_first_byte(k, key@);
                        lemma_lex_lt_irreflexive(k);
                        if lex_lt(key@, k) {
                            lemma_lex_lt_asymmetric(k, key@);
                        }
                    }
                }
            }
            return None;
        }
        if PendingMessagesKeyFormat::decode(key.as_slice()).is_some() {
            proof {
                assert forall|other: Seq<u8>|
                    #![trigger store@.contains_key(other)]
                    store@.contains_key(other) && is_record_key(other) implies lex_le(
                    key@,
                    other,
                ) by {
                    assert(lex_le(from@, other));
                }
            }
            return Some(key);
        }
        // The key is in the ledger's namespace and no record's: seek again
        // right behind it.
        let ghost before = from@;
        from = key;
        from.push(0x00);
        proof {
            let found = key@;
            assert(from@ == found.push(0u8));
            lemma_lex_successor(found, found);
            assert forall|k: Seq<u8>|
                #![trigger store@.contains_key(k)]
                store@.contains_key(k) && is_record_key(k) implies lex_le(from@, k) by {
                assert(lex_le(before, k));
                assert(lex_le(found, k));
                lemma_lex_successor(found, k);
            }
            let wider = keys_at_or_after(store@, before);
            let narrower = keys_at_or_after(store@, from@);
            store@.dom().lemma_len_filter(|k: Seq<u8>| lex_le(before, k));
            assert(wider.contains(found));
            assert forall|k: Seq<u8>| narrower.contains(k) implies wider.remove(found).contains(
                k,
            ) by {
                assert(lex_le(from@, k));
                lemma_lex_le_transitive(found, from@, k);
                lemma_lex_le_transitive(before, found, k);
                lemma_lex_lt_irreflexive(found);
                if k == found {
                    if lex_lt(from@, found) {
                        lemma_lex_lt_asymmetric(found, from@);
                    }
                }
            }
            lemma_len_subset(narrower, wider.remove(found));
        }
    }
}

/// What runs at the two ends of every batch of this runtime.
#[derive(Clone, Copy, Debug)]
pub struct BlockHandler;

impl BlockHandler {
    /// Runs before the first call of a batch. A batch that only checks
    /// touches nothing. A batch that executes first reconciles the ledger with
    /// the previous round and then writes the current epoch down.
    pub fn start_batch(&self, ctx: &TxnContext, store: &mut Store) -> (r: Result<(), Fatal>)
        ensures
            batch_started(
                ctx.check_only,
                old(store)@,
                ctx.round_results.indices(),
                ctx.epoch,
                r,
                final(store)@,
            ),
    {
        if ctx.check_only {
            return Ok(());
        }
        match process_message_results(&ctx.round_results, store) {
            Ok(()) => {},
            Err(fatal) => {
                return Err(fatal);
            },
        }
        let mut key: Vec<u8> = Vec::new();
        key.push(0x02);
        let mut epoch: Vec<u8> = Vec::new();
        write_u64_be(&mut epoch, ctx.epoch);
        proof {
            assert(key@ =~= epoch_key());
            assert(epoch@ =~= crate::endian::be_bytes(ctx.epoch as nat, 8));
        }
        store.insert(key.as_slice(), epoch.as_slice());
        Ok(())
    }

    /// Runs after the last call of a batch, and does nothing.
    pub fn end_batch(&self, _ctx: &TxnContext) {
    }
}

} // verus!
