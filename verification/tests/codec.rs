use simple_keyvalue::bytes::{append_bytes, bytes_eq, copy_bytes, copy_range, rank, Rank};
use simple_keyvalue::encryption::{
    key_pair_id, placeholder_nonce, EncryptionContext, ENCRYPTED_KEY_PREFIX, KEY_SIZE, NONCE_SIZE,
    TAG_SIZE,
};
use simple_keyvalue::key_format::{KeyFormat, NonceKeyFormat, PendingMessagesKeyFormat};
use simple_keyvalue::ledger::{
    is_recognized, leftover_record, process_message_results, tag_of, BlockHandler, Fatal,
};
use simple_keyvalue::context::{Message, MessageKind, RoundResults, TxnContext};
use simple_keyvalue::nonce::check_nonce;
use simple_keyvalue::store::Store;
use simple_keyvalue::types::CallError;

fn hex(bytes: &[u8]) -> String {
    bytes.iter().map(|b| format!("{:02x}", b)).collect()
}

#[test]
fn pending_key_is_prefix_and_big_endian_index() {
    assert_eq!(PendingMessagesKeyFormat::prefix(), 0x00);
    assert_eq!(PendingMessagesKeyFormat::size(), 4);
    assert_eq!(
        PendingMessagesKeyFormat { index: 0x0102_0304 }.encode(),
        vec![0x00, 0x01, 0x02, 0x03, 0x04]
    );
    assert_eq!(PendingMessagesKeyFormat { index: 0 }.encode(), vec![0, 0, 0, 0, 0]);
    assert_eq!(
        PendingMessagesKeyFormat { index: u32::MAX }.encode(),
        vec![0, 0xFF, 0xFF, 0xFF, 0xFF]
    );
}

#[test]
fn nonce_key_is_prefix_and_big_endian_nonce() {
    assert_eq!(NonceKeyFormat::prefix(), 0xFF);
    assert_eq!(NonceKeyFormat::size(), 8);
    assert_eq!(
        NonceKeyFormat { nonce: 0x0102_0304_0506_0708 }.encode(),
        vec![0xFF, 1, 2, 3, 4, 5, 6, 7, 8]
    );
    assert_eq!(NonceKeyFormat { nonce: 267 }.encode(), vec![0xFF, 0, 0, 0, 0, 0, 0, 0x01, 0x0b]);
}

#[test]
fn encode_partial_cuts_after_the_atoms_asked_for() {
    assert_eq!(PendingMessagesKeyFormat { index: 9 }.encode_partial(0), vec![0x00]);
    assert_eq!(PendingMessagesKeyFormat { index: 9 }.encode_partial(1), vec![0, 0, 0, 0, 9]);
    assert_eq!(PendingMessagesKeyFormat { index: 9 }.encode_partial(7), vec![0, 0, 0, 0, 9]);
    assert_eq!(NonceKeyFormat { nonce: 9 }.encode_partial(0), vec![0xFF]);
}

#[test]
fn decode_gives_the_key_back() {
    assert_eq!(
        PendingMessagesKeyFormat::decode(&[0x00, 0x01, 0x02, 0x03, 0x04]),
        Some(PendingMessagesKeyFormat { index: 0x0102_0304 })
    );
    assert_eq!(
        NonceKeyFormat::decode(&[0xFF, 0, 0, 0, 0, 0, 0, 0x01, 0x0b]),
        Some(NonceKeyFormat { nonce: 267 })
    );
    for index in [0u32, 1, 255, 256, 65_536, u32::MAX] {
        let key = PendingMessagesKeyFormat { index };
        assert_eq!(PendingMessagesKeyFormat::decode(&key.encode()), Some(key));
    }
    for nonce in [0u64, 1, 1 << 40, u64::MAX] {
        let key = NonceKeyFormat { nonce };
        assert_eq!(NonceKeyFormat::decode(&key.encode()), Some(key));
    }
}

#[test]
fn decode_refuses_other_prefix_and_other_length() {
    assert_eq!(PendingMessagesKeyFormat::decode(&[0x01, 0, 0, 0, 0]), None);
    assert_eq!(PendingMessagesKeyFormat::decode(&[0x00, 0, 0, 0]), None);
    assert_eq!(PendingMessagesKeyFormat::decode(&[0x00, 0, 0, 0, 0, 0]), None);
    assert_eq!(PendingMessagesKeyFormat::decode(&[0x00]), None);
    assert_eq!(PendingMessagesKeyFormat::decode(&[]), None);
    assert_eq!(NonceKeyFormat::decode(&[0x00, 0, 0, 0, 0]), None);
    assert_eq!(NonceKeyFormat::decode(&NonceKeyFormat { nonce: 1 }.encode()[..8]), None);
    assert_eq!(
        PendingMessagesKeyFormat::decode(&NonceKeyFormat { nonce: 1 }.encode()),
        None
    );
    assert_eq!(
        NonceKeyFormat::decode(&PendingMessagesKeyFormat { index: 1 }.encode()),
        None
    );
}

#[test]
fn decode_atoms_reads_the_leading_atoms() {
    assert_eq!(
        PendingMessagesKeyFormat::decode_atoms(&[0, 0, 1, 0x0b, 0xAA]),
        PendingMessagesKeyFormat { index: 267 }
    );
    let mut atoms = vec![vec![7u8]];
    NonceKeyFormat { nonce: 2 }.encode_atoms(&mut atoms);
    assert_eq!(atoms, vec![vec![7u8], vec![0, 0, 0, 0, 0, 0, 0, 2]]);
}

#[test]
fn rank_is_lexicographic() {
    assert_eq!(rank(b"", b""), Rank::Same);
    assert_eq!(rank(b"", b"a"), Rank::Before);
    assert_eq!(rank(b"a", b""), Rank::After);
    assert_eq!(rank(b"ab", b"ac"), Rank::Before);
    assert_eq!(rank(b"ab", b"abc"), Rank::Before);
    assert_eq!(rank(b"b", b"abc"), Rank::After);
    assert_eq!(rank(&[0xFF], &[0x00, 0xFF]), Rank::After);
    assert_eq!(rank(b"abc", b"abc"), Rank::Same);
    assert!(bytes_eq(b"abc", b"abc"));
    assert!(!bytes_eq(b"abc", b"abd"));
    assert!(!bytes_eq(b"abc", b"ab"));
}

#[test]
fn byte_helpers_copy_and_append() {
    assert_eq!(copy_bytes(b"xyz"), b"xyz".to_vec());
    assert_eq!(copy_range(b"abcdef", 2, 5), b"cde".to_vec());
    assert_eq!(copy_range(b"abcdef", 3, 3), Vec::<u8>::new());
    let mut buf = b"ab".to_vec();
    append_bytes(&mut buf, b"cd");
    assert_eq!(buf, b"abcd".to_vec());
}

#[test]
fn store_keeps_one_value_per_key() {
    let mut store = Store::new();
    assert_eq!(store.len(), 0);
    assert_eq!(store.insert(b"b", b"2"), None);
    assert_eq!(store.insert(b"a", b"1"), None);
    assert_eq!(store.insert(b"c", b"3"), None);
    assert_eq!(store.len(), 3);
    assert_eq!(store.insert(b"b", b"20"), Some(b"2".to_vec()));
    assert_eq!(store.len(), 3);
    assert_eq!(store.get(b"b"), Some(b"20".to_vec()));
    assert_eq!(store.get(b"d"), None);
    assert_eq!(store.remove(b"a"), Some(b"1".to_vec()));
    assert_eq!(store.remove(b"a"), None);
    assert_eq!(store.get(b"a"), None);
    assert_eq!(store.len(), 2);
}

#[test]
fn store_seeks_in_key_order() {
    let mut store = Store::new();
    store.insert(&[0x02], b"e");
    store.insert(&[0xFF, 1], b"n");
    store.insert(&[0x00, 0, 0, 0, 1], b"one");
    store.insert(&[0x00, 0, 0, 0, 0], b"zero");
    store.insert(&[0x01, 9], b"x");
    assert_eq!(store.first_at_or_after(&[]), Some((vec![0, 0, 0, 0, 0], b"zero".to_vec())));
    assert_eq!(store.first_at_or_after(&[0x00]), Some((vec![0, 0, 0, 0, 0], b"zero".to_vec())));
    assert_eq!(
        store.first_at_or_after(&[0, 0, 0, 0, 0, 0]),
        Some((vec![0, 0, 0, 0, 1], b"one".to_vec()))
    );
    assert_eq!(store.first_at_or_after(&[0x01]), Some((vec![0x01, 9], b"x".to_vec())));
    assert_eq!(store.first_at_or_after(&[0x02]), Some((vec![0x02], b"e".to_vec())));
    assert_eq!(store.first_at_or_after(&[0x03]), Some((vec![0xFF, 1], b"n".to_vec())));
    assert_eq!(store.first_at_or_after(&[0xFF, 2]), None);
}

#[test]
fn check_nonce_reserves_only_when_executing() {
    let mut store = Store::new();
    let check = TxnContext::new(1, true, RoundResults::new());
    let exec = TxnContext::new(1, false, RoundResults::new());
    assert_eq!(check_nonce(3, &check, &mut store), Ok(()));
    assert_eq!(store.len(), 0);
    assert_eq!(check_nonce(3, &check, &mut store), Ok(()));
    assert_eq!(check_nonce(3, &exec, &mut store), Ok(()));
    assert_eq!(store.get(&[0xFF, 0, 0, 0, 0, 0, 0, 0, 3]), Some(vec![0x01]));
    assert_eq!(check_nonce(3, &exec, &mut store), Err(CallError::DuplicateNonce { nonce: 3 }));
    assert_eq!(check_nonce(3, &check, &mut store), Err(CallError::DuplicateNonce { nonce: 3 }));
    assert_eq!(check_nonce(4, &exec, &mut store), Ok(()));
    assert_eq!(store.len(), 2);
}

#[test]
fn tags_are_the_five_literal_texts() {
    assert_eq!(tag_of(MessageKind::Withdraw), b"withdraw");
    assert_eq!(tag_of(MessageKind::Transfer), b"transfer");
    assert_eq!(tag_of(MessageKind::AddEscrow), b"add_escrow");
    assert_eq!(tag_of(MessageKind::ReclaimEscrow), b"reclaim_escrow");
    assert_eq!(tag_of(MessageKind::UpdateRuntime), b"update_runtime");
    assert!(is_recognized(&Some(b"withdraw".to_vec())));
    assert!(is_recognized(&Some(b"transfer".to_vec())));
    assert!(is_recognized(&Some(b"add_escrow".to_vec())));
    assert!(is_recognized(&Some(b"reclaim_escrow".to_vec())));
    assert!(is_recognized(&Some(b"update_runtime".to_vec())));
    assert!(!is_recognized(&Some(b"update_runtimes".to_vec())));
    assert!(!is_recognized(&Some(b"withdra".to_vec())));
    assert!(!is_recognized(&Some(vec![])));
    assert!(!is_recognized(&None));
}

#[test]
fn emit_records_kind_under_the_next_index() {
    let mut store = Store::new();
    let mut ctx = TxnContext::new(1, false, RoundResults::new());
    assert!(ctx.has_room());
    assert_eq!(simple_keyvalue::ledger::emit(MessageKind::AddEscrow, vec![1], &mut ctx, &mut store), 0);
    assert_eq!(
        simple_keyvalue::ledger::emit(MessageKind::ReclaimEscrow, vec![2], &mut ctx, &mut store),
        1
    );
    assert_eq!(store.get(&[0, 0, 0, 0, 0]), Some(b"add_escrow".to_vec()));
    assert_eq!(store.get(&[0, 0, 0, 0, 1]), Some(b"reclaim_escrow".to_vec()));
    assert_eq!(
        ctx.close(),
        vec![
            Message { kind: MessageKind::AddEscrow, version: 0, body: vec![1] },
            Message { kind: MessageKind::ReclaimEscrow, version: 0, body: vec![2] },
        ]
    );
}

#[test]
fn context_collects_and_hands_out_tags() {
    let mut ctx = TxnContext::new(3, true, RoundResults::resolving(&[4, 2]));
    assert_eq!(ctx.epoch, 3);
    assert!(ctx.check_only);
    assert_eq!(ctx.round_results.messages.len(), 2);
    assert_eq!(ctx.round_results.messages[0].index, 4);
    assert_eq!(ctx.round_results.messages[1].index, 2);
    ctx.emit_txn_tag(b"k", b"v");
    ctx.emit_txn_tag(b"k2", b"v2");
    let tags = ctx.take_tags();
    assert_eq!(tags.len(), 2);
    assert_eq!((tags[0].key.as_slice(), tags[0].value.as_slice()), (&b"k"[..], &b"v"[..]));
    assert_eq!((tags[1].key.as_slice(), tags[1].value.as_slice()), (&b"k2"[..], &b"v2"[..]));
    assert!(ctx.take_tags().is_empty());
}

#[test]
fn reconciliation_removes_resolved_records_in_order() {
    let mut store = Store::new();
    store.insert(&[0, 0, 0, 0, 0], b"withdraw");
    store.insert(&[0, 0, 0, 0, 1], b"transfer");
    store.insert(&[0, 0, 0, 0, 2], b"bogus");
    store.insert(&[0, 0, 0, 0, 3], b"add_escrow");
    let r = process_message_results(&RoundResults::resolving(&[1, 2, 3]), &mut store);
    assert_eq!(
        r,
        Err(Fatal::UnexpectedMetadata { index: 2, metadata: Some(b"bogus".to_vec()) })
    );
    assert_eq!(store.get(&[0, 0, 0, 0, 0]), Some(b"withdraw".to_vec()));
    assert_eq!(store.get(&[0, 0, 0, 0, 1]), None);
    assert_eq!(store.get(&[0, 0, 0, 0, 2]), None);
    assert_eq!(store.get(&[0, 0, 0, 0, 3]), Some(b"add_escrow".to_vec()));
    let r = process_message_results(&RoundResults::resolving(&[3]), &mut store);
    assert_eq!(r, Err(Fatal::LeftoverMetadata { key: vec![0, 0, 0, 0, 0] }));
    let r = process_message_results(&RoundResults::resolving(&[0]), &mut store);
    assert_eq!(r, Ok(()));
    assert_eq!(store.len(), 0);
    assert_eq!(process_message_results(&RoundResults::new(), &mut store), Ok(()));
}

#[test]
fn scan_for_leftovers_goes_through_the_whole_namespace() {
    let mut store = Store::new();
    store.insert(&[0x00], b"short");
    store.insert(&[0, 0, 0], b"short");
    store.insert(&[0, 0, 0, 0, 5, 0], b"long");
    store.insert(&[0, 0, 0, 0, 7], b"withdraw");
    store.insert(&[0, 0, 0, 0, 9], b"transfer");
    assert_eq!(leftover_record(&store), Some(vec![0, 0, 0, 0, 7]));
    assert_eq!(
        process_message_results(&RoundResults::new(), &mut store),
        Err(Fatal::LeftoverMetadata { key: vec![0, 0, 0, 0, 7] })
    );
    assert_eq!(
        process_message_results(&RoundResults::resolving(&[7]), &mut store),
        Err(Fatal::LeftoverMetadata { key: vec![0, 0, 0, 0, 9] })
    );
    assert_eq!(process_message_results(&RoundResults::resolving(&[9]), &mut store), Ok(()));
    assert_eq!(store.len(), 3);
    assert_eq!(leftover_record(&store), None);
    let mut store = Store::new();
    assert_eq!(leftover_record(&store), None);
    store.insert(&[0x01, 2, 3], b"other");
    store.insert(&[0xFF, 0, 0, 0, 0, 0, 0, 0, 1], &[1]);
    store.insert(&[], b"empty");
    assert_eq!(process_message_results(&RoundResults::new(), &mut store), Ok(()));
    store.insert(&[0, 0xFF, 0xFF, 0xFF, 0xFF], b"reclaim_escrow");
    assert_eq!(leftover_record(&store), Some(vec![0, 0xFF, 0xFF, 0xFF, 0xFF]));
}

#[test]
fn start_batch_writes_the_epoch_when_executing() {
    let mut store = Store::new();
    let ctx = TxnContext::new(0x0102, false, RoundResults::new());
    assert_eq!(BlockHandler.start_batch(&ctx, &mut store), Ok(()));
    assert_eq!(store.get(&[0x02]), Some(vec![0, 0, 0, 0, 0, 0, 1, 2]));
    BlockHandler.end_batch(&ctx);
    let mut other = Store::new();
    let ctx = TxnContext::new(0x0102, true, RoundResults::resolving(&[1]));
    assert_eq!(BlockHandler.start_batch(&ctx, &mut other), Ok(()));
    assert_eq!(other.len(), 0);
}

#[test]
fn cipher_sizes_are_fixed() {
    assert_eq!(KEY_SIZE, 32);
    assert_eq!(NONCE_SIZE, 15);
    assert_eq!(TAG_SIZE, 16);
    assert_eq!(ENCRYPTED_KEY_PREFIX, 0x01);
    assert_eq!(placeholder_nonce(), [0u8; 15]);
}

#[test]
fn key_pair_id_is_the_sha512_256_digest() {
    assert_eq!(
        hex(&key_pair_id(b"")),
        "c672b8d1ef56ed28ab87c3622c5114069bdd3ad7b8f9737498d0c01ecef0967a"
    );
    assert_eq!(
        hex(&key_pair_id(b"abc")),
        "53048e2681941ef99b2e29b76b4c7dabe4c2d0c634fc6d46e0e2f13107e7af23"
    );
}

#[test]
fn requests_carry_key_nonce_and_plaintext() {
    let key: Vec<u8> = (0u8..32).collect();
    let enc = EncryptionContext::new(&key);
    let r = enc.key_request(b"plain");
    assert_eq!(r.key.to_vec(), key);
    assert_eq!(r.nonce, [0u8; 15]);
    assert_eq!(r.plaintext, b"plain".to_vec());
    let nonce: Vec<u8> = (100u8..115).collect();
    let r = enc.value_request(b"value", &nonce);
    assert_eq!(r.key.to_vec(), key);
    assert_eq!(r.nonce.to_vec(), nonce);
    assert_eq!(r.plaintext, b"value".to_vec());
    assert_eq!(EncryptionContext::derive_nonce(&nonce).to_vec(), nonce);
}

#[test]
fn envelope_is_ciphertext_tag_nonce() {
    let key = [7u8; 32];
    let enc = EncryptionContext::new(&key);
    assert_eq!(EncryptionContext::derive_encrypted_key(&[9, 8, 7]), vec![0x01, 9, 8, 7]);
    assert_eq!(EncryptionContext::derive_encrypted_key(&[]), vec![0x01]);
    let sealed: Vec<u8> = (1u8..=20).collect();
    let nonce: [u8; 15] = [0xAB; 15];
    let envelope = EncryptionContext::seal_envelope(sealed.clone(), &nonce);
    assert_eq!(envelope.len(), 35);
    assert_eq!(&envelope[..20], &sealed[..]);
    assert_eq!(&envelope[20..], &nonce[..]);
    let request = enc.open(&envelope).unwrap();
    assert_eq!(request.key, key);
    assert_eq!(request.nonce, nonce);
    assert_eq!(request.ciphertext, sealed);
    // Exactly a tag and a nonce: an empty plaintext.
    let request = enc.open(&[5u8; 31]).unwrap();
    assert_eq!(request.ciphertext, vec![5u8; 16]);
    assert_eq!(request.nonce, [5u8; 15]);
    assert_eq!(enc.open(&[5u8; 30]), None);
    assert_eq!(enc.open(&[]), None);
}

#[test]
fn encrypted_entries_live_under_derived_keys() {
    let enc = EncryptionContext::new(&[1u8; 32]);
    let mut store = Store::new();
    let sealed_key = vec![0xAA, 0xBB];
    let sealed_one: Vec<u8> = vec![1u8; 17];
    let sealed_two: Vec<u8> = vec![2u8; 18];
    let nonce = [0u8; 15];
    assert_eq!(enc.get(&store, &sealed_key), None);
    assert_eq!(enc.insert(&mut store, &sealed_key, sealed_one.clone(), &nonce), None);
    let mut stored = sealed_one.clone();
    stored.extend_from_slice(&nonce);
    assert_eq!(store.get(&[0x01, 0xAA, 0xBB]), Some(stored));
    let read = enc.get(&store, &sealed_key).unwrap();
    assert_eq!(read.ciphertext, sealed_one);
    assert_eq!(read.nonce, nonce);
    let previous = enc.insert(&mut store, &sealed_key, sealed_two.clone(), &[3u8; 15]).unwrap();
    assert_eq!(previous.ciphertext, sealed_one);
    let removed = enc.remove(&mut store, &sealed_key).unwrap();
    assert_eq!(removed.ciphertext, sealed_two);
    assert_eq!(removed.nonce, [3u8; 15]);
    assert_eq!(enc.get(&store, &sealed_key), None);
    assert_eq!(enc.remove(&mut store, &sealed_key), None);
    assert_eq!(store.len(), 0);
    // A stored value too short to be an envelope reads as absent.
    store.insert(&[0x01, 0xAA, 0xBB], &[0u8; 30]);
    assert_eq!(enc.get(&store, &sealed_key), None);
}
