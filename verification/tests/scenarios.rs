use simple_keyvalue::abort::AbortFlag;
use simple_keyvalue::context::{MessageKind, RoundResults, RuntimeContext};
use simple_keyvalue::dispatcher::{
    ContextInitializer, Execution, Finalizer, Handler, Method, MethodDescriptor, MethodDispatcher,
    Step,
};
use simple_keyvalue::ledger::{BlockHandler, Fatal};
use simple_keyvalue::methods::{EncryptedOp, Pending};
use simple_keyvalue::store::Store;
use simple_keyvalue::types::{
    ArgsKind, BatchEntry, BatchError, CallArgs, CallError, Key, KeyValue, Output, Transfer,
    TxnCall, TxnOutput, UpdateRuntime, Withdraw,
};
use std::sync::atomic::AtomicBool;
use std::sync::Arc;

fn method(name: &str, handler: Handler) -> Method {
    Method::new(MethodDescriptor { name: name.to_string() }, handler)
}

fn dispatcher() -> MethodDispatcher {
    let mut txn = MethodDispatcher::new();
    txn.add_method(method("get_runtime_id", Handler::GetRuntimeId));
    txn.add_method(method("consensus_accounts", Handler::ConsensusAccounts));
    txn.add_method(method("consensus_withdraw", Handler::ConsensusWithdraw));
    txn.add_method(method("consensus_transfer", Handler::ConsensusTransfer));
    txn.add_method(method("consensus_add_escrow", Handler::ConsensusAddEscrow));
    txn.add_method(method("consensus_reclaim_escrow", Handler::ConsensusReclaimEscrow));
    txn.add_method(method("update_runtime", Handler::UpdateRuntime));
    txn.add_method(method("insert", Handler::Insert));
    txn.add_method(method("get", Handler::Get));
    txn.add_method(method("remove", Handler::Remove));
    txn.add_method(method("enc_insert", Handler::EncInsert));
    txn.add_method(method("enc_get", Handler::EncGet));
    txn.add_method(method("enc_remove", Handler::EncRemove));
    txn.set_batch_handler(BlockHandler);
    txn.set_context_initializer(ContextInitializer {
        runtime: RuntimeContext { test_runtime_id: "8000000000000000".to_string() },
    });
    txn
}

fn call(method: &str, args: CallArgs) -> BatchEntry {
    BatchEntry::Call(TxnCall { method: method.to_string(), args })
}

fn kv(key: &str, value: &str, nonce: u64) -> CallArgs {
    CallArgs::KeyValue(KeyValue { key: key.to_string(), value: value.to_string(), nonce })
}

fn key(key: &str, nonce: u64) -> CallArgs {
    CallArgs::Key(Key { key: key.to_string(), nonce })
}

fn begin(txn: &MethodDispatcher, store: &mut Store, resolved: &[u32]) -> Execution {
    txn.begin_execute(7, RoundResults::resolving(resolved), store).unwrap()
}

fn run_one(
    txn: &MethodDispatcher,
    run: &mut Execution,
    store: &mut Store,
    entry: BatchEntry,
    expected: TxnOutput,
) {
    assert!(run.can_continue());
    let before = run.results.len();
    match txn.execute_next(run, &entry, store) {
        Step::Recorded => {}
        other => panic!("unexpected step: {:?}", other),
    }
    assert_eq!(run.results.len(), before + 1);
    assert_eq!(run.results[before].output, expected);
}

fn text(value: Option<&str>) -> TxnOutput {
    TxnOutput::Success(Output::Text(value.map(|v| v.to_string())))
}

#[test]
fn insert_get_remove_scenario() {
    let txn = dispatcher();
    let mut store = Store::new();
    let mut run = begin(&txn, &mut store, &[]);
    run_one(&txn, &mut run, &mut store, call("insert", kv("a", "1", 1)), text(None));
    run_one(&txn, &mut run, &mut store, call("get", key("a", 11)), text(Some("1")));
    run_one(&txn, &mut run, &mut store, call("remove", key("a", 2)), text(Some("1")));
    run_one(&txn, &mut run, &mut store, call("get", key("a", 3)), text(None));
    let batch = txn.execute_finish(run).unwrap();
    assert_eq!(batch.results.len(), 4);
    assert!(batch.messages.is_empty());
    assert!(batch.block_tags.is_empty());
    assert_eq!(batch.batch_weight_limits, None);
}

#[test]
fn insert_replaces_and_gives_previous_value() {
    let txn = dispatcher();
    let mut store = Store::new();
    let mut run = begin(&txn, &mut store, &[]);
    run_one(&txn, &mut run, &mut store, call("insert", kv("k", "old", 1)), text(None));
    run_one(&txn, &mut run, &mut store, call("insert", kv("k", "new", 2)), text(Some("old")));
    assert_eq!(store.get(b"k"), Some(b"new".to_vec()));
}

#[test]
fn executed_call_carries_its_tags() {
    let txn = dispatcher();
    let mut store = Store::new();
    let mut run = begin(&txn, &mut store, &[]);
    assert!(matches!(
        txn.execute_next(&mut run, &call("insert", kv("a", "1", 1)), &mut store),
        Step::Recorded
    ));
    assert!(matches!(
        txn.execute_next(&mut run, &call("get", key("a", 2)), &mut store),
        Step::Recorded
    ));
    let tags: Vec<(Vec<u8>, Vec<u8>)> =
        run.results[0].tags.iter().map(|t| (t.key.clone(), t.value.clone())).collect();
    assert_eq!(
        tags,
        vec![(b"kv_op".to_vec(), b"insert".to_vec()), (b"kv_key".to_vec(), b"a".to_vec())]
    );
    let tags: Vec<(Vec<u8>, Vec<u8>)> =
        run.results[1].tags.iter().map(|t| (t.key.clone(), t.value.clone())).collect();
    assert_eq!(
        tags,
        vec![(b"kv_op".to_vec(), b"get".to_vec()), (b"kv_key".to_vec(), b"a".to_vec())]
    );
    assert!(run.ctx.tags.is_empty());
}

#[test]
fn nonce_is_accepted_once_in_execute_mode() {
    let txn = dispatcher();
    let mut store = Store::new();
    let mut run = begin(&txn, &mut store, &[]);
    run_one(&txn, &mut run, &mut store, call("insert", kv("a", "1", 42)), text(None));
    run_one(&txn, &mut run, &mut store, call("insert", kv("b", "2", 42)), TxnOutput::Error(CallError::DuplicateNonce { nonce: 42 }));
    run_one(&txn, &mut run, &mut store, call("get", key("a", 42)), TxnOutput::Error(CallError::DuplicateNonce { nonce: 42 }));
    assert_eq!(store.get(b"b"), None);
    assert_eq!(
        store.get(&[0xFF, 0, 0, 0, 0, 0, 0, 0, 42]),
        Some(vec![0x01])
    );
}

#[test]
fn check_mode_sees_used_nonce_and_reserves_none() {
    let txn = dispatcher();
    let mut store = Store::new();
    let mut run = begin(&txn, &mut store, &[]);
    run_one(&txn, &mut run, &mut store, call("insert", kv("a", "1", 5)), text(None));
    let batch = vec![call("insert", kv("a", "2", 5)), call("insert", kv("a", "2", 6))];
    let results = txn.check_batch(7, RoundResults::new(), &batch, &mut store).unwrap();
    assert_eq!(results.len(), 2);
    assert_eq!(results[0].code, 1);
    assert_eq!(results[0].error, Some(CallError::DuplicateNonce { nonce: 5 }));
    assert_eq!(results[1].code, 0);
    assert_eq!(results[1].error, None);
    assert_eq!(store.get(&[0xFF, 0, 0, 0, 0, 0, 0, 0, 6]), None);
    assert_eq!(store.get(b"a"), Some(b"1".to_vec()));
}

#[test]
fn check_batch_twice_leaves_the_store_as_it_was() {
    let txn = dispatcher();
    let mut store = Store::new();
    store.insert(b"a", b"1");
    let batch = vec![
        call("insert", kv("a", "2", 1)),
        call("remove", key("a", 2)),
        call("consensus_transfer", CallArgs::Transfer(Transfer { nonce: 3, transfer: vec![9] })),
        call("enc_insert", kv("a", "2", 4)),
        call("consensus_accounts", CallArgs::Unit),
        call("get_runtime_id", CallArgs::Unit),
        call("nope", CallArgs::Unit),
    ];
    let first = txn.check_batch(7, RoundResults::resolving(&[0]), &batch, &mut store).unwrap();
    let second = txn.check_batch(7, RoundResults::resolving(&[0]), &batch, &mut store).unwrap();
    assert_eq!(first, second);
    assert_eq!(first.len(), 7);
    for r in &first[..6] {
        assert_eq!(r.code, 0);
        assert_eq!(r.error, None);
    }
    assert_eq!(first[6].code, 1);
    assert_eq!(first[6].error, Some(CallError::MethodNotFound { method: "nope".to_string() }));
    assert_eq!(store.get(b"a"), Some(b"1".to_vec()));
    assert_eq!(store.first_at_or_after(&[]), Some((b"a".to_vec(), b"1".to_vec())));
    assert_eq!(store.first_at_or_after(b"b"), None);
}

#[test]
fn transfer_ledger_scenario() {
    let txn = dispatcher();
    let mut store = Store::new();
    let mut run = begin(&txn, &mut store, &[]);
    let transfer = call(
        "consensus_transfer",
        CallArgs::Transfer(Transfer { nonce: 1, transfer: vec![1, 2, 3] }),
    );
    run_one(&txn, &mut run, &mut store, transfer, TxnOutput::Success(Output::Unit));
    assert_eq!(store.get(&[0x00, 0, 0, 0, 0]), Some(b"transfer".to_vec()));
    assert_eq!(
        store.first_at_or_after(&[0x00]),
        Some((vec![0x00, 0, 0, 0, 0], b"transfer".to_vec()))
    );
    let batch = txn.execute_finish(run).unwrap();
    assert_eq!(batch.messages.len(), 1);
    assert_eq!(batch.messages[0].kind, MessageKind::Transfer);
    assert_eq!(batch.messages[0].version, 0);
    assert_eq!(batch.messages[0].body, vec![1, 2, 3]);

    // The next round reports the message resolved.
    let run = begin(&txn, &mut store, &[0]);
    assert_eq!(store.get(&[0x00, 0, 0, 0, 0]), None);
    assert_eq!(store.first_at_or_after(&[0x00]).unwrap().0, vec![0x02]);
    assert!(txn.execute_finish(run).is_ok());

    // A further reconciliation with nothing resolved changes nothing.
    let run = begin(&txn, &mut store, &[]);
    assert_eq!(store.get(&[0x00, 0, 0, 0, 0]), None);
    assert_eq!(store.get(&[0x02]), Some(vec![0, 0, 0, 0, 0, 0, 0, 7]));
    assert!(txn.execute_finish(run).is_ok());
}

#[test]
fn messages_get_increasing_indices() {
    let txn = dispatcher();
    let mut store = Store::new();
    let mut run = begin(&txn, &mut store, &[]);
    let w = call("consensus_withdraw", CallArgs::Withdraw(Withdraw { nonce: 1, withdraw: vec![] }));
    let u = call(
        "update_runtime",
        CallArgs::UpdateRuntime(UpdateRuntime { nonce: 2, update_runtime: vec![5] }),
    );
    run_one(&txn, &mut run, &mut store, w, TxnOutput::Success(Output::Unit));
    run_one(&txn, &mut run, &mut store, u, TxnOutput::Success(Output::Unit));
    assert_eq!(store.get(&[0x00, 0, 0, 0, 0]), Some(b"withdraw".to_vec()));
    assert_eq!(store.get(&[0x00, 0, 0, 0, 1]), Some(b"update_runtime".to_vec()));
    let batch = txn.execute_finish(run).unwrap();
    assert_eq!(batch.messages[0].kind, MessageKind::Withdraw);
    assert_eq!(batch.messages[1].kind, MessageKind::UpdateRuntime);
}

#[test]
fn unresolved_message_is_fatal_at_the_next_round() {
    let txn = dispatcher();
    let mut store = Store::new();
    let mut run = begin(&txn, &mut store, &[]);
    let w = call("consensus_withdraw", CallArgs::Withdraw(Withdraw { nonce: 1, withdraw: vec![] }));
    run_one(&txn, &mut run, &mut store, w, TxnOutput::Success(Output::Unit));
    let r = txn.begin_execute(8, RoundResults::new(), &mut store);
    assert_eq!(
        r,
        Err(BatchError::Fatal(Fatal::LeftoverMetadata { key: vec![0x00, 0, 0, 0, 0] }))
    );
}

#[test]
fn resolved_message_without_record_is_fatal() {
    let txn = dispatcher();
    let mut store = Store::new();
    let r = txn.begin_execute(8, RoundResults::resolving(&[3]), &mut store);
    assert_eq!(
        r,
        Err(BatchError::Fatal(Fatal::UnexpectedMetadata { index: 3, metadata: None }))
    );
}

#[test]
fn message_resolved_twice_is_fatal() {
    let txn = dispatcher();
    let mut store = Store::new();
    store.insert(&[0x00, 0, 0, 0, 0], b"add_escrow");
    let r = txn.begin_execute(8, RoundResults::resolving(&[0, 0]), &mut store);
    assert_eq!(
        r,
        Err(BatchError::Fatal(Fatal::UnexpectedMetadata { index: 0, metadata: None }))
    );
    assert_eq!(store.get(&[0x00, 0, 0, 0, 0]), None);
}

#[test]
fn unrecognized_metadata_is_fatal() {
    let txn = dispatcher();
    let mut store = Store::new();
    store.insert(&[0x00, 0, 0, 0, 1], b"update_runtimes");
    let r = txn.begin_execute(8, RoundResults::resolving(&[1]), &mut store);
    assert_eq!(
        r,
        Err(BatchError::Fatal(Fatal::UnexpectedMetadata {
            index: 1,
            metadata: Some(b"update_runtimes".to_vec())
        }))
    );
}

#[test]
fn every_recognized_tag_reconciles() {
    let txn = dispatcher();
    let mut store = Store::new();
    store.insert(&[0x00, 0, 0, 0, 0], b"withdraw");
    store.insert(&[0x00, 0, 0, 0, 1], b"transfer");
    store.insert(&[0x00, 0, 0, 0, 2], b"add_escrow");
    store.insert(&[0x00, 0, 0, 0, 3], b"reclaim_escrow");
    store.insert(&[0x00, 0, 0, 0, 4], b"update_runtime");
    let run = begin(&txn, &mut store, &[3, 1, 4, 0, 2]);
    assert_eq!(run.ctx.epoch, 7);
    assert_eq!(store.first_at_or_after(&[0x00]).unwrap().0, vec![0x02]);
}

#[test]
fn value_too_big_is_rejected_after_the_nonce_is_reserved() {
    let txn = dispatcher();
    let mut store = Store::new();
    let mut run = begin(&txn, &mut store, &[]);
    let big = "x".repeat(129);
    run_one(&txn, &mut run, &mut store, call("insert", kv("a", &big, 9)), TxnOutput::Error(CallError::ValueTooBig));
    assert_eq!(store.get(b"a"), None);
    assert_eq!(store.get(&[0xFF, 0, 0, 0, 0, 0, 0, 0, 9]), Some(vec![0x01]));
    let fits = "x".repeat(128);
    run_one(&txn, &mut run, &mut store, call("insert", kv("a", &fits, 10)), text(None));
}

#[test]
fn unknown_method_and_malformed_input_fail_the_call_only() {
    let txn = dispatcher();
    let mut store = Store::new();
    let mut run = begin(&txn, &mut store, &[]);
    run_one(&txn, &mut run, &mut store, call("missing", CallArgs::Unit), TxnOutput::Error(CallError::MethodNotFound { method: "missing".to_string() }));
    run_one(
            &txn,
            &mut run,
            &mut store,
            call("get", CallArgs::Malformed { reason: "not a map".to_string() }), TxnOutput::Error(CallError::MalformedArguments { reason: "not a map".to_string() }));
    run_one(&txn, &mut run, &mut store, call("get", kv("a", "b", 1)), TxnOutput::Error(CallError::MalformedArguments { reason: String::new() }));
    run_one(&txn, &mut run, &mut store, BatchEntry::Malformed { reason: "eof".to_string() }, TxnOutput::Error(CallError::MalformedCall { reason: "eof".to_string() }));
    run_one(
            &txn,
            &mut run,
            &mut store,
            call("missing", CallArgs::Malformed { reason: "x".to_string() }), TxnOutput::Error(CallError::MethodNotFound { method: "missing".to_string() }));
    run_one(&txn, &mut run, &mut store, call("insert", kv("a", "1", 1)), text(None));
    assert_eq!(txn.execute_finish(run).unwrap().results.len(), 6);
}

#[test]
fn stored_bytes_that_are_no_text_give_an_error() {
    let txn = dispatcher();
    let mut store = Store::new();
    store.insert(b"a", &[0xC3, 0x28]);
    let mut run = begin(&txn, &mut store, &[]);
    run_one(&txn, &mut run, &mut store, call("get", key("a", 1)), TxnOutput::Error(CallError::InvalidUtf8));
    store.insert(b"b", "gr\u{fc}n".as_bytes());
    run_one(&txn, &mut run, &mut store, call("get", key("b", 2)), text(Some("gr\u{fc}n")));
}

#[test]
fn runtime_id_is_read_from_the_context() {
    let txn = dispatcher();
    let mut store = Store::new();
    let mut run = begin(&txn, &mut store, &[]);
    run_one(&txn, &mut run, &mut store, call("get_runtime_id", CallArgs::Unit), text(Some("8000000000000000")));
}

#[test]
fn only_a_call_that_reads_the_runtime_id_needs_one_installed() {
    let mut txn = MethodDispatcher::new();
    txn.add_method(method("insert", Handler::Insert));
    txn.add_method(method("get_runtime_id", Handler::GetRuntimeId));
    assert!(!txn.installs_runtime_id());
    assert!(txn.needs_runtime_id(&call("get_runtime_id", CallArgs::Unit)));
    assert!(!txn.needs_runtime_id(&call("get_runtime_id", key("a", 1))));
    assert!(!txn.needs_runtime_id(&call("insert", kv("a", "1", 1))));
    assert!(!txn.needs_runtime_id(&call("other", CallArgs::Unit)));
    assert!(!txn.needs_runtime_id(&BatchEntry::Malformed { reason: "eof".to_string() }));

    // Without an initializer, batches that do not read the identifier run.
    let mut store = Store::new();
    assert_eq!(txn.check_batch(1, RoundResults::new(), &vec![], &mut store), Ok(vec![]));
    let batch = vec![call("insert", kv("a", "1", 1)), call("get_runtime_id", key("a", 2))];
    let results = txn.check_batch(1, RoundResults::new(), &batch, &mut store).unwrap();
    assert_eq!(results[0].code, 0);
    assert_eq!(results[1].code, 1);
    assert_eq!(results[1].error, Some(CallError::MalformedArguments { reason: String::new() }));
    let mut run = begin(&txn, &mut store, &[]);
    run_one(&txn, &mut run, &mut store, call("insert", kv("a", "1", 1)), text(None));

    // Registered anew under the same name, the method is no longer reached.
    txn.add_method(method("get_runtime_id", Handler::ConsensusAccounts));
    assert!(!txn.needs_runtime_id(&call("get_runtime_id", CallArgs::Unit)));
    txn.set_context_initializer(ContextInitializer {
        runtime: RuntimeContext { test_runtime_id: "id".to_string() },
    });
    assert!(txn.installs_runtime_id());
}

#[test]
fn last_registration_wins() {
    let mut txn = MethodDispatcher::new();
    txn.add_method(method("op", Handler::Insert));
    assert_eq!(txn.args_kind(&"op".to_string()), Some(ArgsKind::KeyValue));
    txn.add_method(method("op", Handler::Get));
    assert_eq!(txn.args_kind(&"op".to_string()), Some(ArgsKind::Key));
    assert_eq!(txn.args_kind(&"other".to_string()), None);
    let mut store = Store::new();
    store.insert(b"a", b"1");
    let mut run = begin(&txn, &mut store, &[]);
    run_one(&txn, &mut run, &mut store, call("op", key("a", 1)), text(Some("1")));
}

#[test]
fn set_abort_flag_stops_the_batch() {
    let mut txn = dispatcher();
    let flag = Arc::new(AtomicBool::new(false));
    txn.set_abort_batch_flag(AbortFlag::shared(flag.clone()));
    let mut store = Store::new();
    let mut run = begin(&txn, &mut store, &[]);
    run_one(&txn, &mut run, &mut store, call("insert", kv("a", "1", 1)), text(None));
    flag.store(true, std::sync::atomic::Ordering::SeqCst);
    assert!(matches!(
        txn.execute_next(&mut run, &call("insert", kv("b", "2", 2)), &mut store),
        Step::Aborted
    ));
    assert!(!run.can_continue());
    assert_eq!(store.get(b"b"), None);
    assert_eq!(txn.execute_finish(run), Err(BatchError::Aborted));
    let batch = vec![call("get", key("a", 3))];
    assert_eq!(
        txn.check_batch(7, RoundResults::new(), &batch, &mut store),
        Err(BatchError::Aborted)
    );
    flag.store(false, std::sync::atomic::Ordering::SeqCst);
    assert!(txn.check_batch(7, RoundResults::new(), &batch, &mut store).is_ok());
}

#[test]
fn finalize_tells_only_where_a_finalizer_is_set() {
    let mut txn = MethodDispatcher::new();
    assert_eq!(txn.finalize(vec![1, 2]), None);
    txn.set_finalizer(Finalizer);
    assert_eq!(txn.finalize(vec![1, 2]), Some(vec![1, 2]));
}

#[test]
fn check_mode_start_does_not_reconcile() {
    let txn = dispatcher();
    let mut store = Store::new();
    store.insert(&[0x00, 0, 0, 0, 0], b"withdraw");
    let results = txn.check_batch(9, RoundResults::resolving(&[0]), &vec![], &mut store).unwrap();
    assert!(results.is_empty());
    assert_eq!(store.get(&[0x00, 0, 0, 0, 0]), Some(b"withdraw".to_vec()));
    assert_eq!(store.get(&[0x02]), None);
}

#[test]
fn encrypted_and_accounts_calls_wait_in_execute_mode() {
    let txn = dispatcher();
    let mut store = Store::new();
    let mut run = begin(&txn, &mut store, &[]);
    match txn.execute_next(&mut run, &call("enc_insert", kv("a", "1", 1)), &mut store) {
        Step::Waiting(Pending::Keys(c)) => {
            assert_eq!(c.op, EncryptedOp::Insert);
            assert_eq!(c.key, b"a".to_vec());
            assert_eq!(c.value, Some(b"1".to_vec()));
            assert_eq!(c.nonce, [0u8; 15]);
            assert_eq!(c.key_pair_id.len(), 32);
        }
        other => panic!("unexpected step: {:?}", other),
    }
    assert!(!run.can_continue());
    assert_eq!(store.get(&[0xFF, 0, 0, 0, 0, 0, 0, 0, 1]), Some(vec![0x01]));
    txn.complete(&mut run, Ok(Output::Text(None)));
    assert!(run.can_continue());
    match txn.execute_next(&mut run, &call("consensus_accounts", CallArgs::Unit), &mut store) {
        Step::Waiting(Pending::ConsensusAccounts) => {}
        other => panic!("unexpected step: {:?}", other),
    }
    txn.complete(
        &mut run,
        simple_keyvalue::methods::consensus_accounts_read(Err("no state".to_string())),
    );
    let batch = txn.execute_finish(run).unwrap();
    assert_eq!(batch.results.len(), 2);
    assert_eq!(batch.results[0].output, text(None));
    assert_eq!(
        batch.results[1].output,
        TxnOutput::Error(CallError::ConsensusState { reason: "no state".to_string() })
    );
    assert_eq!(
        simple_keyvalue::methods::consensus_accounts_read(Ok(vec![7])),
        Ok(Output::Accounts(vec![7]))
    );
}

#[test]
fn resolved_update_of_the_runtime_is_reconciled() {
    let txn = dispatcher();
    let mut store = Store::new();
    let mut run = begin(&txn, &mut store, &[]);
    let u = call(
        "update_runtime",
        CallArgs::UpdateRuntime(UpdateRuntime { nonce: 1, update_runtime: vec![5] }),
    );
    run_one(&txn, &mut run, &mut store, u, TxnOutput::Success(Output::Unit));
    assert_eq!(store.get(&[0x00, 0, 0, 0, 0]), Some(b"update_runtime".to_vec()));
    assert!(txn.execute_finish(run).is_ok());
    let run = begin(&txn, &mut store, &[0]);
    assert_eq!(store.get(&[0x00, 0, 0, 0, 0]), None);
    assert!(txn.execute_finish(run).is_ok());
}

#[test]
fn leftover_behind_another_key_of_the_namespace_is_fatal() {
    let txn = dispatcher();
    let mut store = Store::new();
    let mut run = begin(&txn, &mut store, &[]);
    // A plain key of one zero byte sorts before every ledger record.
    run_one(&txn, &mut run, &mut store, call("insert", kv("\u{0}", "x", 1)), text(None));
    let transfer = call(
        "consensus_transfer",
        CallArgs::Transfer(Transfer { nonce: 2, transfer: vec![1] }),
    );
    run_one(&txn, &mut run, &mut store, transfer, TxnOutput::Success(Output::Unit));
    assert!(txn.execute_finish(run).is_ok());
    assert_eq!(store.get(&[0x00]), Some(b"x".to_vec()));
    assert_eq!(store.get(&[0x00, 0, 0, 0, 0]), Some(b"transfer".to_vec()));
    let r = txn.begin_execute(8, RoundResults::new(), &mut store);
    assert_eq!(
        r,
        Err(BatchError::Fatal(Fatal::LeftoverMetadata { key: vec![0x00, 0, 0, 0, 0] }))
    );
    // With the message reported resolved the batch starts.
    let run = begin(&txn, &mut store, &[0]);
    assert_eq!(store.get(&[0x00]), Some(b"x".to_vec()));
    assert!(txn.execute_finish(run).is_ok());
}

#[test]
fn polled_flag_decides_whether_an_entry_is_executed() {
    let txn = dispatcher();
    let mut store = Store::new();
    let mut run = begin(&txn, &mut store, &[]);
    assert!(matches!(
        txn.execute_polled(false, &mut run, &call("insert", kv("a", "1", 1)), &mut store),
        Step::Recorded
    ));
    assert_eq!(store.get(b"a"), Some(b"1".to_vec()));
    assert!(matches!(
        txn.execute_polled(true, &mut run, &call("insert", kv("b", "2", 2)), &mut store),
        Step::Aborted
    ));
    assert!(run.aborted);
    assert_eq!(run.results.len(), 1);
    assert_eq!(store.get(b"b"), None);
    assert_eq!(store.get(&[0xFF, 0, 0, 0, 0, 0, 0, 0, 2]), None);
    assert_eq!(txn.execute_finish(run), Err(BatchError::Aborted));
}

#[test]
fn polled_flag_decides_whether_an_entry_is_checked() {
    let txn = dispatcher();
    let mut store = Store::new();
    store.insert(&[0xFF, 0, 0, 0, 0, 0, 0, 0, 5], &[1]);
    let mut ctx = simple_keyvalue::context::TxnContext::new(1, true, RoundResults::new());
    assert_eq!(txn.check_polled(true, &call("insert", kv("a", "1", 5)), &mut ctx, &mut store), None);
    let checked = txn
        .check_polled(false, &call("insert", kv("a", "1", 5)), &mut ctx, &mut store)
        .unwrap();
    assert_eq!(checked.code, 1);
    assert_eq!(checked.error, Some(CallError::DuplicateNonce { nonce: 5 }));
    let checked = txn
        .check_polled(false, &call("insert", kv("a", "1", 6)), &mut ctx, &mut store)
        .unwrap();
    assert_eq!(checked.code, 0);
    assert_eq!(checked.error, None);
    assert_eq!(store.len(), 1);
}

#[test]
fn batch_without_entries_ends_even_with_the_flag_set() {
    let mut txn = dispatcher();
    let flag = Arc::new(AtomicBool::new(true));
    txn.set_abort_batch_flag(AbortFlag::shared(flag.clone()));
    let mut store = Store::new();
    assert_eq!(txn.check_batch(1, RoundResults::new(), &vec![], &mut store), Ok(vec![]));
    let mut run = begin(&txn, &mut store, &[]);
    let batch = vec![call("insert", kv("a", "1", 1))];
    assert_eq!(
        txn.execute_batch(&mut run, &batch, 1, &mut store),
        (1, simple_keyvalue::dispatcher::BatchProgress::Finished)
    );
    assert!(txn.execute_finish(run).is_ok());
    let mut run = begin(&txn, &mut store, &[]);
    assert_eq!(
        txn.execute_batch(&mut run, &batch, 0, &mut store),
        (0, simple_keyvalue::dispatcher::BatchProgress::Aborted)
    );
    assert!(AbortFlag::shared(flag).is_set());
    assert!(!AbortFlag::none().is_set());
}

#[test]
fn error_texts() {
    let text = |e: CallError| e.message();
    assert_eq!(text(CallError::CheckOnlySuccess), "transaction check successful");
    assert_eq!(
        text(CallError::MalformedCall { reason: "eof".to_string() }),
        "unable to parse call: eof"
    );
    assert_eq!(
        text(CallError::MethodNotFound { method: "foo".to_string() }),
        "method not found: \"foo\""
    );
    assert_eq!(
        text(CallError::MethodNotFound { method: "a\"b\n".to_string() }),
        "method not found: \"a\\\"b\\n\""
    );
    assert_eq!(
        text(CallError::MalformedArguments { reason: "not a map".to_string() }),
        "unable to parse call arguments: not a map"
    );
    assert_eq!(text(CallError::DuplicateNonce { nonce: 0 }), "Duplicate nonce: 0");
    assert_eq!(text(CallError::DuplicateNonce { nonce: 7 }), "Duplicate nonce: 7");
    assert_eq!(text(CallError::DuplicateNonce { nonce: 10 }), "Duplicate nonce: 10");
    assert_eq!(text(CallError::DuplicateNonce { nonce: 1905 }), "Duplicate nonce: 1905");
    assert_eq!(
        text(CallError::DuplicateNonce { nonce: u64::MAX }),
        "Duplicate nonce: 18446744073709551615"
    );
    assert_eq!(text(CallError::ValueTooBig), "Value too big to be inserted.");
    assert_eq!(text(CallError::InvalidUtf8), "invalid utf-8 sequence");
    assert_eq!(text(CallError::KeyManager { reason: "no keys".to_string() }), "no keys");
    assert_eq!(text(CallError::ConsensusState { reason: "no state".to_string() }), "no state");
    assert_eq!(simple_keyvalue::text::decimal(1234567890), "1234567890");
}

#[test]
fn resolving_reports_success_for_every_index() {
    let results = RoundResults::resolving(&[4, 0]);
    assert_eq!(results.messages.len(), 2);
    for event in &results.messages {
        assert_eq!(event.code, 0);
        assert_eq!(event.module, "");
    }
    assert_eq!(results.messages[0].index, 4);
    assert_eq!(results.messages[1].index, 0);
    assert!(RoundResults::new().messages.is_empty());
}
