use eth2near_relay::gateway::{
    Action, EthClientContract, Event, Failure, RelayError, Stage, SubmissionMode,
};
use eth2near_relay::transaction::{UnsignedTransaction, GAS_PER_CALL, ONE_NEAR, REGISTRATION_DEPOSIT};

fn gateway(last_slot: u64, mode: SubmissionMode) -> EthClientContract {
    EthClientContract::new("client.testnet".to_string(), "relay.testnet".to_string(), last_slot, mode)
}

fn expect_persist(a: Action) -> (Vec<u8>, Vec<u8>) {
    match a {
        Action::Persist { key, body } => (key, body),
        other => panic!("expected Persist, got {:?}", other),
    }
}

fn expect_broadcast(a: Action) -> UnsignedTransaction {
    match a {
        Action::Broadcast(tx) => tx,
        other => panic!("expected Broadcast, got {:?}", other),
    }
}

fn expect_finished(a: Action) -> Result<(), RelayError> {
    match a {
        Action::Finished(r) => r,
        other => panic!("expected Finished, got {:?}", other),
    }
}

fn observed(nonce: u64) -> Event {
    Event::NonceObserved { nonce, block_hash: [7u8; 32] }
}

fn headers(n: usize) -> Vec<Vec<u8>> {
    (0..n).map(|i| vec![i as u8, (i * 3) as u8]).collect()
}

#[test]
fn batch_of_headers_is_one_transaction_in_order() {
    let mut g = gateway(99, SubmissionMode::AtomicBatch);
    let hs = headers(51);
    let (key, _body) = expect_persist(g.send_headers(&hs, 100, 150));
    assert_eq!(key, b"headers_slots_100_150".to_vec());
    assert!(matches!(g.on_event(Event::Persisted), Action::QueryNonce));
    let tx = expect_broadcast(g.on_event(observed(41)));
    assert_eq!(tx.nonce, 42);
    assert_eq!(tx.block_hash, [7u8; 32]);
    assert_eq!(tx.signer_id, "relay.testnet");
    assert_eq!(tx.receiver_id, "client.testnet");
    assert_eq!(tx.actions.len(), 51);
    for (call, h) in tx.actions.iter().zip(hs.iter()) {
        assert_eq!(call.method_name, "submit_header");
        assert_eq!(&call.args, h);
        assert_eq!(call.gas, GAS_PER_CALL);
        assert_eq!(call.deposit, 0);
    }
    assert_eq!(g.get_last_submitted_slot(), 99);
    assert_eq!(expect_finished(g.on_event(Event::Committed)), Ok(()));
    assert_eq!(g.get_last_submitted_slot(), 150);
    assert_eq!(g.stage, Stage::Idle);
}

#[test]
fn broadcast_failure_keeps_last_slot() {
    let mut g = gateway(150, SubmissionMode::AtomicBatch);
    expect_persist(g.send_headers(&headers(3), 151, 200));
    g.on_event(Event::Persisted);
    expect_broadcast(g.on_event(observed(5)));
    assert_eq!(expect_finished(g.on_event(Event::Failed(Failure::Rpc))), Err(RelayError::Rpc));
    assert_eq!(g.get_last_submitted_slot(), 150);
    assert_eq!(g.stage, Stage::Idle);
}

#[test]
fn chain_rejection_keeps_last_slot_and_passes_diagnostic() {
    let mut g = gateway(150, SubmissionMode::AtomicBatch);
    expect_persist(g.send_headers(&headers(2), 151, 200));
    g.on_event(Event::Persisted);
    expect_broadcast(g.on_event(observed(5)));
    let r = expect_finished(g.on_event(Event::Failed(Failure::Rejected("bad parent".to_string()))));
    assert_eq!(r, Err(RelayError::ChainRejection("bad parent".to_string())));
    assert_eq!(g.get_last_submitted_slot(), 150);
}

#[test]
fn nonce_conflict_is_reported() {
    let mut g = gateway(0, SubmissionMode::AtomicBatch);
    g.register();
    expect_broadcast(g.on_event(observed(5)));
    let r = expect_finished(g.on_event(Event::Failed(Failure::NonceConflict)));
    assert_eq!(r, Err(RelayError::NonceConflict));
}

#[test]
fn empty_batch_is_a_no_op() {
    let mut g = gateway(10, SubmissionMode::AtomicBatch);
    assert_eq!(expect_finished(g.send_headers(&vec![], 10, 10)), Ok(()));
    assert_eq!(g.stage, Stage::Idle);
    assert!(g.queue.is_empty());
    assert_eq!(g.get_last_submitted_slot(), 10);
}

#[test]
fn persistence_failure_stops_before_network() {
    let mut g = gateway(0, SubmissionMode::AtomicBatch);
    expect_persist(g.send_headers(&headers(2), 1, 2));
    let r = expect_finished(g.on_event(Event::PersistFailed));
    assert_eq!(r, Err(RelayError::Persistence));
    assert_eq!(g.stage, Stage::Idle);
    assert!(g.queue.is_empty());
    assert_eq!(g.get_last_submitted_slot(), 0);
}

#[test]
fn second_submission_while_busy_is_refused() {
    let mut g = gateway(0, SubmissionMode::AtomicBatch);
    expect_persist(g.send_headers(&headers(2), 1, 2));
    assert_eq!(expect_finished(g.send_headers(&headers(1), 3, 3)), Err(RelayError::Busy));
    assert_eq!(expect_finished(g.register()), Err(RelayError::Busy));
    assert_eq!(g.stage, Stage::Persisting);
}

#[test]
fn event_without_submission_is_unexpected() {
    let mut g = gateway(0, SubmissionMode::AtomicBatch);
    assert_eq!(expect_finished(g.on_event(Event::Committed)), Err(RelayError::UnexpectedEvent));
    let mut g = gateway(0, SubmissionMode::AtomicBatch);
    expect_persist(g.send_headers(&headers(1), 1, 1));
    assert_eq!(expect_finished(g.on_event(Event::Committed)), Err(RelayError::UnexpectedEvent));
    assert_eq!(g.stage, Stage::Idle);
}

#[test]
fn exhausted_nonce_is_reported() {
    let mut g = gateway(0, SubmissionMode::AtomicBatch);
    g.register();
    let r = expect_finished(g.on_event(observed(u64::MAX)));
    assert_eq!(r, Err(RelayError::NonceExhausted));
}

#[test]
fn sequential_mode_sends_one_transaction_per_header() {
    let mut g = gateway(0, SubmissionMode::Sequential);
    let hs = headers(2);
    expect_persist(g.send_headers(&hs, 1, 2));
    g.on_event(Event::Persisted);
    let first = expect_broadcast(g.on_event(observed(10)));
    assert_eq!(first.nonce, 11);
    assert_eq!(first.actions.len(), 1);
    assert_eq!(first.actions[0].args, hs[0]);
    assert!(matches!(g.on_event(Event::Committed), Action::QueryNonce));
    assert_eq!(g.get_last_submitted_slot(), 0);
    let second = expect_broadcast(g.on_event(observed(11)));
    assert_eq!(second.nonce, 12);
    assert_eq!(second.actions[0].args, hs[1]);
    assert_eq!(expect_finished(g.on_event(Event::Committed)), Ok(()));
    assert_eq!(g.get_last_submitted_slot(), 2);
}

#[test]
fn register_bonds_ten_near_with_json_args() {
    let mut g = gateway(0, SubmissionMode::AtomicBatch);
    assert!(matches!(g.register(), Action::QueryNonce));
    let tx = expect_broadcast(g.on_event(observed(0)));
    assert_eq!(tx.actions.len(), 1);
    assert_eq!(tx.actions[0].method_name, "register_submitter");
    assert_eq!(tx.actions[0].args, br#"{"account_id":"relay.testnet"}"#.to_vec());
    assert_eq!(tx.actions[0].deposit, 10 * ONE_NEAR);
    assert_eq!(REGISTRATION_DEPOSIT, 10_000_000_000_000_000_000_000_000);
    assert_eq!(expect_finished(g.on_event(Event::Committed)), Ok(()));
}

#[test]
fn register_escapes_account_id() {
    let mut g = EthClientContract::new("c".to_string(), "a\"b".to_string(), 0, SubmissionMode::AtomicBatch);
    g.register();
    let tx = expect_broadcast(g.on_event(observed(0)));
    assert_eq!(tx.actions[0].args, br#"{"account_id":"a\"b"}"#.to_vec());
}

#[test]
fn init_encodes_genesis_and_parameters() {
    let mut g = gateway(0, SubmissionMode::AtomicBatch);
    let a = g.init_contract("kiln", &vec![1, 2], &vec![3], &vec![4], &vec![5, 6], false);
    assert!(matches!(a, Action::QueryNonce));
    let tx = expect_broadcast(g.on_event(observed(3)));
    assert_eq!(tx.actions[0].method_name, "init");
    let mut expected: Vec<u8> = vec![4, 0, 0, 0];
    expected.extend_from_slice(b"kiln");
    expected.extend_from_slice(&[1, 2, 3, 4, 5, 6]);
    expected.extend_from_slice(&[1, 0]);
    expected.extend_from_slice(&51000u64.to_le_bytes());
    expected.extend_from_slice(&8000u32.to_le_bytes());
    expected.push(0);
    assert_eq!(tx.actions[0].args, expected);
    assert_eq!(tx.actions[0].deposit, 0);
}

#[test]
fn init_then_update_advances_period_once() {
    let mut g = gateway(0, SubmissionMode::AtomicBatch);
    assert_eq!(g.get_last_period(), 0);
    g.init_contract("mainnet", &vec![1], &vec![2], &vec![3], &vec![4], true);
    expect_broadcast(g.on_event(observed(0)));
    assert_eq!(expect_finished(g.on_event(Event::Committed)), Ok(()));
    assert_eq!(g.get_last_period(), 0);

    let update = vec![9, 8, 7];
    let (key, body) = expect_persist(g.send_light_client_update(&update, 1, 8200));
    assert_eq!(key, b"light_client_update_period_1_attested_slot_8200".to_vec());
    assert_eq!(body, br#""090807""#.to_vec());
    g.on_event(Event::Persisted);
    let tx = expect_broadcast(g.on_event(observed(1)));
    assert_eq!(tx.nonce, 2);
    assert_eq!(tx.actions[0].method_name, "submit_update");
    assert_eq!(tx.actions[0].args, update);
    assert_eq!(expect_finished(g.on_event(Event::Committed)), Ok(()));
    assert_eq!(g.get_last_period(), 1);

    let again = g.send_light_client_update(&update, 1, 8200);
    assert_eq!(expect_finished(again), Err(RelayError::Consistency));
    assert_eq!(g.get_last_period(), 1);
    assert_eq!(g.stage, Stage::Idle);
}

#[test]
fn update_skipping_a_period_is_refused() {
    let mut g = gateway(8192 * 3, SubmissionMode::AtomicBatch);
    assert_eq!(g.get_last_period(), 2);
    assert_eq!(expect_finished(g.send_light_client_update(&vec![1], 4, 0)), Err(RelayError::Consistency));
    expect_persist(g.send_light_client_update(&vec![1], 3, 0));
}

#[test]
fn known_block_query_and_answer() {
    let g = gateway(0, SubmissionMode::AtomicBatch);
    let mut hash = [0u8; 32];
    hash[0] = 0xaa;
    hash[31] = 0x01;
    let q = g.is_known_block_query(&hash);
    assert_eq!(q.method_name, "is_known_execution_header");
    assert_eq!(q.receiver_id, "client.testnet");
    assert_eq!(q.args, hash.to_vec());
    assert_eq!(g.is_known_block(&vec![1]), Ok(true));
    assert_eq!(g.is_known_block(&vec![0]), Ok(false));
    assert_eq!(g.is_known_block(&vec![2]), Err(RelayError::Decode));
    assert_eq!(g.is_known_block(&vec![]), Err(RelayError::Decode));
    assert_eq!(g.is_known_block(&vec![1, 0]), Err(RelayError::Decode));
}

#[test]
fn finalized_hash_query_and_answer() {
    let g = gateway(0, SubmissionMode::AtomicBatch);
    let q = g.finalized_beacon_block_hash_query();
    assert_eq!(q.method_name, "finalized_beacon_block_root");
    assert_eq!(q.args, b"{}".to_vec());
    let root: Vec<u8> = (0..32).collect();
    let h = g.get_finalized_beacon_block_hash(&root).unwrap();
    assert_eq!(h.to_vec(), root);
    assert_eq!(g.get_finalized_beacon_block_hash(&vec![0; 31]), Err(RelayError::Decode));
    assert_eq!(g.get_finalized_beacon_block_hash(&vec![0; 33]), Err(RelayError::Decode));
}

#[test]
fn finalized_header_root_comparison() {
    let g = gateway(0, SubmissionMode::AtomicBatch);
    let q = g.finalized_header_root_query();
    assert_eq!(q.method_name, "finalized_beacon_header_root");
    let root = [5u8; 32];
    assert_eq!(g.is_last_finalized_header_root(&root, &vec![5; 32]), Ok(true));
    let mut other = vec![5u8; 32];
    other[31] = 6;
    assert_eq!(g.is_last_finalized_header_root(&root, &other), Ok(false));
    assert_eq!(g.is_last_finalized_header_root(&root, &vec![5; 3]), Err(RelayError::Decode));
}

#[test]
fn update_beyond_slot_period_is_refused() {
    let mut g = gateway(0, SubmissionMode::AtomicBatch);
    expect_persist(g.send_light_client_update(&vec![1], 1, 0));
    g.on_event(Event::Persisted);
    expect_broadcast(g.on_event(observed(0)));
    assert_eq!(expect_finished(g.on_event(Event::Committed)), Ok(()));
    assert_eq!(g.get_last_period(), 1);
    let r = expect_finished(g.send_light_client_update(&vec![2], 2, 0));
    assert_eq!(r, Err(RelayError::Consistency));
    assert_eq!(g.get_last_period(), 1);
    assert_eq!(g.stage, Stage::Idle);

    // once headers reach period 1, the update for period 2 is in reach
    expect_persist(g.send_headers(&headers(1), 8192, 8192));
    g.on_event(Event::Persisted);
    expect_broadcast(g.on_event(observed(1)));
    assert_eq!(expect_finished(g.on_event(Event::Committed)), Ok(()));
    expect_persist(g.send_light_client_update(&vec![2], 2, 8192));
}

#[test]
fn headers_moving_last_slot_back_are_refused() {
    let mut g = gateway(200, SubmissionMode::AtomicBatch);
    let r = expect_finished(g.send_headers(&headers(2), 40, 50));
    assert_eq!(r, Err(RelayError::Consistency));
    assert_eq!(g.get_last_submitted_slot(), 200);
    assert_eq!(g.stage, Stage::Idle);
    assert!(g.queue.is_empty());
    expect_persist(g.send_headers(&headers(1), 200, 200));
}

#[test]
fn headers_range_out_of_order_is_refused() {
    let mut g = gateway(0, SubmissionMode::AtomicBatch);
    let r = expect_finished(g.send_headers(&headers(2), 20, 10));
    assert_eq!(r, Err(RelayError::Consistency));
    assert_eq!(g.stage, Stage::Idle);
}
