use interop_relayer::abi::{
    encode_interop_message, encode_interop_transaction, InteropMessage, InteropTransaction,
};
use interop_relayer::assoc::AliasKey;
use interop_relayer::chain::InteropChain;
use interop_relayer::materializer::MaterializeError;
use interop_relayer::message::{EventLog, InteropMessageParsed};
use interop_relayer::orchestrator::{handle_interop_log, handle_type_c_message, MaterializeOutcome};
use interop_relayer::store::MessageStore;
use interop_relayer::words::{Address, B256, U256};

fn addr(tail: u32) -> Address {
    Address { a0: 0, a1: 0, a2: tail }
}

fn hash(tail: u64) -> B256 {
    B256 { w0: 0, w1: 0, w2: 0, w3: tail }
}

fn chain(id: u64, interop: Address) -> InteropChain {
    InteropChain {
        chain_id: id,
        interop_address: interop,
        base_token_price: 200_000,
        tokens_for_paymaster: 1_000,
        trusted_sources: vec![],
        preferred_paymasters: vec![],
        received_messages: vec![],
        executed_bundles: vec![],
        deployed_accounts: vec![],
        balances: vec![],
        paymaster_tokens: vec![],
        aliased_accounts: vec![],
        bridge_remote: vec![],
        bridge_nominator: vec![],
        bridge_denominator: vec![],
    }
}

fn topic_for_sender(sender: &Address) -> B256 {
    let mut bytes = vec![0u8; 12];
    let mut tail: Vec<u8> = Vec::new();
    sender.push_to(&mut tail);
    bytes.extend_from_slice(&tail);
    B256::read_from(&bytes, 0)
}

fn log_with_body(center: Address, msg_hash: B256, sender: Address, body: Vec<u8>) -> EventLog {
    let message = InteropMessage {
        data: body,
        sender,
        source_chain_id: U256::from_u64(1),
        message_num: U256::from_u64(5),
    };
    let payload = encode_interop_message(&message);
    let mut data = vec![0u8; 64];
    data.extend_from_slice(&payload);
    EventLog { address: center, topics: vec![hash(0xaaaa), msg_hash, topic_for_sender(&sender)], data }
}

fn sample_tx(fees: B256) -> InteropTransaction {
    InteropTransaction {
        source_chain_sender: addr(0xbeef),
        destination_chain: U256::from_u64(2),
        gas_limit: U256::from_u64(30_000_000),
        gas_price: U256::from_u64(250_000_000),
        value: U256::from_u64(0),
        bundle_hash: hash(77),
        fees_bundle_hash: fees,
        destination_paymaster: addr(0xfee),
        destination_paymaster_input: vec![],
    }
}

fn type_c_message(center: Address, fees: B256) -> InteropMessageParsed {
    let mut body = vec![2u8];
    body.extend_from_slice(&encode_interop_transaction(&sample_tx(fees)));
    InteropMessageParsed::from_log(&log_with_body(center, hash(0xc0), center, body), 1).unwrap()
}

struct Setup {
    chains: Vec<InteropChain>,
    store: MessageStore,
    msg: InteropMessageParsed,
    aliased: Address,
}

fn setup(fees: B256) -> Setup {
    let center1 = addr(0x1c);
    let center2 = addr(0x2c);
    let origin = chain(1, center1);
    let mut dest = chain(2, center2);
    let aliased = addr(0xa11a);
    dest.aliased_accounts = vec![(
        AliasKey { source_chain_id: U256::from_u64(1), source_account: addr(0xbeef) },
        aliased,
    )];
    let mut store = MessageStore::new();
    let bundle = InteropMessageParsed::from_log(
        &log_with_body(center1, hash(77), addr(0xdd), vec![41]),
        1,
    )
    .unwrap();
    store.insert(bundle);
    if !(fees == B256 { w0: 0, w1: 0, w2: 0, w3: 0 }) {
        let fee_bundle = InteropMessageParsed::from_log(
            &log_with_body(center1, fees, addr(0xdd), vec![42]),
            1,
        )
        .unwrap();
        store.insert(fee_bundle);
    }
    let msg = type_c_message(center2, fees);
    Setup { chains: vec![origin, dest], store, msg, aliased }
}

fn zero() -> B256 {
    B256 { w0: 0, w1: 0, w2: 0, w3: 0 }
}

#[test]
fn warm_aliased_account_submits_without_deploy() {
    let mut s = setup(zero());
    s.chains[1].deployed_accounts = vec![s.aliased];
    let deployed_before = s.chains[1].deployed_accounts.clone();
    let (dest, req) = s
        .msg
        .create_transaction_request(&mut s.chains, &s.store)
        .expect("materializes");
    assert_eq!(dest, 2);
    // no deployAliasedAccount call
    assert_eq!(s.chains[1].deployed_accounts, deployed_before);
    // the specified gas parameters are carried over
    assert_eq!(req.gas_limit, 30_000_000);
    assert_eq!(req.max_fee_per_gas, 250_000_000);
    assert_eq!(req.max_priority_fee_per_gas, 250_000_000);
    assert_eq!(req.gas_per_pubdata, 50_000);
    assert_eq!(req.from, s.aliased);
    assert_eq!(req.to, addr(0x2c));
    assert_eq!(req.paymaster, addr(0xfee));
    assert!(req.paymaster_input.is_empty());
}

#[test]
fn cold_aliased_account_is_deployed_first() {
    let mut s = setup(zero());
    assert!(s.chains[1].deployed_accounts.is_empty());
    let (_, req) = s
        .msg
        .create_transaction_request(&mut s.chains, &s.store)
        .expect("materializes");
    // deployAliasedAccount was awaited before the submission
    assert!(s.chains[1].deployed_accounts.contains(&s.aliased));
    assert_eq!(req.from, s.aliased);
    // the paymaster was funded to its target: a refill is now a no-op
    assert_eq!(s.chains[1].refill_paymaster(&addr(0xfee)), None);
}

#[test]
fn fee_bundle_fills_the_paymaster_input() {
    let fees = hash(78);
    let mut s = setup(fees);
    let expected = {
        let fee_msg = s.store.get(&fees).unwrap();
        encode_interop_message(&fee_msg.interop_message)
    };
    let (_, req) = s
        .msg
        .create_transaction_request(&mut s.chains, &s.store)
        .expect("materializes");
    assert_eq!(req.paymaster_input, expected);
}

#[test]
fn rerun_after_crash_skips_executed_bundle() {
    let mut s = setup(zero());
    s.chains[1].executed_bundles = vec![hash(77)];
    let before = s.chains[1].deployed_accounts.clone();
    let r = s.msg.create_transaction_request(&mut s.chains, &s.store);
    assert_eq!(r.err(), Some(MaterializeError::AlreadyExecuted));
    // no submission and no on-chain write
    assert_eq!(s.chains[1].deployed_accounts, before);
    assert!(s.chains[1].balances.is_empty());
}

#[test]
fn executed_fee_bundle_also_skips() {
    let fees = hash(78);
    let mut s = setup(fees);
    s.chains[1].executed_bundles = vec![fees];
    let r = s.msg.create_transaction_request(&mut s.chains, &s.store);
    assert_eq!(r.err(), Some(MaterializeError::AlreadyExecuted));
}

#[test]
fn missing_bundle_is_a_missing_dependency() {
    let mut s = setup(zero());
    let empty_store = MessageStore::new();
    let r = s.msg.create_transaction_request(&mut s.chains, &empty_store);
    assert_eq!(r.err(), Some(MaterializeError::MissingDependency));
}

#[test]
fn missing_fee_bundle_is_a_missing_dependency() {
    let fees = hash(78);
    let mut s = setup(zero());
    // store has the bundle but not the fee bundle this message references
    let msg = type_c_message(addr(0x2c), fees);
    let r = msg.create_transaction_request(&mut s.chains, &s.store);
    assert_eq!(r.err(), Some(MaterializeError::MissingDependency));
}

#[test]
fn unknown_destination_is_reported() {
    let mut s = setup(zero());
    s.chains.remove(1);
    let r = s.msg.create_transaction_request(&mut s.chains, &s.store);
    assert_eq!(r.err(), Some(MaterializeError::UnknownDestination));
}

#[test]
fn garbled_payload_is_a_decode_error() {
    let mut s = setup(zero());
    let center2 = addr(0x2c);
    let mut body = vec![2u8];
    body.extend_from_slice(&[1, 2, 3]);
    let msg = InteropMessageParsed::from_log(
        &log_with_body(center2, hash(0xc1), center2, body),
        1,
    )
    .unwrap();
    assert!(msg.is_type_c());
    let r = msg.create_transaction_request(&mut s.chains, &s.store);
    assert_eq!(r.err(), Some(MaterializeError::Decode));
}

#[test]
fn successful_handling_marks_the_bundle_executed() {
    let mut s = setup(zero());
    let r = handle_type_c_message(&s.msg, &mut s.chains, &s.store);
    assert!(r.is_ok());
    // after the handler completes without error, the destination has the
    // bundle marked executed
    assert!(s.chains[1].is_bundle_executed(&hash(77)));
    assert!(!s.chains[0].is_bundle_executed(&hash(77)));
}

#[test]
fn pipeline_forwards_materializes_and_stores() {
    let mut s = setup(zero());
    let center2 = addr(0x2c);
    let mut body = vec![2u8];
    body.extend_from_slice(&encode_interop_transaction(&sample_tx(zero())));
    let log = log_with_body(center2, hash(0xc0), center2, body);
    let mut store = s.store;
    let report = handle_interop_log(&log, 1, &mut s.chains, &mut store).expect("handled");
    // forwarded to both chains, materialized, and stored
    assert_eq!(report.forwarded_to, vec![1, 2]);
    match report.outcome {
        MaterializeOutcome::Submitted(dest, _) => assert_eq!(dest, 2),
        _ => panic!("expected a submission"),
    }
    assert!(store.get(&hash(0xc0)).is_some());
    assert!(s.chains[0].is_message_received(&hash(0xc0)));
    assert!(s.chains[1].is_message_received(&hash(0xc0)));
    assert!(s.chains[1].is_bundle_executed(&hash(77)));
}
