use interop_relayer::abi::{encode_interop_message, InteropMessage};
use interop_relayer::bootstrap::bootstrap_all;
use interop_relayer::chain::{has_chain_id_collision, tokens_for_paymaster_units, InteropChain};
use interop_relayer::forward::handle_type_a_message;
use interop_relayer::message::{EventLog, InteropMessageParsed};
use interop_relayer::store::MessageStore;
use interop_relayer::words::{Address, B256, U256};

fn addr(tail: u32) -> Address {
    Address { a0: 0, a1: 0, a2: tail }
}

fn hash(tail: u64) -> B256 {
    B256 { w0: 0, w1: 0, w2: 0, w3: tail }
}

fn chain(id: u64, interop: Address) -> InteropChain {
    InteropChain {
        chain_id: id,
        interop_address: interop,
        base_token_price: 200_000,
        tokens_for_paymaster: 10_000_000_000_000_000,
        trusted_sources: vec![],
        preferred_paymasters: vec![],
        received_messages: vec![],
        executed_bundles: vec![],
        deployed_accounts: vec![],
        balances: vec![],
        paymaster_tokens: vec![],
        aliased_accounts: vec![],
        bridge_remote: vec![],
        bridge_nominator: vec![],
        bridge_denominator: vec![],
    }
}

fn topic_for_sender(sender: &Address) -> B256 {
    let mut bytes = vec![0u8; 12];
    let mut tail: Vec<u8> = Vec::new();
    sender.push_to(&mut tail);
    bytes.extend_from_slice(&tail);
    B256::read_from(&bytes, 0)
}

fn event_log(center: Address, msg_hash: B256, sender: Address, body: Vec<u8>) -> EventLog {
    let message = InteropMessage {
        data: body,
        sender,
        source_chain_id: U256::from_u64(1),
        message_num: U256::from_u64(5),
    };
    let payload = encode_interop_message(&message);
    let mut data = vec![0u8; 64];
    data.extend_from_slice(&payload);
    EventLog { address: center, topics: vec![hash(0xaaaa), msg_hash, topic_for_sender(&sender)], data }
}

#[test]
fn parse_and_classify() {
    let center = addr(0xcc);
    let user = addr(0xdd);
    // a user message carries no tag semantics: plain type A
    let log = event_log(center, hash(1), user, vec![2, 9, 9]);
    let parsed = InteropMessageParsed::from_log(&log, 7).expect("parses");
    assert_eq!(parsed.chain_id, 7);
    assert_eq!(parsed.msg_hash, hash(1));
    assert_eq!(parsed.sender, user);
    assert_eq!(parsed.interop_center_sender, center);
    // the emitting contract is not the sender: strictly type A
    assert!(!parsed.is_type_b());
    assert!(!parsed.is_type_c());
    // the center itself as sender, tagged 1 and 2
    let log_b = event_log(center, hash(2), center, vec![1]);
    let parsed_b = InteropMessageParsed::from_log(&log_b, 7).expect("parses");
    assert!(parsed_b.is_type_b());
    assert!(!parsed_b.is_type_c());
    let log_c = event_log(center, hash(3), center, vec![2]);
    let parsed_c = InteropMessageParsed::from_log(&log_c, 7).expect("parses");
    assert!(!parsed_c.is_type_b());
    assert!(parsed_c.is_type_c());
    // an empty payload carries no tag at all
    let log_e = event_log(center, hash(4), center, vec![]);
    let parsed_e = InteropMessageParsed::from_log(&log_e, 7).expect("parses");
    assert!(!parsed_e.is_type_b());
    assert!(!parsed_e.is_type_c());
}

#[test]
fn from_log_rejects_bad_logs() {
    let center = addr(0xcc);
    let user = addr(0xdd);
    let good = event_log(center, hash(1), user, vec![9]);
    let mut short_topics = EventLog {
        address: good.address,
        topics: vec![hash(0xaaaa), hash(1)],
        data: good.data.clone(),
    };
    assert!(InteropMessageParsed::from_log(&short_topics, 7).is_none());
    short_topics.topics = good.topics.clone();
    short_topics.data = good.data[..63].to_vec();
    assert!(InteropMessageParsed::from_log(&short_topics, 7).is_none());
    let mut garbled = EventLog {
        address: good.address,
        topics: good.topics.clone(),
        data: good.data.clone(),
    };
    garbled.data[64 + 31] = 99;
    assert!(InteropMessageParsed::from_log(&garbled, 7).is_none());
}

#[test]
fn store_insert_get_and_overwrite() {
    let center = addr(0xcc);
    let user = addr(0xdd);
    let mut store = MessageStore::new();
    let parsed = InteropMessageParsed::from_log(&event_log(center, hash(1), user, vec![9]), 7)
        .unwrap();
    assert!(store.get(&hash(1)).is_none());
    store.insert(parsed.clone());
    let found = store.get(&hash(1)).expect("stored");
    // the key equals the identifier
    assert_eq!(found.msg_hash, hash(1));
    assert_eq!(found.chain_id, 7);
    // a duplicate hash overwrites
    let replacement = InteropMessageParsed::from_log(&event_log(center, hash(1), user, vec![8]), 9)
        .unwrap();
    store.insert(replacement);
    let found2 = store.get(&hash(1)).expect("stored");
    assert_eq!(found2.chain_id, 9);
    assert!(store.get(&hash(2)).is_none());
}

#[test]
fn refill_tops_up_only_below_target() {
    let paymaster = addr(0xfee);
    let mut c = chain(1, addr(0x1c));
    c.tokens_for_paymaster = 100;
    // empty balance: sends the full target
    assert_eq!(c.refill_paymaster(&paymaster), Some(100));
    assert_eq!(c.refill_paymaster(&paymaster), None);
    // below target: sends the full target again, overshooting on purpose
    let mut low = chain(1, addr(0x1c));
    low.tokens_for_paymaster = 100;
    low.balances = vec![(paymaster, 99)];
    assert_eq!(low.refill_paymaster(&paymaster), Some(100));
    assert_eq!(low.refill_paymaster(&paymaster), None);
    // exactly at target: a no-op
    let mut exact = chain(1, addr(0x1c));
    exact.tokens_for_paymaster = 100;
    exact.balances = vec![(paymaster, 100)];
    assert_eq!(exact.refill_paymaster(&paymaster), None);
}

#[test]
fn single_chain_origin_already_received() {
    // one chain, one plain message already marked received at the origin:
    // no writes, one store insertion
    let center = addr(0xcc);
    let user = addr(0xdd);
    let parsed = InteropMessageParsed::from_log(&event_log(center, hash(1), user, vec![9]), 1)
        .unwrap();
    let mut origin = chain(1, center);
    origin.received_messages = vec![hash(1)];
    let chains = vec![origin];
    let (after, sent) = handle_type_a_message(&parsed, &chains);
    assert!(sent.is_empty());
    assert_eq!(after[0].received_messages, vec![hash(1)]);
    let mut store = MessageStore::new();
    store.insert(parsed);
    assert!(store.get(&hash(1)).is_some());
}

#[test]
fn two_chain_fan_out_then_replay_is_silent() {
    let center = addr(0xcc);
    let user = addr(0xdd);
    let parsed = InteropMessageParsed::from_log(&event_log(center, hash(1), user, vec![9]), 1)
        .unwrap();
    let chains = vec![chain(1, center), chain(2, addr(0x2c))];
    let (after, sent) = handle_type_a_message(&parsed, &chains);
    // exactly one receiveInteropMessage submission per chain
    assert_eq!(sent, vec![1, 2]);
    assert!(after[0].received_messages.contains(&hash(1)));
    assert!(after[1].received_messages.contains(&hash(1)));
    // the historical window delivers the same log again: nothing is sent twice
    let (after2, sent2) = handle_type_a_message(&parsed, &after);
    assert!(sent2.is_empty());
    assert_eq!(after2[0].received_messages, after[0].received_messages);
}

#[test]
fn bootstrap_configures_every_pair_and_is_idempotent() {
    let paymaster1 = addr(0xa1);
    let paymaster2 = addr(0xa2);
    let token1 = addr(0xb1);
    let token2 = addr(0xb2);
    let mut c1 = chain(1, addr(0x1c));
    c1.base_token_price = 200_000;
    c1.preferred_paymasters = vec![(1, paymaster1)];
    c1.paymaster_tokens = vec![(paymaster1, token1)];
    let mut c2 = chain(2, addr(0x2c));
    c2.base_token_price = 50;
    c2.preferred_paymasters = vec![(2, paymaster2)];
    c2.paymaster_tokens = vec![(paymaster2, token2)];
    let chains = vec![c1, c2];
    let (configured, writes) = bootstrap_all(&chains);
    assert!(writes > 0);
    // every ordered pair trusts the source and knows its paymaster
    assert_eq!(configured[1].get_trusted_source(1), addr(0x1c));
    assert_eq!(configured[0].get_trusted_source(2), addr(0x2c));
    assert_eq!(configured[0].get_trusted_source(1), addr(0x1c));
    assert_eq!(configured[1].get_preferred_paymaster_for(1), paymaster1);
    assert_eq!(configured[0].get_preferred_paymaster_for(2), paymaster2);
    // the bridge carries the source token at destination/source prices
    assert_eq!(configured[1].get_bridge_remote(1), token1);
    assert_eq!(configured[1].get_bridge_nominator(1), 50);
    assert_eq!(configured[1].get_bridge_denominator(1), 200_000);
    assert_eq!(configured[0].get_bridge_remote(2), token2);
    assert_eq!(configured[0].get_bridge_nominator(2), 200_000);
    assert_eq!(configured[0].get_bridge_denominator(2), 50);
    // a second run submits nothing
    let (_, writes2) = bootstrap_all(&configured);
    assert_eq!(writes2, 0);
}

#[test]
fn startup_checks() {
    // 2000 cents at 200000 cents per 10^18 units: a hundredth of a unit
    assert_eq!(tokens_for_paymaster_units(2000, 200_000), 10_000_000_000_000_000);
    assert_eq!(tokens_for_paymaster_units(2000, 1), 2_000_000_000_000_000_000_000);
    let a = chain(1, addr(1));
    let b = chain(2, addr(2));
    let dup = chain(1, addr(3));
    assert!(!has_chain_id_collision(&vec![a, b]));
    let a2 = chain(1, addr(1));
    let b2 = chain(2, addr(2));
    assert!(has_chain_id_collision(&vec![a2, b2, dup]));
}
