use interop_relayer::abi::{
    decode_interop_message, decode_interop_transaction, encode_interop_message,
    encode_interop_transaction, encode_reserved_stuff, InteropMessage, InteropTransaction,
    TransactionReservedStuff,
};
use interop_relayer::calls::{
    calldata_execute_interop_bundle, calldata_receive_interop_message, interop_message_sent_topic,
    sig_execute_interop_bundle_bytes, sig_receive_interop_message_bytes,
};
use interop_relayer::keccak::keccak256_digest;
use interop_relayer::words::{Address, B256, U256};

fn addr(tail: u32) -> Address {
    Address { a0: 0, a1: 0, a2: tail }
}

fn hash(tail: u64) -> B256 {
    B256 { w0: 0, w1: 0, w2: 0, w3: tail }
}

fn sample_message() -> InteropMessage {
    InteropMessage {
        data: vec![7, 8, 9],
        sender: addr(0xa11ce),
        source_chain_id: U256::from_u64(271),
        message_num: U256::from_u64(42),
    }
}

#[test]
fn message_round_trip() {
    let m = sample_message();
    let enc = encode_interop_message(&m);
    assert_eq!(enc.len(), 192 + 32);
    let back = decode_interop_message(&enc).expect("round trip");
    assert_eq!(back.data, m.data);
    assert_eq!(back.sender, m.sender);
    assert_eq!(back.source_chain_id, m.source_chain_id);
    assert_eq!(back.message_num, m.message_num);
}

#[test]
fn message_round_trip_empty_data() {
    let m = InteropMessage {
        data: vec![],
        sender: addr(1),
        source_chain_id: U256::from_u64(1),
        message_num: U256::from_u64(0),
    };
    let enc = encode_interop_message(&m);
    assert_eq!(enc.len(), 192);
    let back = decode_interop_message(&enc).expect("round trip");
    assert!(back.data.is_empty());
}

#[test]
fn message_layout_words() {
    let m = sample_message();
    let enc = encode_interop_message(&m);
    // offset word, struct-body offset word, then the padded sender word
    assert_eq!(enc[31], 32);
    assert_eq!(enc[63], 128);
    assert_eq!(&enc[64..76], &[0u8; 12]);
    // length word of the 3-byte body
    assert_eq!(enc[191], 3);
    assert_eq!(&enc[192..195], &[7, 8, 9]);
    assert_eq!(&enc[195..224], &[0u8; 29]);
}

#[test]
fn message_decode_rejects_malformed() {
    let m = sample_message();
    let enc = encode_interop_message(&m);
    assert!(decode_interop_message(&enc[..64].to_vec()).is_none());
    let mut bad_offset = enc.clone();
    bad_offset[31] = 33;
    assert!(decode_interop_message(&bad_offset).is_none());
    let mut bad_padding = enc.clone();
    let last = bad_padding.len() - 1;
    bad_padding[last] = 1;
    assert!(decode_interop_message(&bad_padding).is_none());
    let mut truncated = enc.clone();
    truncated.pop();
    assert!(decode_interop_message(&truncated).is_none());
}

fn sample_transaction() -> InteropTransaction {
    InteropTransaction {
        source_chain_sender: addr(0xbeef),
        destination_chain: U256::from_u64(261),
        gas_limit: U256::from_u64(30_000_000),
        gas_price: U256::from_u64(250_000_000),
        value: U256::from_u64(0),
        bundle_hash: hash(77),
        fees_bundle_hash: hash(78),
        destination_paymaster: addr(0xfee),
        destination_paymaster_input: vec![1, 2, 3, 4, 5],
    }
}

#[test]
fn transaction_round_trip() {
    let t = sample_transaction();
    let enc = encode_interop_transaction(&t);
    assert_eq!(enc.len(), 352 + 32);
    let back = decode_interop_transaction(&enc).expect("round trip");
    assert_eq!(back.source_chain_sender, t.source_chain_sender);
    assert_eq!(back.destination_chain, t.destination_chain);
    assert_eq!(back.gas_limit, t.gas_limit);
    assert_eq!(back.gas_price, t.gas_price);
    assert_eq!(back.value, t.value);
    assert_eq!(back.bundle_hash, t.bundle_hash);
    assert_eq!(back.fees_bundle_hash, t.fees_bundle_hash);
    assert_eq!(back.destination_paymaster, t.destination_paymaster);
    assert_eq!(back.destination_paymaster_input, t.destination_paymaster_input);
}

#[test]
fn transaction_decode_rejects_malformed() {
    let t = sample_transaction();
    let enc = encode_interop_transaction(&t);
    let mut bad_tail_offset = enc.clone();
    bad_tail_offset[319] = 0;
    assert!(decode_interop_transaction(&bad_tail_offset).is_none());
    assert!(decode_interop_transaction(&enc[..351].to_vec()).is_none());
}

#[test]
fn reserved_stuff_is_seven_words() {
    let stuff = TransactionReservedStuff {
        source_chain_sender: addr(1),
        interop_message_sender: addr(2),
        source_chain_id: U256::from_u64(3),
        message_num: U256::from_u64(4),
        destination_chain_id: U256::from_u64(5),
        bundle_hash: hash(6),
        fees_bundle_hash: hash(7),
    };
    let enc = encode_reserved_stuff(&stuff);
    assert_eq!(enc.len(), 224);
    assert_eq!(enc[31], 1);
    assert_eq!(enc[63], 2);
    assert_eq!(enc[95], 3);
    assert_eq!(enc[127], 4);
    assert_eq!(enc[159], 5);
    assert_eq!(enc[191], 6);
    assert_eq!(enc[223], 7);
}

#[test]
fn selectors_match_the_real_keccak() {
    // the trusted digest wrapper must agree with the crate it relies on
    let sig = sig_execute_interop_bundle_bytes();
    let expected = alloy_primitives::keccak256(&sig);
    let calldata = calldata_execute_interop_bundle(&sample_message());
    assert_eq!(&calldata[..4], &expected.0[..4]);

    let sig2 = sig_receive_interop_message_bytes();
    let expected2 = alloy_primitives::keccak256(&sig2);
    let h = hash(9);
    let calldata2 = calldata_receive_interop_message(&h);
    assert_eq!(&calldata2[..4], &expected2.0[..4]);
    assert_eq!(calldata2.len(), 36);
    assert_eq!(calldata2[35], 9);
}

#[test]
fn digest_wrapper_hashes_rather_than_copies() {
    let input: Vec<u8> = vec![];
    let digest = keccak256_digest(&input);
    assert_eq!(digest.len(), 32);
    assert_ne!(digest, vec![0u8; 32]);
    let topic = interop_message_sent_topic();
    assert_eq!(topic.len(), 32);
    assert_ne!(topic, digest);
}

#[test]
fn execute_bundle_calldata_embeds_the_message() {
    let m = sample_message();
    let calldata = calldata_execute_interop_bundle(&m);
    // selector + two offset words + 192-byte message body + empty proof word
    assert_eq!(calldata.len(), 4 + 64 + 160 + 32 + 32);
    assert_eq!(calldata[4 + 31], 64);
    // the message body carries the 3 payload bytes
    let body = &calldata[4 + 64..];
    assert_eq!(body[31], 128);
    assert_eq!(&body[160..163], &[7, 8, 9]);
    // the trailing proof is the zero-length word
    let proof = &calldata[calldata.len() - 32..];
    assert_eq!(proof, &[0u8; 32]);
}

#[test]
fn u256_words() {
    let v = U256::from_u128(0x1_0000_0000_0000_0001u128);
    assert_eq!(v.w2, 1);
    assert_eq!(v.w3, 1);
    assert_eq!(v.try_to_u64(), None);
    let small = U256::from_u64(17);
    assert_eq!(small.try_to_u64(), Some(17));
    assert!(small.lt(&v));
    assert!(!v.lt(&small));
    assert!(!v.lt(&v));
    let (q, r) = U256::from_u64(1234).div_mod_10();
    assert_eq!(q.try_to_u64(), Some(123));
    assert_eq!(r, 4);
}

#[test]
fn word_images_round_trip() {
    let h = B256 { w0: 1, w1: 2, w2: 3, w3: 4 };
    let mut buf: Vec<u8> = Vec::new();
    h.push_to(&mut buf);
    assert_eq!(buf.len(), 32);
    let back = B256::read_from(&buf, 0);
    assert_eq!(back, h);
    let a = Address { a0: 5, a1: 6, a2: 7 };
    let mut abuf: Vec<u8> = Vec::new();
    a.push_to(&mut abuf);
    assert_eq!(abuf.len(), 20);
    assert_eq!(Address::read_from(&abuf, 0), a);
}
