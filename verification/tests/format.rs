use interop_relayer::human::to_human_size;
use interop_relayer::materializer::TransactionRequest;
use interop_relayer::rlp::{
    encode_eip712_transaction, push_rlp_bytes, push_rlp_uint_u64, trim_leading_zeros,
};
use interop_relayer::words::{Address, U256};

fn addr(tail: u32) -> Address {
    Address { a0: 0, a1: 0, a2: tail }
}

#[test]
fn human_size_groups_thousands() {
    assert_eq!(to_human_size(U256::from_u64(0)), "0");
    assert_eq!(to_human_size(U256::from_u64(1)), "1");
    assert_eq!(to_human_size(U256::from_u64(999)), "999");
    assert_eq!(to_human_size(U256::from_u64(1000)), "1_000");
    assert_eq!(to_human_size(U256::from_u64(123_456_789)), "123_456_789");
    assert_eq!(
        to_human_size(U256::from_u128(1_000_000_000_000_000_000)),
        "1_000_000_000_000_000_000"
    );
    assert_eq!(to_human_size(U256::from_u64(10_001)), "10_001");
    let big = U256 { w0: 0, w1: 0, w2: 1, w3: 0 };
    // 2^64
    assert_eq!(to_human_size(big), "18_446_744_073_709_551_616");
}

#[test]
fn rlp_strings() {
    let mut out: Vec<u8> = Vec::new();
    push_rlp_bytes(&mut out, &vec![]);
    assert_eq!(out, vec![0x80]);
    let mut single: Vec<u8> = Vec::new();
    push_rlp_bytes(&mut single, &vec![0x7f]);
    assert_eq!(single, vec![0x7f]);
    let mut high: Vec<u8> = Vec::new();
    push_rlp_bytes(&mut high, &vec![0x80]);
    assert_eq!(high, vec![0x81, 0x80]);
    let mut short: Vec<u8> = Vec::new();
    push_rlp_bytes(&mut short, &vec![9u8; 55]);
    assert_eq!(short[0], 0x80 + 55);
    assert_eq!(short.len(), 56);
    let mut long: Vec<u8> = Vec::new();
    push_rlp_bytes(&mut long, &vec![9u8; 56]);
    assert_eq!(long[0], 0xb8);
    assert_eq!(long[1], 56);
    assert_eq!(long.len(), 58);
}

#[test]
fn rlp_integers() {
    let mut zero: Vec<u8> = Vec::new();
    push_rlp_uint_u64(&mut zero, 0);
    assert_eq!(zero, vec![0x80]);
    let mut one: Vec<u8> = Vec::new();
    push_rlp_uint_u64(&mut one, 1);
    assert_eq!(one, vec![0x01]);
    let mut wide: Vec<u8> = Vec::new();
    push_rlp_uint_u64(&mut wide, 0x0400);
    assert_eq!(wide, vec![0x82, 0x04, 0x00]);
    assert_eq!(trim_leading_zeros(&vec![0, 0, 5, 0]), vec![5, 0]);
    assert_eq!(trim_leading_zeros(&vec![0, 0]), Vec::<u8>::new());
}

#[test]
fn envelope_shape() {
    let req = TransactionRequest {
        to: addr(0x2c),
        from: addr(0xa11a),
        gas_limit: 30_000_000,
        max_fee_per_gas: 250_000_000,
        max_priority_fee_per_gas: 250_000_000,
        gas_per_pubdata: 50_000,
        paymaster: addr(0xfee),
        paymaster_input: vec![],
        custom_signature: vec![0xde, 0xad, 0xbe, 0xef],
        calldata: vec![1, 2, 3],
    };
    let raw = encode_eip712_transaction(&req, 7, 261);
    // the fee-sponsored envelope type byte
    assert_eq!(raw[0], 0x71);
    // a list header follows
    assert!(raw[1] >= 0xc0);
    // the provenance payload is carried verbatim
    assert!(raw
        .windows(4)
        .any(|w| w == [0xde, 0xad, 0xbe, 0xef]));
    // the nonce is the first field of the list
    let body_start = if raw[1] <= 0xf7 { 2 } else { 2 + (raw[1] - 0xf7) as usize };
    assert_eq!(raw[body_start], 7);
    // a different nonce changes the bytes
    let raw2 = encode_eip712_transaction(&req, 8, 261);
    assert_ne!(raw, raw2);
}
