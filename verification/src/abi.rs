//! The contract ABI encoding of the interop payloads.
//!
//! An `InteropMessage` travels inside the `InteropMessageSent` event as the
//! standard encoding of the Solidity struct `(bytes, address, uint256,
//! uint256)`; a type-C message embeds an `InteropTransaction`, the encoding
//! of `(address, uint256, uint256, uint256, uint256, bytes32, bytes32,
//! address, bytes)`, after a one-byte type tag.  Both are decoded strictly:
//! a byte string decodes exactly when it is the encoding of some value.

use vstd::prelude::*;
use crate::bytes::{u64_be, u32_be, push_u64_be, push_u32_be, push_bytes, push_zeros, copy_range,
    range_is_zero, lemma_u64_be_round_trip};
use crate::words::{Address, B256, U256};

verus! {

/// A sequence of `n` zero bytes.
pub open spec fn zeros(n: int) -> Seq<u8> {
    Seq::new(n as nat, |i: int| 0u8)
}

/// How many zero bytes pad a region of `n` bytes to a 32-byte boundary.
pub open spec fn pad_gap(n: int) -> int {
    (32 - (n % 32)) % 32
}

/// A byte region padded with zeros to a 32-byte boundary.
pub open spec fn padded(data: Seq<u8>) -> Seq<u8> {
    data + zeros(pad_gap(data.len() as int))
}

/// A 32-byte word holding a small unsigned integer.
pub open spec fn word_u64(x: u64) -> Seq<u8> {
    u64_be(0) + u64_be(0) + u64_be(0) + u64_be(x)
}

/// A 32-byte word holding an address in its low 20 bytes.
pub open spec fn word_addr(a: Address) -> Seq<u8> {
    u64_be(0) + u32_be(0) + a.as_bytes()
}

/// Every byte of the big-endian image of zero is zero.
pub proof fn lemma_zero_be()
    ensures
        u64_be(0) == zeros(8),
        u32_be(0) == zeros(4),
{
    assert((0u64 >> 56) & 0xff == 0 && (0u64 >> 48) & 0xff == 0 && (0u64 >> 40) & 0xff == 0 && (
    0u64 >> 32) & 0xff == 0 && (0u64 >> 24) & 0xff == 0 && (0u64 >> 16) & 0xff == 0 && (0u64
        >> 8) & 0xff == 0 && 0u64 & 0xff == 0) by (bit_vector);
    assert((0u32 >> 24) & 0xff == 0 && (0u32 >> 16) & 0xff == 0 && (0u32 >> 8) & 0xff == 0
        && 0u32 & 0xff == 0) by (bit_vector);
    assert(u64_be(0) =~= zeros(8));
    assert(u32_be(0) =~= zeros(4));
}

/// The value stored in a small-integer word is that integer.
pub proof fn lemma_of_word_u64(x: u64)
    ensures
        U256::of_word(word_u64(x)) == (U256 { w0: 0, w1: 0, w2: 0, w3: x }),
{
    let w = word_u64(x);
    assert(w.subrange(0, 8) =~= u64_be(0));
    assert(w.subrange(8, 16) =~= u64_be(0));
    assert(w.subrange(16, 24) =~= u64_be(0));
    assert(w.subrange(24, 32) =~= u64_be(x));
    lemma_u64_be_round_trip(0);
    lemma_u64_be_round_trip(x);
}

/// A small-integer word is the byte image of the corresponding `U256`.
pub proof fn lemma_word_u64_as_bytes(x: u64)
    ensures
        word_u64(x) == (U256 { w0: 0, w1: 0, w2: 0, w3: x }).as_bytes(),
{
    assert(word_u64(x) =~= (U256 { w0: 0, w1: 0, w2: 0, w3: x }).as_bytes());
}

/// Appends a small-integer word to `out`.
pub fn push_word_u64(out: &mut Vec<u8>, x: u64)
    ensures
        final(out)@ == old(out)@ + word_u64(x),
{
    push_u64_be(out, 0);
    push_u64_be(out, 0);
    push_u64_be(out, 0);
    push_u64_be(out, x);
    assert(out@ =~= old(out)@ + word_u64(x));
}

/// Appends an address word to `out`.
pub fn push_word_addr(out: &mut Vec<u8>, a: &Address)
    ensures
        final(out)@ == old(out)@ + word_addr(*a),
{
    push_u64_be(out, 0);
    push_u32_be(out, 0);
    a.push_to(out);
    assert(out@ =~= old(out)@ + word_addr(*a));
}

/// The zero bytes that pad a region of length `n` to a word boundary.
pub fn pad_gap_of(n: usize) -> (r: usize)
    ensures
        r == pad_gap(n as int),
        r < 32,
{
    (32 - (n % 32)) % 32
}

/// The decoded payload of one `InteropMessageSent` event.
pub struct InteropMessage {
    /// Opaque message body; byte 0, where present, is the type tag.
    pub data: Vec<u8>,
    /// The account that sent the message on the source chain.
    pub sender: Address,
    /// Identifier of the chain the message was emitted on.
    pub source_chain_id: U256,
    /// Monotonically increasing per-source serial number.
    pub message_num: U256,
}

/// The mathematical image of an `InteropMessage`.
pub struct InteropMessageView {
    pub data: Seq<u8>,
    pub sender: Address,
    pub source_chain_id: U256,
    pub message_num: U256,
}

impl View for InteropMessage {
    type V = InteropMessageView;

    open spec fn view(&self) -> InteropMessageView {
        InteropMessageView {
            data: self.data@,
            sender: self.sender,
            source_chain_id: self.source_chain_id,
            message_num: self.message_num,
        }
    }
}

impl Clone for InteropMessage {
    fn clone(&self) -> (r: Self)
        ensures
            r@ == self@,
    {
        let data = copy_range(&self.data, 0, self.data.len());
        assert(data@ =~= self.data@);
        InteropMessage {
            data,
            sender: self.sender,
            source_chain_id: self.source_chain_id,
            message_num: self.message_num,
        }
    }
}

/// The body of the struct encoding: four head words, then the length word
/// and the padded message body.  The first head word is the offset of the
/// dynamic `bytes` field, which always equals 128.
pub open spec fn enc_message_body(m: InteropMessageView) -> Seq<u8> {
    word_u64(128) + word_addr(m.sender) + m.source_chain_id.as_bytes() + m.message_num.as_bytes()
        + word_u64(m.data.len() as u64) + padded(m.data)
}

/// The full standalone encoding: an offset word pointing at the struct body.
pub open spec fn enc_message(m: InteropMessageView) -> Seq<u8> {
    word_u64(32) + enc_message_body(m)
}

/// True exactly when `s` is the standalone encoding of some message.
pub open spec fn is_message_encoding(s: Seq<u8>) -> bool {
    let l = U256::of_word(s.subrange(160, 192));
    &&& s.len() >= 192
    &&& s.subrange(0, 32) == word_u64(32)
    &&& s.subrange(32, 64) == word_u64(128)
    &&& s.subrange(64, 76) == zeros(12)
    &&& l.w0 == 0
    &&& l.w1 == 0
    &&& l.w2 == 0
    &&& l.w3 <= usize::MAX
    &&& s.len() == 192 + l.w3 + pad_gap(l.w3 as int)
    &&& s.subrange(192 + l.w3, s.len() as int) == zeros(pad_gap(l.w3 as int))
}

/// Encodes an `InteropMessage` as the destination contract expects it.
pub fn encode_interop_message(m: &InteropMessage) -> (r: Vec<u8>)
    requires
        m.data@.len() + 256 <= usize::MAX,
    ensures
        r@ == enc_message(m@),
{
    let mut out: Vec<u8> = Vec::new();
    push_word_u64(&mut out, 32);
    push_word_u64(&mut out, 128);
    push_word_addr(&mut out, &m.sender);
    m.source_chain_id.push_to(&mut out);
    m.message_num.push_to(&mut out);
    let l = m.data.len();
    push_word_u64(&mut out, l as u64);
    push_bytes(&mut out, &m.data);
    let gap = pad_gap_of(l);
    push_zeros(&mut out, gap);
    assert(out@ =~= enc_message(m@));
    out
}

/// Decodes the standalone encoding of an `InteropMessage`.  Returns `None`
/// exactly when the bytes are not such an encoding.
#[verifier::rlimit(100)]
pub fn decode_interop_message(v: &Vec<u8>) -> (r: Option<InteropMessage>)
    ensures
        match r {
            Some(m) => v@ == enc_message(m@) && is_message_encoding(v@),
            None => !is_message_encoding(v@),
        },
{
    let n = v.len();
    if n < 192 {
        return None;
    }
    let head = U256::read_from(v, 0);
    if !(head.w0 == 0 && head.w1 == 0 && head.w2 == 0 && head.w3 == 32) {
        proof {
            if is_message_encoding(v@) {
                lemma_of_word_u64(32);
            }
        }
        return None;
    }
    let body_off = U256::read_from(v, 32);
    if !(body_off.w0 == 0 && body_off.w1 == 0 && body_off.w2 == 0 && body_off.w3 == 128) {
        proof {
            if is_message_encoding(v@) {
                lemma_of_word_u64(128);
            }
        }
        return None;
    }
    if !range_is_zero(v, 64, 76) {
        proof {
            if is_message_encoding(v@) {
                assert(forall|k: int| 64 <= k < 76 ==> v@[k] == zeros(12)[k - 64]);
            }
        }
        return None;
    }
    let sender = Address::read_from(v, 76);
    let source_chain_id = U256::read_from(v, 96);
    let message_num = U256::read_from(v, 128);
    let lw = U256::read_from(v, 160);
    if !(lw.w0 == 0 && lw.w1 == 0 && lw.w2 == 0) {
        return None;
    }
    if lw.w3 > usize::MAX as u64 {
        return None;
    }
    let l = lw.w3 as usize;
    if l > n - 192 {
        return None;
    }
    let gap = pad_gap_of(l);
    if n - 192 - l != gap {
        return None;
    }
    if !range_is_zero(v, 192 + l, n) {
        proof {
            if is_message_encoding(v@) {
                assert(forall|k: int|
                    192 + l <= k < n ==> v@[k] == zeros(pad_gap(l as int))[k - 192 - l]);
            }
        }
        return None;
    }
    let data = copy_range(v, 192, 192 + l);
    let m = InteropMessage { data, sender, source_chain_id, message_num };
    proof {
        lemma_zero_be();
        assert(v@.subrange(0, 32) =~= word_u64(32)) by {
            assert(v@.subrange(0, 32) == head.as_bytes());
            lemma_word_u64_as_bytes(32);
        }
        assert(v@.subrange(32, 64) =~= word_u64(128)) by {
            assert(v@.subrange(32, 64) == body_off.as_bytes());
            lemma_word_u64_as_bytes(128);
        }
        assert(v@.subrange(64, 96) =~= word_addr(sender)) by {
            assert(v@.subrange(76, 96) == sender.as_bytes());
            assert(forall|k: int| 0 <= k < 20 ==> v@.subrange(64, 96)[12 + k] == v@.subrange(
                76, 96)[k]);
        }
        assert(v@.subrange(160, 192) =~= word_u64(lw.w3)) by {
            assert(v@.subrange(160, 192) == lw.as_bytes());
            lemma_word_u64_as_bytes(lw.w3);
        }
        assert(v@.subrange(192 + l, n as int) =~= zeros(pad_gap(l as int)));
        assert(v@ =~= v@.subrange(0, 32) + v@.subrange(32, 64) + v@.subrange(64, 96)
            + v@.subrange(96, 128) + v@.subrange(128, 160) + v@.subrange(160, 192)
            + v@.subrange(192, 192 + l) + v@.subrange(192 + l, n as int));
        assert(v@ =~= enc_message(m@));
        assert(is_message_encoding(v@)) by {
            lemma_of_word_u64(lw.w3);
            assert(v@.subrange(64, 76) =~= zeros(12));
        }
    }
    Some(m)
}

/// Encoding is injective: equal encodings decode to equal messages.
pub proof fn lemma_message_encoding_injective(a: InteropMessageView, b: InteropMessageView)
    requires
        enc_message(a) == enc_message(b),
        a.data.len() <= u64::MAX,
        b.data.len() <= u64::MAX,
    ensures
        a.data == b.data,
        a.sender == b.sender,
        a.source_chain_id == b.source_chain_id,
        a.message_num == b.message_num,
{
    let sa = enc_message(a);
    let sb = enc_message(b);
    assert(sa.subrange(64, 96) =~= word_addr(a.sender));
    assert(sb.subrange(64, 96) =~= word_addr(b.sender));
    assert(word_addr(a.sender).subrange(12, 32) =~= a.sender.as_bytes());
    assert(word_addr(b.sender).subrange(12, 32) =~= b.sender.as_bytes());
    Address::lemma_as_bytes_injective(a.sender, b.sender);
    assert(sa.subrange(96, 128) =~= a.source_chain_id.as_bytes());
    assert(sb.subrange(96, 128) =~= b.source_chain_id.as_bytes());
    U256::lemma_as_bytes_injective(a.source_chain_id, b.source_chain_id);
    assert(sa.subrange(128, 160) =~= a.message_num.as_bytes());
    assert(sb.subrange(128, 160) =~= b.message_num.as_bytes());
    U256::lemma_as_bytes_injective(a.message_num, b.message_num);
    assert(sa.subrange(160, 192) =~= word_u64(a.data.len() as u64));
    assert(sb.subrange(160, 192) =~= word_u64(b.data.len() as u64));
    lemma_of_word_u64(a.data.len() as u64);
    lemma_of_word_u64(b.data.len() as u64);
    assert(a.data.len() == b.data.len());
    assert(sa.subrange(192, 192 + a.data.len() as int) =~= a.data);
    assert(sb.subrange(192, 192 + b.data.len() as int) =~= b.data);
    assert(a.data =~= b.data);
}

} // verus!

verus! {

/// The cross-chain transaction embedded in a type-C message after the
/// one-byte type tag.
pub struct InteropTransaction {
    pub source_chain_sender: Address,
    pub destination_chain: U256,
    pub gas_limit: U256,
    pub gas_price: U256,
    pub value: U256,
    pub bundle_hash: B256,
    pub fees_bundle_hash: B256,
    pub destination_paymaster: Address,
    pub destination_paymaster_input: Vec<u8>,
}

/// The mathematical image of an `InteropTransaction`.
pub struct InteropTransactionView {
    pub source_chain_sender: Address,
    pub destination_chain: U256,
    pub gas_limit: U256,
    pub gas_price: U256,
    pub value: U256,
    pub bundle_hash: B256,
    pub fees_bundle_hash: B256,
    pub destination_paymaster: Address,
    pub destination_paymaster_input: Seq<u8>,
}

impl View for InteropTransaction {
    type V = InteropTransactionView;

    open spec fn view(&self) -> InteropTransactionView {
        InteropTransactionView {
            source_chain_sender: self.source_chain_sender,
            destination_chain: self.destination_chain,
            gas_limit: self.gas_limit,
            gas_price: self.gas_price,
            value: self.value,
            bundle_hash: self.bundle_hash,
            fees_bundle_hash: self.fees_bundle_hash,
            destination_paymaster: self.destination_paymaster,
            destination_paymaster_input: self.destination_paymaster_input@,
        }
    }
}

impl Clone for InteropTransaction {
    fn clone(&self) -> (r: Self)
        ensures
            r@ == self@,
    {
        let destination_paymaster_input = copy_range(
            &self.destination_paymaster_input,
            0,
            self.destination_paymaster_input.len(),
        );
        assert(destination_paymaster_input@ =~= self.destination_paymaster_input@);
        InteropTransaction {
            source_chain_sender: self.source_chain_sender,
            destination_chain: self.destination_chain,
            gas_limit: self.gas_limit,
            gas_price: self.gas_price,
            value: self.value,
            bundle_hash: self.bundle_hash,
            fees_bundle_hash: self.fees_bundle_hash,
            destination_paymaster: self.destination_paymaster,
            destination_paymaster_input,
        }
    }
}

/// The struct encoding: nine head words (the ninth is the offset of the
/// dynamic paymaster input, always 288), then the length word and the
/// padded input bytes.
pub open spec fn enc_transaction_body(t: InteropTransactionView) -> Seq<u8> {
    word_addr(t.source_chain_sender) + t.destination_chain.as_bytes() + t.gas_limit.as_bytes()
        + t.gas_price.as_bytes() + t.value.as_bytes() + t.bundle_hash.as_bytes()
        + t.fees_bundle_hash.as_bytes() + word_addr(t.destination_paymaster) + word_u64(288)
        + word_u64(t.destination_paymaster_input.len() as u64) + padded(
        t.destination_paymaster_input)
}

/// The full standalone encoding: an offset word pointing at the struct body.
pub open spec fn enc_transaction(t: InteropTransactionView) -> Seq<u8> {
    word_u64(32) + enc_transaction_body(t)
}

/// The transaction stored in an encoding, read field by field.
#[verifier::opaque]
pub open spec fn spec_transaction_of(s: Seq<u8>) -> InteropTransactionView {
    InteropTransactionView {
        source_chain_sender: Address::of_slice(s.subrange(44, 64)),
        destination_chain: U256::of_word(s.subrange(64, 96)),
        gas_limit: U256::of_word(s.subrange(96, 128)),
        gas_price: U256::of_word(s.subrange(128, 160)),
        value: U256::of_word(s.subrange(160, 192)),
        bundle_hash: B256::of_word(s.subrange(192, 224)),
        fees_bundle_hash: B256::of_word(s.subrange(224, 256)),
        destination_paymaster: Address::of_slice(s.subrange(268, 288)),
        destination_paymaster_input: s.subrange(
            352,
            352 + U256::of_word(s.subrange(320, 352)).w3 as int,
        ),
    }
}

/// True exactly when `s` is the standalone encoding of some transaction.
#[verifier::opaque]
pub open spec fn is_transaction_encoding(s: Seq<u8>) -> bool {
    let l = U256::of_word(s.subrange(320, 352));
    &&& s.len() >= 352
    &&& s.subrange(0, 32) == word_u64(32)
    &&& s.subrange(32, 44) == zeros(12)
    &&& s.subrange(256, 268) == zeros(12)
    &&& s.subrange(288, 320) == word_u64(288)
    &&& l.w0 == 0
    &&& l.w1 == 0
    &&& l.w2 == 0
    &&& l.w3 <= usize::MAX
    &&& s.len() == 352 + l.w3 + pad_gap(l.w3 as int)
    &&& s.subrange(352 + l.w3, s.len() as int) == zeros(pad_gap(l.w3 as int))
}

/// Encodes an `InteropTransaction` as the contract ABI lays it out.
pub fn encode_interop_transaction(t: &InteropTransaction) -> (r: Vec<u8>)
    requires
        t.destination_paymaster_input@.len() + 384 <= usize::MAX,
    ensures
        r@ == enc_transaction(t@),
{
    let mut out: Vec<u8> = Vec::new();
    push_word_u64(&mut out, 32);
    push_word_addr(&mut out, &t.source_chain_sender);
    t.destination_chain.push_to(&mut out);
    t.gas_limit.push_to(&mut out);
    t.gas_price.push_to(&mut out);
    t.value.push_to(&mut out);
    t.bundle_hash.push_to(&mut out);
    t.fees_bundle_hash.push_to(&mut out);
    push_word_addr(&mut out, &t.destination_paymaster);
    push_word_u64(&mut out, 288);
    let l = t.destination_paymaster_input.len();
    push_word_u64(&mut out, l as u64);
    push_bytes(&mut out, &t.destination_paymaster_input);
    let gap = pad_gap_of(l);
    push_zeros(&mut out, gap);
    assert(out@ =~= enc_transaction(t@));
    out
}

/// Decodes the standalone encoding of an `InteropTransaction`.  Returns
/// `None` exactly when the bytes are not such an encoding.
#[verifier::rlimit(100)]
#[verifier::spinoff_prover]
pub fn decode_interop_transaction(v: &Vec<u8>) -> (r: Option<InteropTransaction>)
    ensures
        match r {
            Some(t) => v@ == enc_transaction(t@) && is_transaction_encoding(v@) && t@
                == spec_transaction_of(v@),
            None => !is_transaction_encoding(v@),
        },
{
    let n = v.len();
    if n < 352 {
        proof {
            assert(!is_transaction_encoding(v@)) by {
                reveal(is_transaction_encoding);
            }
        }
        proof {
                    assert(!is_transaction_encoding(v@)) by {
                        reveal(is_transaction_encoding);
                    }
                }
                return None;
    }
    let head = U256::read_from(v, 0);
    if !(head.w0 == 0 && head.w1 == 0 && head.w2 == 0 && head.w3 == 32) {
        proof {
            reveal(is_transaction_encoding);
            if is_transaction_encoding(v@) {
                lemma_of_word_u64(32);
            }
        }
        proof {
                    assert(!is_transaction_encoding(v@)) by {
                        reveal(is_transaction_encoding);
                    }
                }
                return None;
    }
    if !range_is_zero(v, 32, 44) {
        proof {
            reveal(is_transaction_encoding);
            if is_transaction_encoding(v@) {
                assert(forall|k: int| 32 <= k < 44 ==> v@[k] == zeros(12)[k - 32]);
            }
        }
        proof {
                    assert(!is_transaction_encoding(v@)) by {
                        reveal(is_transaction_encoding);
                    }
                }
                return None;
    }
    if !range_is_zero(v, 256, 268) {
        proof {
            reveal(is_transaction_encoding);
            if is_transaction_encoding(v@) {
                assert(forall|k: int| 256 <= k < 268 ==> v@[k] == zeros(12)[k - 256]);
            }
        }
        proof {
                    assert(!is_transaction_encoding(v@)) by {
                        reveal(is_transaction_encoding);
                    }
                }
                return None;
    }
    let source_chain_sender = Address::read_from(v, 44);
    let destination_chain = U256::read_from(v, 64);
    let gas_limit = U256::read_from(v, 96);
    let gas_price = U256::read_from(v, 128);
    let value = U256::read_from(v, 160);
    let bundle_hash = B256::read_from(v, 192);
    let fees_bundle_hash = B256::read_from(v, 224);
    let destination_paymaster = Address::read_from(v, 268);
    let off = U256::read_from(v, 288);
    if !(off.w0 == 0 && off.w1 == 0 && off.w2 == 0 && off.w3 == 288) {
        proof {
            reveal(is_transaction_encoding);
            if is_transaction_encoding(v@) {
                lemma_of_word_u64(288);
            }
        }
        proof {
                    assert(!is_transaction_encoding(v@)) by {
                        reveal(is_transaction_encoding);
                    }
                }
                return None;
    }
    let lw = U256::read_from(v, 320);
    if !(lw.w0 == 0 && lw.w1 == 0 && lw.w2 == 0) {
        proof {
                    assert(!is_transaction_encoding(v@)) by {
                        reveal(is_transaction_encoding);
                    }
                }
                return None;
    }
    if lw.w3 > usize::MAX as u64 {
        proof {
                    assert(!is_transaction_encoding(v@)) by {
                        reveal(is_transaction_encoding);
                    }
                }
                return None;
    }
    let l = lw.w3 as usize;
    if l > n - 352 {
        proof {
                    assert(!is_transaction_encoding(v@)) by {
                        reveal(is_transaction_encoding);
                    }
                }
                return None;
    }
    let gap = pad_gap_of(l);
    if n - 352 - l != gap {
        proof {
                    assert(!is_transaction_encoding(v@)) by {
                        reveal(is_transaction_encoding);
                    }
                }
                return None;
    }
    if !range_is_zero(v, 352 + l, n) {
        proof {
            reveal(is_transaction_encoding);
            if is_transaction_encoding(v@) {
                assert(forall|k: int|
                    352 + l <= k < n ==> v@[k] == zeros(pad_gap(l as int))[k - 352 - l]);
            }
        }
        proof {
                    assert(!is_transaction_encoding(v@)) by {
                        reveal(is_transaction_encoding);
                    }
                }
                return None;
    }
    let destination_paymaster_input = copy_range(v, 352, 352 + l);
    let t = InteropTransaction {
        source_chain_sender,
        destination_chain,
        gas_limit,
        gas_price,
        value,
        bundle_hash,
        fees_bundle_hash,
        destination_paymaster,
        destination_paymaster_input,
    };
    proof {
        reveal(is_transaction_encoding);
        reveal(spec_transaction_of);
        lemma_zero_be();
        assert(v@.subrange(0, 32) =~= word_u64(32)) by {
            assert(v@.subrange(0, 32) == head.as_bytes());
            lemma_word_u64_as_bytes(32);
        }
        assert(v@.subrange(32, 64) =~= word_addr(source_chain_sender)) by {
            assert(v@.subrange(44, 64) == source_chain_sender.as_bytes());
            assert(forall|k: int| 0 <= k < 20 ==> v@.subrange(32, 64)[12 + k] == v@.subrange(
                44, 64)[k]);
        }
        assert(v@.subrange(256, 288) =~= word_addr(destination_paymaster)) by {
            assert(v@.subrange(268, 288) == destination_paymaster.as_bytes());
            assert(forall|k: int| 0 <= k < 20 ==> v@.subrange(256, 288)[12 + k] == v@.subrange(
                268, 288)[k]);
        }
        assert(v@.subrange(288, 320) =~= word_u64(288)) by {
            assert(v@.subrange(288, 320) == off.as_bytes());
            lemma_word_u64_as_bytes(288);
        }
        assert(v@.subrange(320, 352) =~= word_u64(lw.w3)) by {
            assert(v@.subrange(320, 352) == lw.as_bytes());
            lemma_word_u64_as_bytes(lw.w3);
        }
        assert(v@.subrange(352 + l, n as int) =~= zeros(pad_gap(l as int)));
        assert(v@ =~= v@.subrange(0, 32) + v@.subrange(32, 64) + v@.subrange(64, 96)
            + v@.subrange(96, 128) + v@.subrange(128, 160) + v@.subrange(160, 192)
            + v@.subrange(192, 224) + v@.subrange(224, 256) + v@.subrange(256, 288)
            + v@.subrange(288, 320) + v@.subrange(320, 352) + v@.subrange(352, 352 + l)
            + v@.subrange(352 + l, n as int));
        assert(v@ =~= enc_transaction(t@));
        assert(t@ == spec_transaction_of(v@)) by {
            assert(destination_paymaster_input@ =~= v@.subrange(352, 352 + (lw.w3 as int)));
        }
        assert(is_transaction_encoding(v@)) by {
            lemma_of_word_u64(lw.w3);
            assert(v@.subrange(32, 44) =~= zeros(12));
            assert(v@.subrange(256, 268) =~= zeros(12));
        }
    }
    Some(t)
}

/// The provenance record carried in the custom-signature field of the
/// outbound transaction.  All fields are static, so its encoding is seven
/// plain words with no indirection.
#[derive(Clone, Copy, PartialEq, Eq, Structural, Debug)]
pub struct TransactionReservedStuff {
    pub source_chain_sender: Address,
    pub interop_message_sender: Address,
    pub source_chain_id: U256,
    pub message_num: U256,
    pub destination_chain_id: U256,
    pub bundle_hash: B256,
    pub fees_bundle_hash: B256,
}

/// The encoding of the provenance record: seven 32-byte words.
pub open spec fn enc_reserved_stuff(t: TransactionReservedStuff) -> Seq<u8> {
    word_addr(t.source_chain_sender) + word_addr(t.interop_message_sender)
        + t.source_chain_id.as_bytes() + t.message_num.as_bytes()
        + t.destination_chain_id.as_bytes() + t.bundle_hash.as_bytes()
        + t.fees_bundle_hash.as_bytes()
}

/// Encodes the provenance record.
pub fn encode_reserved_stuff(t: &TransactionReservedStuff) -> (r: Vec<u8>)
    ensures
        r@ == enc_reserved_stuff(*t),
        r@.len() == 224,
{
    let mut out: Vec<u8> = Vec::new();
    push_word_addr(&mut out, &t.source_chain_sender);
    push_word_addr(&mut out, &t.interop_message_sender);
    t.source_chain_id.push_to(&mut out);
    t.message_num.push_to(&mut out);
    t.destination_chain_id.push_to(&mut out);
    t.bundle_hash.push_to(&mut out);
    t.fees_bundle_hash.push_to(&mut out);
    assert(out@ =~= enc_reserved_stuff(*t));
    out
}

} // verus!

verus! {

/// What the encoder produces is an encoding: decoding can never reject
/// the output of `encode_interop_message`.
pub proof fn lemma_message_encoding_well_formed(m: InteropMessageView)
    requires
        m.data.len() + 256 <= usize::MAX,
    ensures
        is_message_encoding(enc_message(m)),
{
    let s = enc_message(m);
    let l = m.data.len();
    lemma_zero_be();
    assert(s.len() == 192 + l + pad_gap(l as int));
    assert(s.subrange(0, 32) =~= word_u64(32));
    assert(s.subrange(32, 64) =~= word_u64(128));
    assert(s.subrange(64, 76) =~= zeros(12));
    assert(s.subrange(160, 192) =~= word_u64(l as u64));
    lemma_of_word_u64(l as u64);
    assert(s.subrange(192 + (l as int), s.len() as int) =~= zeros(pad_gap(l as int)));
}

} // verus!
