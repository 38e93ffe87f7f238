//! RLP encoding, and the raw wire form of the fee-sponsored (EIP-712
//! style) transaction: the type byte `0x71` followed by the RLP list of
//! the transaction fields.  The envelope carries an all-zero ECDSA
//! signature — three empty items — because the custom-signature field
//! supplants it; the destination's account logic authenticates with the
//! provenance payload instead.

use vstd::prelude::*;
use crate::bytes::{u64_be, push_u64_be, push_bytes, copy_range};
use crate::words::{Address, U256};
use crate::materializer::TransactionRequest;

verus! {

/// The byte string with its leading zero bytes removed.
pub open spec fn trim(s: Seq<u8>) -> Seq<u8>
    decreases s.len(),
{
    if s.len() > 0 && s[0] == 0 {
        trim(s.skip(1))
    } else {
        s
    }
}

/// The RLP length header for a payload of `len` bytes, with `base` 0x80
/// for strings and 0xc0 for lists.
pub open spec fn rlp_header(base: u8, len: int) -> Seq<u8>
    recommends
        base == 0x80 || base == 0xc0,
        0 <= len <= u64::MAX,
{
    if len <= 55 {
        seq![(base + len) as u8]
    } else {
        seq![(base + 55 + trim(u64_be(len as u64)).len()) as u8] + trim(u64_be(len as u64))
    }
}

/// The RLP encoding of a byte string.
pub open spec fn rlp_bytes(p: Seq<u8>) -> Seq<u8>
    recommends
        p.len() <= u64::MAX,
{
    if p.len() == 1 && p[0] < 0x80 {
        p
    } else {
        rlp_header(0x80, p.len() as int) + p
    }
}

/// The RLP encoding of a list whose items concatenate to `p`.
pub open spec fn rlp_list(p: Seq<u8>) -> Seq<u8>
    recommends
        p.len() <= u64::MAX,
{
    rlp_header(0xc0, p.len() as int) + p
}

/// The RLP encoding of an unsigned integer given as its fixed-width
/// big-endian image: the image trimmed of leading zeros, as a string.
pub open spec fn rlp_uint(s: Seq<u8>) -> Seq<u8> {
    rlp_bytes(trim(s))
}

/// A run of leading zeros trims away exactly to the remainder.
proof fn lemma_trim_skip(s: Seq<u8>, i: int)
    requires
        0 <= i <= s.len(),
        forall|j: int| 0 <= j < i ==> s[j] == 0,
        i == s.len() || s[i] != 0,
    ensures
        trim(s) == s.skip(i),
    decreases i,
{
    if i > 0 {
        assert(s[0] == 0);
        lemma_trim_skip(s.skip(1), i - 1);
        assert(s.skip(1).skip(i - 1) =~= s.skip(i));
    } else {
        if s.len() > 0 && s[0] == 0 {
            assert(false);
        }
        assert(s.skip(0) =~= s);
    }
}

/// Removes the leading zero bytes.
pub fn trim_leading_zeros(v: &Vec<u8>) -> (r: Vec<u8>)
    ensures
        r@ == trim(v@),
        r@.len() <= v@.len(),
{
    let n = v.len();
    let mut i: usize = 0;
    while i < n && v[i] == 0
        invariant
            i <= n,
            n == v@.len(),
            forall|j: int| 0 <= j < i ==> v@[j] == 0,
        decreases n - i,
    {
        i = i + 1;
    }
    proof {
        lemma_trim_skip(v@, i as int);
    }
    copy_range(v, i, n)
}

/// The trimmed big-endian image of a `u64`.
pub fn trim_u64_be(x: u64) -> (r: Vec<u8>)
    ensures
        r@ == trim(u64_be(x)),
        r@.len() <= 8,
{
    let mut full: Vec<u8> = Vec::new();
    push_u64_be(&mut full, x);
    assert(full@ =~= u64_be(x));
    trim_leading_zeros(&full)
}

/// Appends an RLP length header.
pub fn push_rlp_header(out: &mut Vec<u8>, base: u8, len: usize)
    requires
        base == 0x80 || base == 0xc0,
    ensures
        final(out)@ == old(out)@ + rlp_header(base, len as int),
{
    if len <= 55 {
        out.push(base + (len as u8));
        assert(out@ =~= old(out)@ + rlp_header(base, len as int));
    } else {
        let lb = trim_u64_be(len as u64);
        let ll = lb.len();
        proof {
            assert(trim(u64_be(len as u64)).len() >= 1) by {
                if trim(u64_be(len as u64)).len() == 0 {
                    lemma_trim_value_zero(u64_be(len as u64));
                    crate::bytes::lemma_u64_be_all_zero(len as u64);
                }
            }
        }
        out.push(base + 55 + (ll as u8));
        push_bytes(out, &lb);
        assert(out@ =~= old(out)@ + rlp_header(base, len as int));
    }
}

/// An all-zero image trims to nothing only when the value reads as zero.
proof fn lemma_trim_value_zero(s: Seq<u8>)
    requires
        trim(s).len() == 0,
    ensures
        forall|j: int| 0 <= j < s.len() ==> s[j] == 0,
    decreases s.len(),
{
    if s.len() > 0 {
        if s[0] == 0 {
            lemma_trim_value_zero(s.skip(1));
            assert forall|j: int| 0 <= j < s.len() implies s[j] == 0 by {
                if j > 0 {
                    assert(s.skip(1)[j - 1] == 0);
                }
            }
        }
    }
}

/// Appends the RLP encoding of a byte string.
pub fn push_rlp_bytes(out: &mut Vec<u8>, p: &Vec<u8>)
    ensures
        final(out)@ == old(out)@ + rlp_bytes(p@),
{
    let n = p.len();
    if n == 1 && p[0] < 0x80 {
        out.push(p[0]);
        assert(out@ =~= old(out)@ + rlp_bytes(p@));
    } else {
        push_rlp_header(out, 0x80, n);
        push_bytes(out, p);
        assert(out@ =~= old(out)@ + rlp_bytes(p@));
    }
}

/// Appends the RLP encoding of a `u64` integer.
pub fn push_rlp_uint_u64(out: &mut Vec<u8>, x: u64)
    ensures
        final(out)@ == old(out)@ + rlp_uint(u64_be(x)),
{
    let t = trim_u64_be(x);
    push_rlp_bytes(out, &t);
}

/// Appends the RLP encoding of a 256-bit integer.
pub fn push_rlp_uint_u256(out: &mut Vec<u8>, v: &U256)
    ensures
        final(out)@ == old(out)@ + rlp_uint(v.as_bytes()),
{
    let mut full: Vec<u8> = Vec::new();
    v.push_to(&mut full);
    assert(full@ =~= v.as_bytes());
    let t = trim_leading_zeros(&full);
    push_rlp_bytes(out, &t);
}

/// Appends the RLP encoding of a 20-byte address string.
pub fn push_rlp_address(out: &mut Vec<u8>, a: &Address)
    ensures
        final(out)@ == old(out)@ + rlp_bytes(a.as_bytes()),
{
    let mut full: Vec<u8> = Vec::new();
    a.push_to(&mut full);
    assert(full@ =~= a.as_bytes());
    push_rlp_bytes(out, &full);
}

/// The concatenated RLP items of the fee-sponsored transaction: nonce,
/// the two fee fields, gas limit, recipient, the zero value (the decoded
/// transaction value is not propagated), calldata, the zero signature as
/// three empty items after the chain id, the chain id again, the sender,
/// the pubdata price, no factory dependencies, the custom signature, and
/// the paymaster pair.
pub open spec fn eip712_fields(
    req: TransactionRequest,
    paymaster_input: Seq<u8>,
    custom_signature: Seq<u8>,
    calldata: Seq<u8>,
    nonce: u64,
    chain_id: u64,
) -> Seq<u8> {
    rlp_uint(u64_be(nonce)) + rlp_uint(u64_be(req.max_priority_fee_per_gas)) + rlp_uint(
        u64_be(req.max_fee_per_gas),
    ) + rlp_uint(u64_be(req.gas_limit)) + rlp_bytes(req.to.as_bytes()) + rlp_uint(u64_be(0))
        + rlp_bytes(calldata) + rlp_uint(u64_be(chain_id)) + rlp_bytes(Seq::empty()) + rlp_bytes(
        Seq::empty(),
    ) + rlp_uint(u64_be(chain_id)) + rlp_bytes(req.from.as_bytes()) + rlp_uint(
        u64_be(req.gas_per_pubdata),
    ) + rlp_list(Seq::empty()) + rlp_bytes(custom_signature) + rlp_list(
        rlp_bytes(req.paymaster.as_bytes()) + rlp_bytes(paymaster_input),
    )
}

/// The raw wire bytes of the fee-sponsored transaction: the envelope
/// type byte, then the RLP list of the fields.
pub open spec fn eip712_raw(
    req: TransactionRequest,
    paymaster_input: Seq<u8>,
    custom_signature: Seq<u8>,
    calldata: Seq<u8>,
    nonce: u64,
    chain_id: u64,
) -> Seq<u8> {
    seq![0x71u8] + rlp_list(
        eip712_fields(req, paymaster_input, custom_signature, calldata, nonce, chain_id),
    )
}

/// Serializes a built transaction request as the raw fee-sponsored
/// envelope, ready for `eth_sendRawTransaction`.
#[verifier::rlimit(100)]
#[verifier::spinoff_prover]
pub fn encode_eip712_transaction(req: &TransactionRequest, nonce: u64, chain_id: u64) -> (r: Vec<
    u8>)
    ensures
        r@ == eip712_raw(
            *req,
            req.paymaster_input@,
            req.custom_signature@,
            req.calldata@,
            nonce,
            chain_id,
        ),
{
    let mut fields: Vec<u8> = Vec::new();
    push_rlp_uint_u64(&mut fields, nonce);
    push_rlp_uint_u64(&mut fields, req.max_priority_fee_per_gas);
    push_rlp_uint_u64(&mut fields, req.max_fee_per_gas);
    push_rlp_uint_u64(&mut fields, req.gas_limit);
    push_rlp_address(&mut fields, &req.to);
    push_rlp_uint_u64(&mut fields, 0);
    push_rlp_bytes(&mut fields, &req.calldata);
    push_rlp_uint_u64(&mut fields, chain_id);
    let empty: Vec<u8> = Vec::new();
    push_rlp_bytes(&mut fields, &empty);
    push_rlp_bytes(&mut fields, &empty);
    push_rlp_uint_u64(&mut fields, chain_id);
    push_rlp_address(&mut fields, &req.from);
    push_rlp_uint_u64(&mut fields, req.gas_per_pubdata);
    push_rlp_header(&mut fields, 0xc0, 0);
    push_rlp_bytes(&mut fields, &req.custom_signature);
    let mut paymaster_pair: Vec<u8> = Vec::new();
    push_rlp_address(&mut paymaster_pair, &req.paymaster);
    push_rlp_bytes(&mut paymaster_pair, &req.paymaster_input);
    push_rlp_header(&mut fields, 0xc0, paymaster_pair.len());
    push_bytes(&mut fields, &paymaster_pair);
    proof {
        assert(rlp_list(Seq::<u8>::empty()) =~= rlp_header(0xc0, 0));
        assert(fields@ =~= eip712_fields(
            *req,
            req.paymaster_input@,
            req.custom_signature@,
            req.calldata@,
            nonce,
            chain_id,
        ));
    }
    let mut out: Vec<u8> = Vec::new();
    out.push(0x71);
    push_rlp_header(&mut out, 0xc0, fields.len());
    push_bytes(&mut out, &fields);
    proof {
        assert(out@ =~= eip712_raw(
            *req,
            req.paymaster_input@,
            req.custom_signature@,
            req.calldata@,
            nonce,
            chain_id,
        ));
    }
    out
}

} // verus!
