//! Byte-level helpers shared by the codecs: big-endian integer encodings,
//! byte-sequence equality, zero padding and range copies.

use vstd::prelude::*;

verus! {

/// Big-endian image of a `u64`: 8 bytes, most significant first.
pub open spec fn u64_be(x: u64) -> Seq<u8> {
    seq![
        ((x >> 56) & 0xff) as u8,
        ((x >> 48) & 0xff) as u8,
        ((x >> 40) & 0xff) as u8,
        ((x >> 32) & 0xff) as u8,
        ((x >> 24) & 0xff) as u8,
        ((x >> 16) & 0xff) as u8,
        ((x >> 8) & 0xff) as u8,
        (x & 0xff) as u8,
    ]
}

/// The `u64` read back from 8 big-endian bytes.
pub open spec fn u64_from_be(s: Seq<u8>) -> u64
    recommends
        s.len() == 8,
{
    (s[0] as u64) << 56 | (s[1] as u64) << 48 | (s[2] as u64) << 40 | (s[3] as u64) << 32 | (
    s[4] as u64) << 24 | (s[5] as u64) << 16 | (s[6] as u64) << 8 | (s[7] as u64)
}

/// Big-endian image of a `u32`: 4 bytes, most significant first.
pub open spec fn u32_be(x: u32) -> Seq<u8> {
    seq![
        ((x >> 24) & 0xff) as u8,
        ((x >> 16) & 0xff) as u8,
        ((x >> 8) & 0xff) as u8,
        (x & 0xff) as u8,
    ]
}

/// The `u32` read back from 4 big-endian bytes.
pub open spec fn u32_from_be(s: Seq<u8>) -> u32
    recommends
        s.len() == 4,
{
    (s[0] as u32) << 24 | (s[1] as u32) << 16 | (s[2] as u32) << 8 | (s[3] as u32)
}

/// Reading back the big-endian image of a `u64` yields the value again.
pub proof fn lemma_u64_be_round_trip(x: u64)
    ensures
        u64_be(x).len() == 8,
        u64_from_be(u64_be(x)) == x,
{
    assert((x >> 56) & 0xff < 256 && (x >> 48) & 0xff < 256 && (x >> 40) & 0xff < 256 && (x
        >> 32) & 0xff < 256 && (x >> 24) & 0xff < 256 && (x >> 16) & 0xff < 256 && (x >> 8)
        & 0xff < 256 && x & 0xff < 256) by (bit_vector);
    assert(((x >> 56) & 0xff) << 56 | ((x >> 48) & 0xff) << 48 | ((x >> 40) & 0xff) << 40 | ((x
        >> 32) & 0xff) << 32 | ((x >> 24) & 0xff) << 24 | ((x >> 16) & 0xff) << 16 | ((x >> 8)
        & 0xff) << 8 | (x & 0xff) == x) by (bit_vector);
}

/// Re-encoding the `u64` read from 8 bytes yields the same bytes.
pub proof fn lemma_u64_be_inverse(s: Seq<u8>)
    requires
        s.len() == 8,
    ensures
        u64_be(u64_from_be(s)) == s,
{
    let x = u64_from_be(s);
    let s0 = s[0] as u64;
    let s1 = s[1] as u64;
    let s2 = s[2] as u64;
    let s3 = s[3] as u64;
    let s4 = s[4] as u64;
    let s5 = s[5] as u64;
    let s6 = s[6] as u64;
    let s7 = s[7] as u64;
    let y = s0 << 56 | s1 << 48 | s2 << 40 | s3 << 32 | s4 << 24 | s5 << 16 | s6 << 8 | s7;
    assert((y == s0 << 56 | s1 << 48 | s2 << 40 | s3 << 32 | s4 << 24 | s5 << 16 | s6 << 8
        | s7 && s0 < 256 && s1 < 256 && s2 < 256 && s3 < 256 && s4 < 256 && s5 < 256 && s6 < 256
        && s7 < 256) ==> ((y >> 56) & 0xff == s0 && (y >> 48) & 0xff == s1 && (y >> 40) & 0xff
        == s2 && (y >> 32) & 0xff == s3 && (y >> 24) & 0xff == s4 && (y >> 16) & 0xff == s5 && (
    y >> 8) & 0xff == s6 && y & 0xff == s7)) by (bit_vector);
    assert(u64_be(x) =~= s);
}

/// Reading back the big-endian image of a `u32` yields the value again.
pub proof fn lemma_u32_be_round_trip(x: u32)
    ensures
        u32_be(x).len() == 4,
        u32_from_be(u32_be(x)) == x,
{
    assert((x >> 24) & 0xff < 256 && (x >> 16) & 0xff < 256 && (x >> 8) & 0xff < 256 && x
        & 0xff < 256) by (bit_vector);
    assert(((x >> 24) & 0xff) << 24 | ((x >> 16) & 0xff) << 16 | ((x >> 8) & 0xff) << 8 | (x
        & 0xff) == x) by (bit_vector);
}

/// Re-encoding the `u32` read from 4 bytes yields the same bytes.
pub proof fn lemma_u32_be_inverse(s: Seq<u8>)
    requires
        s.len() == 4,
    ensures
        u32_be(u32_from_be(s)) == s,
{
    let s0 = s[0] as u32;
    let s1 = s[1] as u32;
    let s2 = s[2] as u32;
    let s3 = s[3] as u32;
    let y = s0 << 24 | s1 << 16 | s2 << 8 | s3;
    assert((y == s0 << 24 | s1 << 16 | s2 << 8 | s3 && s0 < 256 && s1 < 256 && s2 < 256
        && s3 < 256) ==> ((y >> 24) & 0xff == s0 && (y
        >> 16) & 0xff == s1 && (y >> 8) & 0xff == s2 && y & 0xff == s3)) by (bit_vector);
    assert(u32_be(u32_from_be(s)) =~= s);
}

/// A `u64` whose big-endian image is all zero bytes is zero.
pub proof fn lemma_u64_be_all_zero(x: u64)
    requires
        forall|j: int| 0 <= j < 8 ==> u64_be(x)[j] == 0,
    ensures
        x == 0,
{
    assert((x >> 56) & 0xff < 256 && (x >> 48) & 0xff < 256 && (x >> 40) & 0xff < 256 && (x
        >> 32) & 0xff < 256 && (x >> 24) & 0xff < 256 && (x >> 16) & 0xff < 256 && (x >> 8)
        & 0xff < 256 && x & 0xff < 256) by (bit_vector);
    assert(u64_be(x)[0] == ((x >> 56) & 0xff) as u8);
    assert(u64_be(x)[1] == ((x >> 48) & 0xff) as u8);
    assert(u64_be(x)[2] == ((x >> 40) & 0xff) as u8);
    assert(u64_be(x)[3] == ((x >> 32) & 0xff) as u8);
    assert(u64_be(x)[4] == ((x >> 24) & 0xff) as u8);
    assert(u64_be(x)[5] == ((x >> 16) & 0xff) as u8);
    assert(u64_be(x)[6] == ((x >> 8) & 0xff) as u8);
    assert(u64_be(x)[7] == (x & 0xff) as u8);
    assert(((x >> 56) & 0xff == 0 && (x >> 48) & 0xff == 0 && (x >> 40) & 0xff == 0 && (x
        >> 32) & 0xff == 0 && (x >> 24) & 0xff == 0 && (x >> 16) & 0xff == 0 && (x >> 8) & 0xff
        == 0 && x & 0xff == 0) ==> x == 0) by (bit_vector);
}

/// Appends the 8-byte big-endian image of `x` to `out`.
pub fn push_u64_be(out: &mut Vec<u8>, x: u64)
    ensures
        final(out)@ == old(out)@ + u64_be(x),
{
    out.push(((x >> 56) & 0xff) as u8);
    out.push(((x >> 48) & 0xff) as u8);
    out.push(((x >> 40) & 0xff) as u8);
    out.push(((x >> 32) & 0xff) as u8);
    out.push(((x >> 24) & 0xff) as u8);
    out.push(((x >> 16) & 0xff) as u8);
    out.push(((x >> 8) & 0xff) as u8);
    out.push((x & 0xff) as u8);
    assert(out@ =~= old(out)@ + u64_be(x));
}

/// Appends the 4-byte big-endian image of `x` to `out`.
pub fn push_u32_be(out: &mut Vec<u8>, x: u32)
    ensures
        final(out)@ == old(out)@ + u32_be(x),
{
    out.push(((x >> 24) & 0xff) as u8);
    out.push(((x >> 16) & 0xff) as u8);
    out.push(((x >> 8) & 0xff) as u8);
    out.push((x & 0xff) as u8);
    assert(out@ =~= old(out)@ + u32_be(x));
}

/// Reads the `u64` stored big-endian at `v[offset..offset + 8]`.
pub fn read_u64_be(v: &Vec<u8>, offset: usize) -> (r: u64)
    requires
        offset + 8 <= v@.len(),
    ensures
        r == u64_from_be(v@.subrange(offset as int, offset + 8)),
{
    let ghost s = v@.subrange(offset as int, offset + 8);
    let n = v.len();
    assert(offset + 8 <= n);
    let b0 = v[offset];
    let b1 = v[offset + 1];
    let b2 = v[offset + 2];
    let b3 = v[offset + 3];
    let b4 = v[offset + 4];
    let b5 = v[offset + 5];
    let b6 = v[offset + 6];
    let b7 = v[offset + 7];
    assert(s[0] == b0 && s[1] == b1 && s[2] == b2 && s[3] == b3 && s[4] == b4 && s[5] == b5
        && s[6] == b6 && s[7] == b7);
    (b0 as u64) << 56 | (b1 as u64) << 48 | (b2 as u64) << 40 | (b3 as u64) << 32 | (b4
        as u64) << 24 | (b5 as u64) << 16 | (b6 as u64) << 8 | (b7 as u64)
}

/// Reads the `u32` stored big-endian at `v[offset..offset + 4]`.
pub fn read_u32_be(v: &Vec<u8>, offset: usize) -> (r: u32)
    requires
        offset + 4 <= v@.len(),
    ensures
        r == u32_from_be(v@.subrange(offset as int, offset + 4)),
{
    let ghost s = v@.subrange(offset as int, offset + 4);
    let n = v.len();
    assert(offset + 4 <= n);
    let b0 = v[offset];
    let b1 = v[offset + 1];
    let b2 = v[offset + 2];
    let b3 = v[offset + 3];
    assert(s[0] == b0 && s[1] == b1 && s[2] == b2 && s[3] == b3);
    (b0 as u32) << 24 | (b1 as u32) << 16 | (b2 as u32) << 8 | (b3 as u32)
}

/// True exactly when the two byte vectors hold the same bytes.
pub fn bytes_eq(a: &Vec<u8>, b: &Vec<u8>) -> (r: bool)
    ensures
        r == (a@ =~= b@),
{
    if a.len() != b.len() {
        return false;
    }
    let n = a.len();
    let mut i: usize = 0;
    while i < n
        invariant
            n == a@.len(),
            n == b@.len(),
            i <= n,
            forall|k: int| 0 <= k < i ==> a@[k] == b@[k],
        decreases n - i,
    {
        if a[i] != b[i] {
            return false;
        }
        i = i + 1;
    }
    true
}

/// True exactly when every byte of `v[from..to]` is zero.
pub fn range_is_zero(v: &Vec<u8>, from: usize, to: usize) -> (r: bool)
    requires
        from <= to <= v@.len(),
    ensures
        r == (forall|k: int| from <= k < to ==> v@[k] == 0u8),
{
    let mut i: usize = from;
    while i < to
        invariant
            from <= i <= to <= v@.len(),
            forall|k: int| from <= k < i ==> v@[k] == 0u8,
        decreases to - i,
    {
        if v[i] != 0 {
            return false;
        }
        i = i + 1;
    }
    true
}

/// Appends `n` zero bytes to `out`.
pub fn push_zeros(out: &mut Vec<u8>, n: usize)
    ensures
        final(out)@ == old(out)@ + Seq::new(n as nat, |k: int| 0u8),
{
    let mut i: usize = 0;
    while i < n
        invariant
            i <= n,
            out@ == old(out)@ + Seq::new(i as nat, |k: int| 0u8),
        decreases n - i,
    {
        out.push(0u8);
        assert(out@ =~= old(out)@ + Seq::new((i + 1) as nat, |k: int| 0u8));
        i = i + 1;
    }
    assert(out@ =~= old(out)@ + Seq::new(n as nat, |k: int| 0u8));
}

/// Appends all of `src` to `out`.
pub fn push_bytes(out: &mut Vec<u8>, src: &Vec<u8>)
    ensures
        final(out)@ == old(out)@ + src@,
{
    let n = src.len();
    let mut i: usize = 0;
    while i < n
        invariant
            n == src@.len(),
            i <= n,
            out@ == old(out)@ + src@.subrange(0, i as int),
        decreases n - i,
    {
        out.push(src[i]);
        assert(out@ =~= old(out)@ + src@.subrange(0, (i + 1) as int));
        i = i + 1;
    }
    assert(out@ =~= old(out)@ + src@);
}

/// Returns a copy of `v[from..to]`.
pub fn copy_range(v: &Vec<u8>, from: usize, to: usize) -> (r: Vec<u8>)
    requires
        from <= to <= v@.len(),
    ensures
        r@ == v@.subrange(from as int, to as int),
{
    let mut out: Vec<u8> = Vec::new();
    let mut i: usize = from;
    while i < to
        invariant
            from <= i <= to <= v@.len(),
            out@ == v@.subrange(from as int, i as int),
        decreases to - i,
    {
        out.push(v[i]);
        assert(out@ =~= v@.subrange(from as int, (i + 1) as int));
        i = i + 1;
    }
    out
}

} // verus!
