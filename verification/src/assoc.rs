//! Small last-write-wins association lists, used to model the storage
//! mappings of the on-chain contracts (trusted sources, paymasters, bridge
//! ratios, balances).  An update appends; a lookup scans from the end.

use vstd::prelude::*;
use crate::words::{Address, B256, U256};

verus! {

/// The mapping described by a sequence of `u64`-keyed insertions.
pub open spec fn umap_of<V>(s: Seq<(u64, V)>) -> Map<u64, V>
    decreases s.len(),
{
    if s.len() == 0 {
        Map::empty()
    } else {
        umap_of(s.drop_last()).insert(s.last().0, s.last().1)
    }
}

/// The mapping described by a sequence of `Address`-keyed insertions.
pub open spec fn amap_of<V>(s: Seq<(Address, V)>) -> Map<Address, V>
    decreases s.len(),
{
    if s.len() == 0 {
        Map::empty()
    } else {
        amap_of(s.drop_last()).insert(s.last().0, s.last().1)
    }
}

proof fn lemma_umap_found<V>(s: Seq<(u64, V)>, i: int, k: u64)
    requires
        0 <= i < s.len(),
        s[i].0 == k,
        forall|j: int| i < j < s.len() ==> s[j].0 != k,
    ensures
        umap_of(s).dom().contains(k),
        umap_of(s)[k] == s[i].1,
    decreases s.len(),
{
    if i < s.len() - 1 {
        assert(s.drop_last()[i] == s[i]);
        lemma_umap_found(s.drop_last(), i, k);
    }
}

proof fn lemma_umap_absent<V>(s: Seq<(u64, V)>, k: u64)
    requires
        forall|j: int| 0 <= j < s.len() ==> s[j].0 != k,
    ensures
        !umap_of(s).dom().contains(k),
    decreases s.len(),
{
    if s.len() > 0 {
        lemma_umap_absent(s.drop_last(), k);
    }
}

proof fn lemma_amap_found<V>(s: Seq<(Address, V)>, i: int, k: Address)
    requires
        0 <= i < s.len(),
        s[i].0 == k,
        forall|j: int| i < j < s.len() ==> s[j].0 != k,
    ensures
        amap_of(s).dom().contains(k),
        amap_of(s)[k] == s[i].1,
    decreases s.len(),
{
    if i < s.len() - 1 {
        assert(s.drop_last()[i] == s[i]);
        lemma_amap_found(s.drop_last(), i, k);
    }
}

proof fn lemma_amap_absent<V>(s: Seq<(Address, V)>, k: Address)
    requires
        forall|j: int| 0 <= j < s.len() ==> s[j].0 != k,
    ensures
        !amap_of(s).dom().contains(k),
    decreases s.len(),
{
    if s.len() > 0 {
        lemma_amap_absent(s.drop_last(), k);
    }
}

/// Looks up a `u64` key; `None` exactly when the key is absent.
pub fn ulookup<V: Copy>(v: &Vec<(u64, V)>, k: u64) -> (r: Option<V>)
    ensures
        match r {
            Some(x) => umap_of(v@).dom().contains(k) && umap_of(v@)[k] == x,
            None => !umap_of(v@).dom().contains(k),
        },
{
    let n = v.len();
    let mut i: usize = n;
    while i > 0
        invariant
            i <= n,
            n == v@.len(),
            forall|j: int| i <= j < n ==> v@[j].0 != k,
        decreases i,
    {
        i = i - 1;
        if v[i].0 == k {
            proof {
                lemma_umap_found(v@, i as int, k);
            }
            return Some(v[i].1);
        }
    }
    proof {
        lemma_umap_absent(v@, k);
    }
    None
}

/// Inserts under a `u64` key, overwriting any earlier binding.
pub fn uput<V: Copy>(v: &mut Vec<(u64, V)>, k: u64, value: V)
    ensures
        umap_of(final(v)@) == umap_of(old(v)@).insert(k, value),
{
    let ghost before = v@;
    v.push((k, value));
    proof {
        assert(v@.drop_last() =~= before);
    }
}

/// Looks up an `Address` key; `None` exactly when the key is absent.
pub fn alookup<V: Copy>(v: &Vec<(Address, V)>, k: &Address) -> (r: Option<V>)
    ensures
        match r {
            Some(x) => amap_of(v@).dom().contains(*k) && amap_of(v@)[*k] == x,
            None => !amap_of(v@).dom().contains(*k),
        },
{
    let n = v.len();
    let mut i: usize = n;
    while i > 0
        invariant
            i <= n,
            n == v@.len(),
            forall|j: int| i <= j < n ==> v@[j].0 != *k,
        decreases i,
    {
        i = i - 1;
        if v[i].0 == *k {
            proof {
                lemma_amap_found(v@, i as int, *k);
            }
            return Some(v[i].1);
        }
    }
    proof {
        lemma_amap_absent(v@, *k);
    }
    None
}

/// Inserts under an `Address` key, overwriting any earlier binding.
pub fn aput<V: Copy>(v: &mut Vec<(Address, V)>, k: &Address, value: V)
    ensures
        amap_of(final(v)@) == amap_of(old(v)@).insert(*k, value),
{
    let ghost before = v@;
    v.push((*k, value));
    proof {
        assert(v@.drop_last() =~= before);
    }
}

/// True exactly when the hash is in the sequence.
pub fn contains_hash(v: &Vec<B256>, h: &B256) -> (r: bool)
    ensures
        r == v@.contains(*h),
{
    let n = v.len();
    let mut i: usize = 0;
    while i < n
        invariant
            i <= n,
            n == v@.len(),
            forall|j: int| 0 <= j < i ==> v@[j] != *h,
        decreases n - i,
    {
        if v[i] == *h {
            assert(v@[i as int] == *h);
            return true;
        }
        i = i + 1;
    }
    assert(!v@.contains(*h));
    false
}

/// Adds a hash to the sequence.
pub fn add_hash(v: &mut Vec<B256>, h: &B256)
    ensures
        final(v)@ == old(v)@.push(*h),
        final(v)@.contains(*h),
{
    v.push(*h);
    assert(v@[v@.len() - 1] == *h);
}

/// True exactly when the address is in the sequence.
pub fn contains_addr(v: &Vec<Address>, a: &Address) -> (r: bool)
    ensures
        r == v@.contains(*a),
{
    let n = v.len();
    let mut i: usize = 0;
    while i < n
        invariant
            i <= n,
            n == v@.len(),
            forall|j: int| 0 <= j < i ==> v@[j] != *a,
        decreases n - i,
    {
        if v[i] == *a {
            assert(v@[i as int] == *a);
            return true;
        }
        i = i + 1;
    }
    assert(!v@.contains(*a));
    false
}

/// Adds an address to the sequence.
pub fn add_addr(v: &mut Vec<Address>, a: &Address)
    ensures
        final(v)@ == old(v)@.push(*a),
        final(v)@.contains(*a),
{
    v.push(*a);
    assert(v@[v@.len() - 1] == *a);
}

/// The key of the aliased-account table: a source chain and an account.
#[derive(Clone, Copy, PartialEq, Eq, Structural, Debug)]
pub struct AliasKey {
    pub source_chain_id: U256,
    pub source_account: Address,
}

/// The mapping described by a sequence of alias-table insertions.
pub open spec fn kmap_of<V>(s: Seq<(AliasKey, V)>) -> Map<AliasKey, V>
    decreases s.len(),
{
    if s.len() == 0 {
        Map::empty()
    } else {
        kmap_of(s.drop_last()).insert(s.last().0, s.last().1)
    }
}

proof fn lemma_kmap_found<V>(s: Seq<(AliasKey, V)>, i: int, k: AliasKey)
    requires
        0 <= i < s.len(),
        s[i].0 == k,
        forall|j: int| i < j < s.len() ==> s[j].0 != k,
    ensures
        kmap_of(s).dom().contains(k),
        kmap_of(s)[k] == s[i].1,
    decreases s.len(),
{
    if i < s.len() - 1 {
        assert(s.drop_last()[i] == s[i]);
        lemma_kmap_found(s.drop_last(), i, k);
    }
}

proof fn lemma_kmap_absent<V>(s: Seq<(AliasKey, V)>, k: AliasKey)
    requires
        forall|j: int| 0 <= j < s.len() ==> s[j].0 != k,
    ensures
        !kmap_of(s).dom().contains(k),
    decreases s.len(),
{
    if s.len() > 0 {
        lemma_kmap_absent(s.drop_last(), k);
    }
}

/// Looks up an alias key; `None` exactly when the key is absent.
pub fn klookup<V: Copy>(v: &Vec<(AliasKey, V)>, k: &AliasKey) -> (r: Option<V>)
    ensures
        match r {
            Some(x) => kmap_of(v@).dom().contains(*k) && kmap_of(v@)[*k] == x,
            None => !kmap_of(v@).dom().contains(*k),
        },
{
    let n = v.len();
    let mut i: usize = n;
    while i > 0
        invariant
            i <= n,
            n == v@.len(),
            forall|j: int| i <= j < n ==> v@[j].0 != *k,
        decreases i,
    {
        i = i - 1;
        if v[i].0 == *k {
            proof {
                lemma_kmap_found(v@, i as int, *k);
            }
            return Some(v[i].1);
        }
    }
    proof {
        lemma_kmap_absent(v@, *k);
    }
    None
}

/// Inserts under an alias key, overwriting any earlier binding.
pub fn kput<V: Copy>(v: &mut Vec<(AliasKey, V)>, k: &AliasKey, value: V)
    ensures
        kmap_of(final(v)@) == kmap_of(old(v)@).insert(*k, value),
{
    let ghost before = v@;
    v.push((*k, value));
    proof {
        assert(v@.drop_last() =~= before);
    }
}

/// Copies a vector of plain values.
pub fn copy_vec<T: Copy>(v: &Vec<T>) -> (r: Vec<T>)
    ensures
        r@ == v@,
{
    let n = v.len();
    let mut out: Vec<T> = Vec::new();
    let mut i: usize = 0;
    while i < n
        invariant
            i <= n,
            n == v@.len(),
            out@ == v@.subrange(0, i as int),
        decreases n - i,
    {
        out.push(v[i]);
        assert(out@ =~= v@.subrange(0, (i + 1) as int));
        i = i + 1;
    }
    assert(out@ =~= v@);
    out
}

} // verus!
