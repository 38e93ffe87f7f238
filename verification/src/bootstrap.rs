//! The bootstrap reconciler.  Before the watchers start, every ordered
//! pair of chains — a pair of one chain with itself included — is brought
//! to the desired state: the destination trusts the source's
//! InteropCenter, knows the source's preferred paymaster, and has the
//! source's paymaster token bridged at the two chains' price ratio.  Every
//! step reads the current state and writes only what differs, so a rerun
//! of the loop on an already-configured registry performs no writes.

use vstd::prelude::*;
use crate::words::Address;
use crate::chain::InteropChain;


verus! {

/// What the reconciler reads from a source chain once, at the start:
/// these values are stable across the reconciler's own writes.
#[derive(Clone, Copy, PartialEq, Eq, Structural, Debug)]
pub struct SrcInfo {
    pub chain_id: u64,
    pub interop_address: Address,
    pub paymaster: Address,
    pub token: Address,
    pub base_token_price: u64,
}

/// The info record describes the chain.
pub open spec fn info_matches(info: SrcInfo, c: InteropChain) -> bool {
    &&& info.chain_id == c.chain_id
    &&& info.interop_address == c.interop_address
    &&& info.paymaster == c.spec_preferred_paymaster(c.chain_id)
    &&& info.token == c.spec_own_token()
    &&& info.base_token_price == c.base_token_price
}

/// The desired state of one ordered pair: the destination trusts the
/// source's InteropCenter, knows its preferred paymaster, and bridges its
/// paymaster token at nominator `destination price`, denominator `source
/// price`.
pub open spec fn pair_configured(src: InteropChain, dst: InteropChain) -> bool {
    &&& dst.spec_trusted_source(src.chain_id) == src.interop_address
    &&& dst.spec_preferred_paymaster(src.chain_id) == src.spec_preferred_paymaster(src.chain_id)
    &&& dst.spec_bridge_remote(src.chain_id) == src.spec_own_token()
    &&& dst.spec_bridge_nominator(src.chain_id) == dst.base_token_price
    &&& dst.spec_bridge_denominator(src.chain_id) == src.base_token_price
}

/// The pair's desired state, phrased over the frozen source info.
pub open spec fn pair_done(info: SrcInfo, dst: InteropChain) -> bool {
    &&& dst.spec_trusted_source(info.chain_id) == info.interop_address
    &&& dst.spec_preferred_paymaster(info.chain_id) == info.paymaster
    &&& dst.spec_bridge_remote(info.chain_id) == info.token
    &&& dst.spec_bridge_nominator(info.chain_id) == dst.base_token_price
    &&& dst.spec_bridge_denominator(info.chain_id) == info.base_token_price
}

/// Every ordered pair of the registry is in the desired state.
pub open spec fn all_configured(chains: Seq<InteropChain>) -> bool {
    forall|a: int, b: int| 0 <= a < chains.len() && 0 <= b < chains.len()
        ==> #[trigger] pair_configured(chains[a], chains[b])
}

/// Reads the per-source values the reconciler compares against.
pub fn collect_src_info(chains: &Vec<InteropChain>) -> (r: Vec<SrcInfo>)
    ensures
        r@.len() == chains@.len(),
        forall|i: int| 0 <= i < chains@.len() ==> info_matches(#[trigger] r@[i], chains@[i]),
{
    let n = chains.len();
    let mut out: Vec<SrcInfo> = Vec::new();
    let mut i: usize = 0;
    while i < n
        invariant
            i <= n,
            n == chains@.len(),
            out@.len() == i,
            forall|j: int| 0 <= j < i ==> info_matches(#[trigger] out@[j], chains@[j]),
        decreases n - i,
    {
        let c = &chains[i];
        let paymaster = c.get_preferred_paymaster();
        let token = c.get_paymaster_basic_token();
        out.push(
            SrcInfo {
                chain_id: c.chain_id,
                interop_address: c.interop_address,
                paymaster,
                token,
                base_token_price: c.base_token_price,
            },
        );
        i = i + 1;
    }
    out
}

/// The three per-key slots the pair's reconciliation may write, read the
/// same on both chains.
pub open spec fn slots_match(info: SrcInfo, c1: InteropChain, c2: InteropChain) -> bool {
    &&& c1.spec_trusted_source(info.chain_id) == c2.spec_trusted_source(info.chain_id)
    &&& c1.spec_preferred_paymaster(info.chain_id) == c2.spec_preferred_paymaster(info.chain_id)
    &&& c1.spec_bridge_remote(info.chain_id) == c2.spec_bridge_remote(info.chain_id)
    &&& c1.spec_bridge_nominator(info.chain_id) == c2.spec_bridge_nominator(info.chain_id)
    &&& c1.spec_bridge_denominator(info.chain_id) == c2.spec_bridge_denominator(info.chain_id)
}

/// Reconciles one ordered pair on the destination chain: each of the
/// three steps reads the current value and writes only on a difference.
/// Returns the updated destination and how many writes were submitted.
pub fn bootstrap_pair(dst: InteropChain, info: &SrcInfo) -> (r: (InteropChain, u64))
    ensures
        InteropChain::same_config(dst, r.0),
        InteropChain::same_but_admin_tables(dst, r.0),
        pair_done(*info, r.0),
        r.1 == 0 <==> pair_done(*info, dst),
        r.1 <= 3,
        forall|k: u64| k != info.chain_id ==> r.0.spec_trusted_source(k)
            == dst.spec_trusted_source(k),
        forall|k: u64| k != info.chain_id ==> r.0.spec_preferred_paymaster(k)
            == dst.spec_preferred_paymaster(k),
        forall|k: u64| k != info.chain_id ==> r.0.spec_bridge_remote(k)
            == dst.spec_bridge_remote(k),
        forall|k: u64| k != info.chain_id ==> r.0.spec_bridge_nominator(k)
            == dst.spec_bridge_nominator(k),
        forall|k: u64| k != info.chain_id ==> r.0.spec_bridge_denominator(k)
            == dst.spec_bridge_denominator(k),
{
    let mut c = dst;
    let mut writes: u64 = 0;
    let current_trusted = c.get_trusted_source(info.chain_id);
    if current_trusted != info.interop_address {
        c.add_trusted_source(info.chain_id, &info.interop_address);
        writes = writes + 1;
    }
    let ghost c1 = c;
    let current_paymaster = c.get_preferred_paymaster_for(info.chain_id);
    if current_paymaster != info.paymaster {
        c.set_preferred_paymaster(info.chain_id, &info.paymaster);
        writes = writes + 1;
    }
    let ghost c2 = c;
    let current_remote = c.get_bridge_remote(info.chain_id);
    let current_nominator = c.get_bridge_nominator(info.chain_id);
    let current_denominator = c.get_bridge_denominator(info.chain_id);
    if current_remote != info.token || current_nominator != c.base_token_price
        || current_denominator != info.base_token_price {
        c.add_other_bridge(info.chain_id, &info.token, c.base_token_price,
            info.base_token_price);
        writes = writes + 1;
    }
    proof {
        let key = info.chain_id;
        assert forall|k: u64| k != key implies c.spec_trusted_source(k)
            == dst.spec_trusted_source(k) by {
            assert(c1.spec_trusted_source(k) == dst.spec_trusted_source(k));
            assert(c2.spec_trusted_source(k) == c1.spec_trusted_source(k));
            assert(c.spec_trusted_source(k) == c2.spec_trusted_source(k));
        }
        assert forall|k: u64| k != key implies c.spec_preferred_paymaster(k)
            == dst.spec_preferred_paymaster(k) by {
            assert(c1.spec_preferred_paymaster(k) == dst.spec_preferred_paymaster(k));
            assert(c2.spec_preferred_paymaster(k) == c1.spec_preferred_paymaster(k));
            assert(c.spec_preferred_paymaster(k) == c2.spec_preferred_paymaster(k));
        }
        assert forall|k: u64| k != key implies c.spec_bridge_remote(k)
            == dst.spec_bridge_remote(k) && c.spec_bridge_nominator(k)
            == dst.spec_bridge_nominator(k) && c.spec_bridge_denominator(k)
            == dst.spec_bridge_denominator(k) by {
            assert(c1.spec_bridge_remote(k) == dst.spec_bridge_remote(k));
            assert(c2.spec_bridge_remote(k) == c1.spec_bridge_remote(k));
            assert(c1.spec_bridge_nominator(k) == dst.spec_bridge_nominator(k));
            assert(c2.spec_bridge_nominator(k) == c1.spec_bridge_nominator(k));
            assert(c1.spec_bridge_denominator(k) == dst.spec_bridge_denominator(k));
            assert(c2.spec_bridge_denominator(k) == c1.spec_bridge_denominator(k));
        }
    }
    (c, writes)
}

/// Whether a pair of indices comes before the position `(s, d)` in the
/// reconciler's pass order.
pub open spec fn lex_before(a: int, b: int, s: int, d: int) -> bool {
    a < s || (a == s && b < d)
}

/// Runs the reconciler over every ordered pair of the registry, origin
/// pairs included.  Returns the updated registry and the number of
/// on-chain writes; the count is zero exactly when the registry was
/// already fully configured, so a second run right after a first performs
/// no writes.
#[verifier::rlimit(100)]
#[verifier::spinoff_prover]
pub fn bootstrap_all(chains: &Vec<InteropChain>) -> (r: (Vec<InteropChain>, u64))
    requires
        chains@.len() < 0x1000_0000,
        forall|a: int, b: int| 0 <= a < b < chains@.len() ==> chains@[a].chain_id
            != chains@[b].chain_id,
    ensures
        r.0@.len() == chains@.len(),
        forall|i: int| 0 <= i < chains@.len() ==> InteropChain::same_config(
            chains@[i],
            #[trigger] r.0@[i],
        ) && InteropChain::same_but_admin_tables(chains@[i], r.0@[i]),
        all_configured(r.0@),
        r.1 == 0 <==> all_configured(chains@),
{
    let n = chains.len();
    let info = collect_src_info(chains);
    let mut cur: Vec<InteropChain> = copy_vec_chains(chains);
    let mut writes: u64 = 0;
    let mut s: usize = 0;
    while s < n
        invariant
            s <= n,
            n == chains@.len(),
            n < 0x1000_0000,
            info@.len() == n,
            cur@.len() == n,
            forall|a: int, b: int| 0 <= a < b < n ==> chains@[a].chain_id
                != chains@[b].chain_id,
            forall|i: int| 0 <= i < n ==> info_matches(#[trigger] info@[i], chains@[i]),
            forall|i: int| 0 <= i < n ==> InteropChain::same_config(
                chains@[i],
                #[trigger] cur@[i],
            ) && InteropChain::same_but_admin_tables(chains@[i], cur@[i]),
            forall|i: int| 0 <= i < n ==> info_matches(#[trigger] info@[i], cur@[i]),
            forall|a: int, b: int| 0 <= a < n && 0 <= b < n && lex_before(a, b, s as int, 0)
                ==> #[trigger] pair_done(info@[a], cur@[b]),
            forall|a: int, b: int| 0 <= a < n && 0 <= b < n && !lex_before(
                a, b, s as int, 0,
            ) ==> #[trigger] slots_match(info@[a], cur@[b], chains@[b]),
            writes <= 3 * (s as int) * (n as int),
            writes == 0 <==> (forall|a: int, b: int| 0 <= a < n && 0 <= b < n && lex_before(
                a, b, s as int, 0,
            ) ==> #[trigger] pair_done(info@[a], chains@[b])),
        decreases n - s,
    {
        let mut d: usize = 0;
        while d < n
            invariant
                s < n,
                d <= n,
                n == chains@.len(),
                n < 0x1000_0000,
                info@.len() == n,
                cur@.len() == n,
                forall|a: int, b: int| 0 <= a < b < n ==> chains@[a].chain_id
                    != chains@[b].chain_id,
                forall|i: int| 0 <= i < n ==> info_matches(#[trigger] info@[i], chains@[i]),
                forall|i: int| 0 <= i < n ==> InteropChain::same_config(
                    chains@[i],
                    #[trigger] cur@[i],
                ) && InteropChain::same_but_admin_tables(chains@[i], cur@[i]),
                forall|i: int| 0 <= i < n ==> info_matches(#[trigger] info@[i], cur@[i]),
                forall|a: int, b: int| 0 <= a < n && 0 <= b < n && lex_before(
                    a, b, s as int, d as int,
                ) ==> #[trigger] pair_done(info@[a], cur@[b]),
                forall|a: int, b: int| 0 <= a < n && 0 <= b < n && !lex_before(
                    a, b, s as int, d as int,
                ) ==> #[trigger] slots_match(info@[a], cur@[b], chains@[b]),
                writes <= 3 * (s as int) * (n as int) + 3 * (d as int),
                writes == 0 <==> (forall|a: int, b: int| 0 <= a < n && 0 <= b < n
                    && lex_before(a, b, s as int, d as int) ==> #[trigger] pair_done(info@[a], chains@[b])),
            decreases n - d,
        {
            let si = info[s];
            proof {
                assert(3 * (s as int) * (n as int) + 3 * (d as int) + 3 <= 3 * (n as int) * (
                n as int)) by (nonlinear_arith)
                    requires
                        s < n,
                        d < n,
                ;
                assert(3 * (n as int) * (n as int) <= 0x3000_0000_0000_0000) by (
                nonlinear_arith)
                    requires
                        n < 0x1000_0000,
                ;
            }
            let ghost prev = cur@;
            let dst = cur[d].clone();
            let (c, w) = bootstrap_pair(dst, &si);
            let ghost cv = c;
            cur.set(d, c);
            writes = writes + w;
            proof {
                let ghost sd = s as int;
                let ghost dd = d as int;
                assert(cur@ == prev.update(dd, cv));
                assert(InteropChain::same_chain(prev[dd], dst));
                // the slot key belongs to this pair alone
                assert forall|a: int| 0 <= a < n && a != sd implies info@[a].chain_id
                    != info@[sd].chain_id by {
                    if a < sd {
                        assert(chains@[a].chain_id != chains@[sd].chain_id);
                    } else {
                        assert(chains@[sd].chain_id != chains@[a].chain_id);
                    }
                }
                // the updated chain still matches its frozen info record
                assert(info_matches(info@[dd], cv)) by {
                    assert(info_matches(info@[dd], prev[dd]));
                    assert(cv.chain_id == prev[dd].chain_id);
                    if info@[sd].chain_id == cv.chain_id {
                        if sd != dd {
                            assert(info@[dd].chain_id == chains@[dd].chain_id);
                            assert(false);
                        }
                        assert(pair_done(info@[sd], cv));
                        assert(cv.spec_preferred_paymaster(cv.chain_id) == info@[dd].paymaster);
                    } else {
                        assert(cv.spec_preferred_paymaster(cv.chain_id)
                            == dst.spec_preferred_paymaster(cv.chain_id));
                        assert(dst.spec_preferred_paymaster(cv.chain_id)
                            == prev[dd].spec_preferred_paymaster(prev[dd].chain_id));
                        assert(cv.spec_preferred_paymaster(cv.chain_id) == info@[dd].paymaster);
                    }
                    assert(cv.paymaster_tokens@ == prev[dd].paymaster_tokens@);
                    assert(cv.spec_paymaster_token(info@[dd].paymaster) == prev[
                    dd].spec_paymaster_token(info@[dd].paymaster));
                    assert(cv.spec_own_token() == info@[dd].token);
                }
                // every pair processed so far is done on the new registry
                assert forall|a: int, b: int| 0 <= a < n && 0 <= b < n && lex_before(
                    a, b, sd, dd + 1,
                ) implies #[trigger] pair_done(info@[a], cur@[b]) by {
                    if b != dd {
                        assert(cur@[b] == prev[b]);
                    } else {
                        if a == sd && b == dd {
                        } else {
                            assert(lex_before(a, b, sd, dd));
                            assert(pair_done(info@[a], prev[dd]));
                            assert(pair_done(info@[a], dst));
                            assert(info@[a].chain_id != info@[sd].chain_id);
                            assert(pair_done(info@[a], cv));
                        }
                    }
                }
                // untouched slots still read as in the original registry
                assert forall|a: int, b: int| 0 <= a < n && 0 <= b < n && !lex_before(
                    a, b, sd, dd + 1,
                ) implies #[trigger] slots_match(info@[a], cur@[b], chains@[b]) by {
                    if b != dd {
                        assert(cur@[b] == prev[b]);
                        assert(!lex_before(a, b, sd, dd));
                    } else {
                        assert(a != sd);
                        assert(!lex_before(a, b, sd, dd));
                        assert(slots_match(info@[a], prev[dd], chains@[dd]));
                        assert(slots_match(info@[a], dst, chains@[dd]));
                        assert(info@[a].chain_id != info@[sd].chain_id);
                        assert(slots_match(info@[a], cv, chains@[dd]));
                    }
                }
                // this pair's checks read the original state, so the write
                // count stays zero exactly on an already-configured prefix
                assert(slots_match(info@[sd], prev[dd], chains@[dd]));
                assert(slots_match(info@[sd], dst, chains@[dd]));
                assert(w == 0 <==> pair_done(info@[sd], chains@[dd]));
            }
            d = d + 1;
        }
        proof {
            assert(3 * ((s as int) + 1) * (n as int) == 3 * (s as int) * (n as int) + 3 * (
            n as int)) by (nonlinear_arith);
        }
        s = s + 1;
    }
    proof {
        assert forall|a: int, b: int| 0 <= a < chains@.len() && 0 <= b < chains@.len()
            implies #[trigger] pair_configured(cur@[a], cur@[b]) by {
            assert(pair_done(info@[a], cur@[b]));
            assert(info_matches(info@[a], cur@[a]));
        }
        if writes == 0 {
            assert forall|a: int, b: int| 0 <= a < chains@.len() && 0 <= b < chains@.len()
                implies #[trigger] pair_configured(chains@[a], chains@[b]) by {
                assert(lex_before(a, b, n as int, 0));
                assert(pair_done(info@[a], chains@[b]));
                assert(info_matches(info@[a], chains@[a]));
            }
        } else {
            if all_configured(chains@) {
                assert forall|a: int, b: int| 0 <= a < n && 0 <= b < n implies
                    #[trigger] pair_done(info@[a], chains@[b]) by {
                    assert(pair_configured(chains@[a], chains@[b]));
                    assert(info_matches(info@[a], chains@[a]));
                }
                assert(false);
            }
        }
    }
    (cur, writes)
}

/// Copies the registry.
fn copy_vec_chains(chains: &Vec<InteropChain>) -> (r: Vec<InteropChain>)
    ensures
        r@.len() == chains@.len(),
        forall|i: int| 0 <= i < chains@.len() ==> InteropChain::same_chain(
            chains@[i],
            #[trigger] r@[i],
        ),
{
    let n = chains.len();
    let mut out: Vec<InteropChain> = Vec::new();
    let mut i: usize = 0;
    while i < n
        invariant
            i <= n,
            n == chains@.len(),
            out@.len() == i,
            forall|j: int| 0 <= j < i ==> InteropChain::same_chain(
                chains@[j],
                #[trigger] out@[j],
            ),
        decreases n - i,
    {
        out.push(chains[i].clone());
        i = i + 1;
    }
    out
}

} // verus!
