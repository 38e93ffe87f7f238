//! The type-A handler: replay an observed message onto every chain in the
//! registry, the origin included, skipping each chain that already has the
//! message marked received.  The `receivedMessages` check is what keeps
//! the historical window from duplicating fan-out calls.

use vstd::prelude::*;
use crate::words::B256;
use crate::chain::InteropChain;
use crate::message::InteropMessageParsed;

verus! {

/// The chain ids that a fan-out of `h` over `chains` submits to: exactly
/// the chains that do not yet have `h` marked received, in registry order.
pub open spec fn forward_sends(chains: Seq<InteropChain>, h: B256) -> Seq<u64>
    decreases chains.len(),
{
    if chains.len() == 0 {
        Seq::empty()
    } else {
        forward_sends(chains.drop_last(), h) + (if chains.last().spec_is_received(h) {
            Seq::<u64>::empty()
        } else {
            seq![chains.last().chain_id]
        })
    }
}

/// Forwards one observed message to every chain of the registry.  Each
/// chain that already has the hash marked received is left untouched; on
/// every other chain `receiveInteropMessage` is submitted.  Returns the
/// new registry and the chain ids that were submitted to.
pub fn handle_type_a_message(msg: &InteropMessageParsed, chains: &Vec<InteropChain>) -> (r: (
    Vec<InteropChain>, Vec<u64>))
    ensures
        r.0@.len() == chains@.len(),
        forall|i: int| 0 <= i < chains@.len() ==> InteropChain::same_but_received(
            chains@[i],
            r.0@[i],
        ),
        forall|i: int| 0 <= i < chains@.len() ==> r.0@[i].spec_is_received(msg.msg_hash),
        forall|i: int| 0 <= i < chains@.len() && chains@[i].spec_is_received(msg.msg_hash)
            ==> r.0@[i].received_messages@ == chains@[i].received_messages@,
        forall|i: int, h: B256| 0 <= i < chains@.len() && chains@[i].spec_is_received(h)
            ==> #[trigger] r.0@[i].spec_is_received(h),
        r.1@ == forward_sends(chains@, msg.msg_hash),
{
    let h = msg.msg_hash;
    let n = chains.len();
    let mut out: Vec<InteropChain> = Vec::new();
    let mut sent: Vec<u64> = Vec::new();
    let mut i: usize = 0;
    while i < n
        invariant
            i <= n,
            n == chains@.len(),
            out@.len() == i,
            forall|j: int| 0 <= j < i ==> InteropChain::same_but_received(
                chains@[j],
                out@[j],
            ),
            forall|j: int| 0 <= j < i ==> out@[j].spec_is_received(h),
            forall|j: int| 0 <= j < i && chains@[j].spec_is_received(h)
                ==> out@[j].received_messages@ == chains@[j].received_messages@,
            forall|j: int, g: B256| 0 <= j < i && chains@[j].spec_is_received(g)
                ==> #[trigger] out@[j].spec_is_received(g),
            sent@ == forward_sends(chains@.take(i as int), h),
        decreases n - i,
    {
        let mut c = chains[i].clone();
        if !c.is_message_received(&h) {
            c.receive_interop_message(&h);
            sent.push(c.chain_id);
        }
        out.push(c);
        proof {
            assert(chains@.take(i + 1).drop_last() =~= chains@.take(i as int));
            assert(chains@.take(i + 1).last() == chains@[i as int]);
            assert(sent@ =~= forward_sends(chains@.take(i + 1), h));
        }
        i = i + 1;
    }
    proof {
        assert(chains@.take(n as int) =~= chains@);
    }
    (out, sent)
}

/// Once every chain has the hash marked received, a second fan-out of
/// the same message submits nothing.
pub proof fn lemma_forward_replay_is_silent(chains: Seq<InteropChain>, h: B256)
    requires
        forall|i: int| 0 <= i < chains.len() ==> chains[i].spec_is_received(h),
    ensures
        forward_sends(chains, h) == Seq::<u64>::empty(),
    decreases chains.len(),
{
    if chains.len() > 0 {
        lemma_forward_replay_is_silent(chains.drop_last(), h);
        assert(forward_sends(chains, h) =~= Seq::<u64>::empty());
    }
}

} // verus!
