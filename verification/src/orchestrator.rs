//! The per-log pipeline of the relayer: parse the event, forward the
//! message to every chain, materialize it when it is type C, and insert
//! it into the store last.  The order is load-bearing: forwarding before
//! storage propagates messages that later type-C events reference, and
//! insertion after materialization keeps every observed message in the
//! store even when its materialization failed.

use vstd::prelude::*;
use crate::words::B256;
use crate::message::{EventLog, InteropMessageParsed, is_interop_event_log};
use crate::chain::InteropChain;
use crate::store::MessageStore;
use crate::forward::{handle_type_a_message, forward_sends};
use crate::materializer::{MaterializeError, TransactionRequest, materialize_check,
    type_c_payload};
use crate::abi::{spec_transaction_of, decode_interop_transaction};
use crate::bytes::copy_range;

verus! {

/// What the pipeline did with one message beyond forwarding it.
pub enum MaterializeOutcome {
    /// The message is not type C; nothing was materialized.
    NotTypeC,
    /// The materialized transaction was submitted to this chain.
    Submitted(u64, TransactionRequest),
    /// Materialization was skipped or failed; the message is still stored.
    Skipped(MaterializeError),
}

/// What handling one log produced.
pub struct HandleReport {
    /// The chains `receiveInteropMessage` was submitted to.
    pub forwarded_to: Vec<u64>,
    /// The materialization outcome.
    pub outcome: MaterializeOutcome,
}

/// Materializes one type-C message and submits the built transaction on
/// the destination chain; the mined `executeInteropBundle` marks the
/// bundle executed there.  On error, no chain changes.
#[verifier::rlimit(60)]
#[verifier::spinoff_prover]
pub fn handle_type_c_message(
    msg: &InteropMessageParsed,
    chains: &mut Vec<InteropChain>,
    store: &MessageStore,
) -> (r: Result<(u64, TransactionRequest), MaterializeError>)
    requires
        msg@.is_type_c(),
        forall|a: int, b: int| 0 <= a < b < old(chains)@.len() ==> old(chains)@[a].chain_id
            != old(chains)@[b].chain_id,
    ensures
        final(chains)@.len() == old(chains)@.len(),
        forall|i: int| 0 <= i < final(chains)@.len() ==> #[trigger] final(chains)@[i].chain_id
            == old(chains)@[i].chain_id,
        forall|i: int, h: B256| 0 <= i < old(chains)@.len() && old(chains)@[i].spec_is_received(
            h,
        ) ==> #[trigger] final(chains)@[i].spec_is_received(h),
        match r {
            Err(e) => Some(e) == materialize_check(msg@, old(chains)@, store@) && final(chains)@ == old(chains)@,
            Ok((dest, req)) => {
                let t = spec_transaction_of(type_c_payload(msg@));
                &&& materialize_check(msg@, old(chains)@, store@) is None
                &&& dest == t.destination_chain.w3
                &&& forall|i: int| 0 <= i < final(chains)@.len() && final(chains)@[i].chain_id
                    == dest ==> #[trigger] final(chains)@[i].spec_is_executed(t.bundle_hash)
            },
        },
{
    let r = msg.create_transaction_request(chains, store);
    let (dest, req) = match r {
        Ok(p) => p,
        Err(e) => {
            return Err(e);
        },
    };
    let ghost mid = chains@;
    let ghost t = spec_transaction_of(type_c_payload(msg@));
    let data_len = msg.interop_message.data.len();
    let payload = copy_range(&msg.interop_message.data, 1, data_len);
    proof {
        assert(payload@ =~= type_c_payload(msg@));
        assert(crate::abi::is_transaction_encoding(payload@)) by {
            reveal(materialize_check);
        }
    }
    let tx = match decode_interop_transaction(&payload) {
        Some(x) => x,
        None => {
            proof {
                assert(false);
            }
            return Err(MaterializeError::Decode);
        },
    };
    let dest_index = match crate::chain::find_chain(chains, dest) {
        Some(i) => i,
        None => {
            proof {
                assert(crate::materializer::has_chain(old(chains)@, dest)) by {
                    reveal(materialize_check);
                }
                let j = choose|j: int| 0 <= j < old(chains)@.len() && old(chains)@[j].chain_id == dest;
                assert(chains@[j].chain_id == dest);
            }
            return Err(MaterializeError::UnknownDestination);
        },
    };
    let mut dst = chains[dest_index].clone();
    dst.mark_bundle_executed(&tx.bundle_hash);
    chains.set(dest_index, dst);
    proof {
        assert(chains@ == mid.update(dest_index as int, chains@[dest_index as int]));
        assert forall|i: int| 0 <= i < chains@.len() && chains@[i].chain_id == dest implies
            #[trigger] chains@[i].spec_is_executed(t.bundle_hash) by {
            if i != dest_index as int {
                assert(chains@[i] == old(chains)@[i]);
                assert(old(chains)@[dest_index as int].chain_id == dest);
                assert(false);
            }
        }
    }
    Ok((dest, req))
}

/// Handles one observed event log end to end: parse, forward to every
/// chain, materialize when type C, and insert into the store last.  The
/// message reaches the store whatever the materialization outcome; by the
/// time it does, its forwarding has been attempted on every chain.
#[verifier::rlimit(60)]
#[verifier::spinoff_prover]
pub fn handle_interop_log(
    log: &EventLog,
    observed_on: u64,
    chains: &mut Vec<InteropChain>,
    store: &mut MessageStore,
) -> (r: Option<HandleReport>)
    requires
        forall|a: int, b: int| 0 <= a < b < old(chains)@.len() ==> old(chains)@[a].chain_id
            != old(chains)@[b].chain_id,
    ensures
        match r {
            None => {
                &&& !is_interop_event_log(log.address, log.topics@, log.data@)
                &&& final(chains)@ == old(chains)@
                &&& final(store)@ == old(store)@
            },
            Some(report) => {
                &&& is_interop_event_log(log.address, log.topics@, log.data@)
                &&& final(chains)@.len() == old(chains)@.len()
                &&& final(store)@ == old(store)@.insert(
                    log.topics@[1],
                    final(store)@[log.topics@[1]],
                )
                &&& final(store)@.dom().contains(log.topics@[1])
                &&& final(store)@[log.topics@[1]].msg_hash == log.topics@[1]
                &&& final(store)@[log.topics@[1]].chain_id == observed_on
                &&& final(store)@[log.topics@[1]].data == log.data@
                &&& final(store)@[log.topics@[1]].interop_center_sender == log.address
                &&& forall|i: int| 0 <= i < final(chains)@.len()
                    ==> #[trigger] final(chains)@[i].spec_is_received(log.topics@[1])
                &&& report.forwarded_to@ == forward_sends(old(chains)@, log.topics@[1])
            },
        },
{
    let msg = match InteropMessageParsed::from_log(log, observed_on) {
        Some(m) => m,
        None => {
            return None;
        },
    };
    let (forwarded, sent) = handle_type_a_message(&msg, chains);
    *chains = forwarded;
    proof {
        assert forall|a: int, b: int| 0 <= a < b < chains@.len() implies chains@[a].chain_id
            != chains@[b].chain_id by {
            assert(InteropChain::same_but_received(old(chains)@[a], chains@[a]));
            assert(InteropChain::same_but_received(old(chains)@[b], chains@[b]));
        }
    }
    let outcome: MaterializeOutcome = if msg.is_type_c() {
        match handle_type_c_message(&msg, chains, store) {
            Ok((dest, req)) => MaterializeOutcome::Submitted(dest, req),
            Err(e) => MaterializeOutcome::Skipped(e),
        }
    } else {
        MaterializeOutcome::NotTypeC
    };
    store.insert(msg);
    Some(HandleReport { forwarded_to: sent, outcome })
}

} // verus!
