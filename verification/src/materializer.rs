//! The type-C handler: from an observed type-C message to the raw
//! fee-sponsored transaction submitted on the destination chain.
//!
//! The pipeline resolves the referenced bundle in the store, skips work
//! the destination has already executed, deploys the aliased sender
//! account where its code is missing, tops the paymaster up, and builds
//! the transaction request whose custom-signature field carries the
//! provenance record.  All checks that can fail come before any on-chain
//! write, so a failed materialization leaves every chain untouched.

use vstd::prelude::*;
use crate::words::{Address, B256, U256};
use crate::abi::{InteropTransaction, InteropTransactionView, TransactionReservedStuff,
    enc_reserved_stuff, enc_message, encode_reserved_stuff, encode_interop_message,
    decode_interop_transaction, is_transaction_encoding, spec_transaction_of};
use crate::calls::{execute_bundle_calldata, calldata_execute_interop_bundle};
use crate::message::{InteropMessageParsed, ParsedMessageView};
use crate::chain::InteropChain;
use crate::store::MessageStore;
use crate::assoc::AliasKey;
use crate::bytes::copy_range;

verus! {

/// Why a type-C message was not materialized.
#[derive(Clone, Copy, PartialEq, Eq, Structural, Debug)]
pub enum MaterializeError {
    /// The embedded transaction bytes are not a valid encoding.
    Decode,
    /// The destination chain id does not name a configured chain.
    UnknownDestination,
    /// The referenced bundle — or fee bundle — is not in the store yet.
    MissingDependency,
    /// The destination already executed the bundle or the fee bundle.
    AlreadyExecuted,
    /// A referenced message is too large to re-encode.
    Oversize,
    /// A gas parameter does not fit the transaction envelope.
    GasOutOfRange,
}

/// The fee-sponsored transaction request handed to the submitter.  The
/// decoded `value` of the interop transaction is deliberately not
/// carried over: the envelope is sent with zero value, a known gap.
pub struct TransactionRequest {
    /// The destination chain's InteropCenter.
    pub to: Address,
    /// The aliased sender account.
    pub from: Address,
    pub gas_limit: u64,
    pub max_fee_per_gas: u64,
    pub max_priority_fee_per_gas: u64,
    /// Constant for every materialized transaction.
    pub gas_per_pubdata: u64,
    pub paymaster: Address,
    pub paymaster_input: Vec<u8>,
    /// The provenance record, standing in for an ECDSA signature.
    pub custom_signature: Vec<u8>,
    /// `executeInteropBundle` calldata for the referenced bundle.
    pub calldata: Vec<u8>,
}

/// The bytes after the type tag of a type-C message.
pub open spec fn type_c_payload(m: ParsedMessageView) -> Seq<u8> {
    m.interop_message.data.skip(1)
}

/// Some configured chain carries this id.
pub open spec fn has_chain(chains: Seq<InteropChain>, id: u64) -> bool {
    exists|i: int| 0 <= i < chains.len() && chains[i].chain_id == id
}

/// The configured chain carrying this id (unique ids assumed).
pub open spec fn chain_with(chains: Seq<InteropChain>, id: u64) -> InteropChain {
    chains[choose|i: int| 0 <= i < chains.len() && chains[i].chain_id == id]
}

/// The provenance record of one type-C message.
pub open spec fn reserved_stuff_of(m: ParsedMessageView, t: InteropTransactionView)
    -> TransactionReservedStuff {
    TransactionReservedStuff {
        source_chain_sender: t.source_chain_sender,
        interop_message_sender: m.interop_message.sender,
        source_chain_id: m.interop_message.source_chain_id,
        message_num: m.interop_message.message_num,
        destination_chain_id: t.destination_chain,
        bundle_hash: t.bundle_hash,
        fees_bundle_hash: t.fees_bundle_hash,
    }
}

/// The check that decides the outcome of a materialization attempt, in
/// the order the handler performs it.  `None` means the transaction is
/// built and submitted.
#[verifier::opaque]
pub open spec fn materialize_check(
    m: ParsedMessageView,
    chains: Seq<InteropChain>,
    store: Map<B256, ParsedMessageView>,
) -> Option<MaterializeError> {
    let payload = type_c_payload(m);
    let t = spec_transaction_of(payload);
    if !is_transaction_encoding(payload) {
        Some(MaterializeError::Decode)
    } else if t.destination_chain.as_nat() > u64::MAX || !has_chain(
        chains,
        t.destination_chain.w3,
    ) {
        Some(MaterializeError::UnknownDestination)
    } else if !store.dom().contains(t.bundle_hash) || (!t.fees_bundle_hash.spec_is_zero()
        && !store.dom().contains(t.fees_bundle_hash)) {
        Some(MaterializeError::MissingDependency)
    } else if chain_with(chains, t.destination_chain.w3).spec_is_executed(t.bundle_hash) || (
    !t.fees_bundle_hash.spec_is_zero() && chain_with(
        chains,
        t.destination_chain.w3,
    ).spec_is_executed(t.fees_bundle_hash)) {
        Some(MaterializeError::AlreadyExecuted)
    } else if store[t.bundle_hash].interop_message.data.len() + 512 > usize::MAX || (
    !t.fees_bundle_hash.spec_is_zero() && store[t.fees_bundle_hash].interop_message.data.len()
        + 256 > usize::MAX) {
        Some(MaterializeError::Oversize)
    } else if t.gas_limit.as_nat() > u64::MAX || t.gas_price.as_nat() > u64::MAX {
        Some(MaterializeError::GasOutOfRange)
    } else {
        None
    }
}

/// What the built request must hold, field by field.
pub open spec fn request_matches(
    m: ParsedMessageView,
    t: InteropTransactionView,
    dst: InteropChain,
    store: Map<B256, ParsedMessageView>,
    req: TransactionRequest,
) -> bool {
    &&& req.to == dst.interop_address
    &&& req.from == dst.spec_aliased_account(
        AliasKey {
            source_chain_id: m.interop_message.source_chain_id,
            source_account: t.source_chain_sender,
        },
    )
    &&& req.gas_limit == t.gas_limit.w3
    &&& req.max_fee_per_gas == t.gas_price.w3
    &&& req.max_priority_fee_per_gas == t.gas_price.w3
    &&& req.gas_per_pubdata == 50000
    &&& req.paymaster == t.destination_paymaster
    &&& req.paymaster_input@ == if t.fees_bundle_hash.spec_is_zero() {
        Seq::<u8>::empty()
    } else {
        enc_message(store[t.fees_bundle_hash].interop_message)
    }
    &&& req.custom_signature@ == enc_reserved_stuff(reserved_stuff_of(m, t))
    &&& req.calldata@ == execute_bundle_calldata(store[t.bundle_hash].interop_message)
}

impl InteropMessageParsed {
    /// Runs the pre-flight checks of a materialization attempt: decodes
    /// the embedded transaction, finds the destination chain, resolves
    /// the referenced bundles in the store, and rejects work the
    /// destination has already executed.  Reads only.
    #[verifier::rlimit(100)]
    #[verifier::spinoff_prover]
    fn check_and_decode(&self, chains: &Vec<InteropChain>, store: &MessageStore) -> (r: Result<
        (InteropTransaction, usize),
        MaterializeError,
    >)
        requires
            self@.is_type_c(),
            forall|a: int, b: int| 0 <= a < b < chains@.len() ==> chains@[a].chain_id
                != chains@[b].chain_id,
        ensures
            match r {
                Err(e) => Some(e) == materialize_check(self@, chains@, store@),
                Ok((tx, idx)) => {
                    let t = spec_transaction_of(type_c_payload(self@));
                    &&& materialize_check(self@, chains@, store@) is None
                    &&& tx@ == t
                    &&& idx < chains@.len()
                    &&& chains@[idx as int] == chain_with(chains@, t.destination_chain.w3)
                    &&& chains@[idx as int].chain_id == t.destination_chain.w3
                },
            },
    {
        let data_len = self.interop_message.data.len();
        let payload = copy_range(&self.interop_message.data, 1, data_len);
        proof {
            assert(payload@ =~= type_c_payload(self@));
        }
        let interop_tx = match decode_interop_transaction(&payload) {
            Some(t) => t,
            None => {
                proof {
                    assert(materialize_check(self@, chains@, store@) == Some(
                        MaterializeError::Decode,
                    )) by {
                        reveal(materialize_check);
                    }
                }
                return Err(MaterializeError::Decode);
            },
        };
        let ghost t = spec_transaction_of(type_c_payload(self@));
        proof {
            assert(interop_tx@ == t);
        }
        let destination_chain_id: u64 = match interop_tx.destination_chain.try_to_u64() {
            Some(x) => x,
            None => {
                proof {
                    assert(materialize_check(self@, chains@, store@) == Some(
                        MaterializeError::UnknownDestination,
                    )) by {
                        reveal(materialize_check);
                    }
                }
                return Err(MaterializeError::UnknownDestination);
            },
        };
        proof {
            assert(interop_tx.destination_chain.w3 == destination_chain_id);
        }
        let dest_index = match crate::chain::find_chain(chains, destination_chain_id) {
            Some(i) => i,
            None => {
                proof {
                    assert(!has_chain(chains@, t.destination_chain.w3));
                    assert(materialize_check(self@, chains@, store@) == Some(
                        MaterializeError::UnknownDestination,
                    )) by {
                        reveal(materialize_check);
                    }
                }
                return Err(MaterializeError::UnknownDestination);
            },
        };
        proof {
            let i = choose|i: int| 0 <= i < chains@.len() && chains@[i].chain_id
                == destination_chain_id;
            assert(i == dest_index as int);
            assert(chain_with(chains@, destination_chain_id) == chains@[dest_index as int]);
        }
        let bundle_msg = match store.get(&interop_tx.bundle_hash) {
            Some(b) => b,
            None => {
                proof {
                    assert(materialize_check(self@, chains@, store@) == Some(
                        MaterializeError::MissingDependency,
                    )) by {
                        reveal(materialize_check);
                    }
                }
                return Err(MaterializeError::MissingDependency);
            },
        };
        let fees_present = !interop_tx.fees_bundle_hash.is_zero();
        if fees_present {
            match store.get(&interop_tx.fees_bundle_hash) {
                Some(_) => (),
                None => {
                    proof {
                        assert(materialize_check(self@, chains@, store@) == Some(
                            MaterializeError::MissingDependency,
                        )) by {
                            reveal(materialize_check);
                        }
                    }
                    return Err(MaterializeError::MissingDependency);
                },
            }
        }
        if chains[dest_index].is_bundle_executed(&interop_tx.bundle_hash) {
            proof {
                assert(materialize_check(self@, chains@, store@) == Some(
                    MaterializeError::AlreadyExecuted,
                )) by {
                    reveal(materialize_check);
                }
            }
            return Err(MaterializeError::AlreadyExecuted);
        }
        if fees_present && chains[dest_index].is_bundle_executed(&interop_tx.fees_bundle_hash) {
            proof {
                assert(materialize_check(self@, chains@, store@) == Some(
                    MaterializeError::AlreadyExecuted,
                )) by {
                    reveal(materialize_check);
                }
            }
            return Err(MaterializeError::AlreadyExecuted);
        }
        if bundle_msg.interop_message.data.len() > usize::MAX - 512 {
            proof {
                assert(materialize_check(self@, chains@, store@) == Some(
                    MaterializeError::Oversize,
                )) by {
                    reveal(materialize_check);
                }
            }
            return Err(MaterializeError::Oversize);
        }
        if fees_present {
            let fee_msg = match store.get(&interop_tx.fees_bundle_hash) {
                Some(f) => f,
                None => {
                    proof {
                        assert(false);
                    }
                    return Err(MaterializeError::MissingDependency);
                },
            };
            if fee_msg.interop_message.data.len() > usize::MAX - 256 {
                proof {
                    assert(materialize_check(self@, chains@, store@) == Some(
                        MaterializeError::Oversize,
                    )) by {
                        reveal(materialize_check);
                    }
                }
                return Err(MaterializeError::Oversize);
            }
        }
        if interop_tx.gas_limit.w0 != 0 || interop_tx.gas_limit.w1 != 0 || interop_tx.gas_limit.w2
            != 0 {
            proof {
                interop_tx.gas_limit.lemma_limb_bound();
                assert(materialize_check(self@, chains@, store@) == Some(
                    MaterializeError::GasOutOfRange,
                )) by {
                    reveal(materialize_check);
                }
            }
            return Err(MaterializeError::GasOutOfRange);
        }
        if interop_tx.gas_price.w0 != 0 || interop_tx.gas_price.w1 != 0 || interop_tx.gas_price.w2
            != 0 {
            proof {
                interop_tx.gas_price.lemma_limb_bound();
                assert(materialize_check(self@, chains@, store@) == Some(
                    MaterializeError::GasOutOfRange,
                )) by {
                    reveal(materialize_check);
                }
            }
            return Err(MaterializeError::GasOutOfRange);
        }
        proof {
            assert(materialize_check(self@, chains@, store@) is None) by {
                reveal(materialize_check);
            }
        }
        Ok((interop_tx, dest_index))
    }

    /// Builds the transaction request that materializes this type-C
    /// message, deploying the aliased account and topping the paymaster
    /// up on the destination chain as needed.  On every error the
    /// registry is left unchanged; the error states exactly which check
    /// failed, in the order the checks run.
    #[verifier::rlimit(100)]
    #[verifier::spinoff_prover]
    pub fn create_transaction_request(
        &self,
        chains: &mut Vec<InteropChain>,
        store: &MessageStore,
    ) -> (r: Result<(u64, TransactionRequest), MaterializeError>)
        requires
            self@.is_type_c(),
            forall|a: int, b: int| 0 <= a < b < old(chains)@.len() ==> old(chains)@[a].chain_id != old(chains)@[b].chain_id,
        ensures
            final(chains)@.len() == old(chains)@.len(),
            match r {
                Err(e) => Some(e) == materialize_check(self@, old(chains)@, store@) && final(chains)@ == old(chains)@,
                Ok((dest, req)) => {
                    let t = spec_transaction_of(type_c_payload(self@));
                    let dst = chain_with(old(chains)@, t.destination_chain.w3);
                    &&& materialize_check(self@, old(chains)@, store@) is None
                    &&& dest == t.destination_chain.w3
                    &&& request_matches(self@, t, dst, store@, req)
                    &&& forall|i: int| 0 <= i < old(chains)@.len() && old(chains)@[i].chain_id != dest ==> final(chains)@[i] == old(chains)@[i]
                    &&& forall|i: int| 0 <= i < old(chains)@.len() && old(chains)@[i].chain_id == dest ==> InteropChain::same_config(
                        old(chains)@[i],
                        final(chains)@[i],
                    ) && final(chains)@[i].spec_has_code(req.from) && final(chains)@[i].spec_balance(req.paymaster) >= old(chains)@[i].tokens_for_paymaster
                        && final(chains)@[i].executed_bundles@ == old(chains)@[i].executed_bundles@ && final(chains)@[i].received_messages@ == old(chains)@[i].received_messages@ && final(chains)@[i].trusted_sources@ == old(chains)@[i].trusted_sources@ && final(chains)@[i].preferred_paymasters@ == old(chains)@[i].preferred_paymasters@ && final(chains)@[i].aliased_accounts@ == old(chains)@[i].aliased_accounts@
                },
            },
    {
        let (interop_tx, dest_index) = match self.check_and_decode(chains, store) {
            Ok(p) => p,
            Err(e) => {
                return Err(e);
            },
        };
        let ghost t = spec_transaction_of(type_c_payload(self@));
        proof {
            reveal(materialize_check);
        }
        let destination_chain_id = interop_tx.destination_chain.try_to_u64().unwrap();
        let bundle_msg = match store.get(&interop_tx.bundle_hash) {
            Some(b) => b,
            None => {
                proof {
                    assert(false) by {
                        reveal(materialize_check);
                    }
                }
                return Err(MaterializeError::MissingDependency);
            },
        };
        let fees_present = !interop_tx.fees_bundle_hash.is_zero();
        let paymaster_input: Vec<u8> = if fees_present {
            let fee_msg = match store.get(&interop_tx.fees_bundle_hash) {
                Some(f) => f,
                None => {
                    proof {
                        assert(false) by {
                            reveal(materialize_check);
                        }
                    }
                    return Err(MaterializeError::MissingDependency);
                },
            };
            encode_interop_message(&fee_msg.interop_message)
        } else {
            Vec::new()
        };
        let gas_limit: u64 = interop_tx.gas_limit.w3;
        let gas_price: u64 = interop_tx.gas_price.w3;
        let calldata = calldata_execute_interop_bundle(&bundle_msg.interop_message);
        let stuff = TransactionReservedStuff {
            source_chain_sender: interop_tx.source_chain_sender,
            interop_message_sender: self.interop_message.sender,
            source_chain_id: self.interop_message.source_chain_id,
            message_num: self.interop_message.message_num,
            destination_chain_id: interop_tx.destination_chain,
            bundle_hash: interop_tx.bundle_hash,
            fees_bundle_hash: interop_tx.fees_bundle_hash,
        };
        let custom_signature = encode_reserved_stuff(&stuff);
        let ghost before = chains@;
        let mut dst = chains[dest_index].clone();
        let from_addr = dst.get_aliased_account_address(
            &self.interop_message.source_chain_id,
            &interop_tx.source_chain_sender,
        );
        if !dst.has_account_code(&from_addr) {
            dst.deploy_aliased_account(
                &interop_tx.source_chain_sender,
                &self.interop_message.source_chain_id,
            );
        }
        dst.refill_paymaster(&interop_tx.destination_paymaster);
        let to_addr = dst.interop_address;
        chains.set(dest_index, dst);
        proof {
            assert(chains@ == before.update(dest_index as int, chains@[dest_index as int]));
        }
        let req = TransactionRequest {
            to: to_addr,
            from: from_addr,
            gas_limit,
            max_fee_per_gas: gas_price,
            max_priority_fee_per_gas: gas_price,
            gas_per_pubdata: 50000,
            paymaster: interop_tx.destination_paymaster,
            paymaster_input,
            custom_signature,
            calldata,
        };
        Ok((destination_chain_id, req))
    }
}

} // verus!
