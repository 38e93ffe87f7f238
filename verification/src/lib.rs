//! Verified core of a cross-chain interop relayer.
//!
//! The relayer observes `InteropMessageSent` events on a set of chains,
//! forwards every observed message to all other chains, and materializes
//! the cross-chain transactions that type-C messages describe.  This crate
//! holds the verified logic: byte-level codecs for the interop payloads,
//! message classification, the shared message store, and the decision
//! procedures of the forwarder, the transaction materializer and the
//! bootstrap reconciler.  The unverified shell around it performs the
//! actual JSON-RPC traffic and feeds plain values in and out.

pub mod bytes;
pub mod words;
pub mod keccak;
pub mod abi;
pub mod calls;
pub mod message;
pub mod store;
pub mod assoc;
pub mod chain;
pub mod forward;
pub mod bootstrap;
pub mod materializer;
pub mod orchestrator;
pub mod human;
pub mod rlp;
