//! Parsing one `InteropMessageSent` event log into a message, and the
//! type classification that decides what the relayer does with it.
//!
//! Every observed message is a plain type-A envelope and is forwarded.
//! When the emitting contract itself is the sender, the first payload byte
//! is a type tag: `1` marks an informational bundle (type B, stored and
//! nothing more), `2` marks a cross-chain transaction to materialize
//! (type C).  A type-C message is still forwarded as a type-A envelope.

use vstd::prelude::*;
use crate::words::{Address, B256};
use crate::abi::{InteropMessage, InteropMessageView, enc_message, is_message_encoding,
    decode_interop_message};
use crate::bytes::copy_range;

verus! {

/// One event log, reduced to the plain values the relayer reads.
pub struct EventLog {
    /// The contract that emitted the event.
    pub address: Address,
    /// The indexed topics; topic 0 is the event signature.
    pub topics: Vec<B256>,
    /// The unindexed data bytes.
    pub data: Vec<u8>,
}

/// A parsed interop message; its globally unique key is `msg_hash`.
pub struct InteropMessageParsed {
    /// The InteropCenter contract that emitted the event.
    pub interop_center_sender: Address,
    /// Topic 1: the unique global identifier of the message.
    pub msg_hash: B256,
    /// Topic 2, low 20 bytes: the account that sent the message.
    pub sender: Address,
    /// The raw event data bytes.
    pub data: Vec<u8>,
    /// The message payload decoded from the data bytes.
    pub interop_message: InteropMessage,
    /// The chain whose watcher observed the event.
    pub chain_id: u64,
}

/// The mathematical image of a parsed message.
pub struct ParsedMessageView {
    pub interop_center_sender: Address,
    pub msg_hash: B256,
    pub sender: Address,
    pub data: Seq<u8>,
    pub interop_message: InteropMessageView,
    pub chain_id: u64,
}

impl ParsedMessageView {
    /// Type B: the center itself is the sender and the payload is tagged 1.
    pub open spec fn is_type_b(self) -> bool {
        self.interop_center_sender == self.sender && self.interop_message.data.len() > 0
            && self.interop_message.data[0] == 1
    }

    /// Type C: the center itself is the sender and the payload is tagged 2.
    pub open spec fn is_type_c(self) -> bool {
        self.interop_center_sender == self.sender && self.interop_message.data.len() > 0
            && self.interop_message.data[0] == 2
    }
}

impl View for InteropMessageParsed {
    type V = ParsedMessageView;

    open spec fn view(&self) -> ParsedMessageView {
        ParsedMessageView {
            interop_center_sender: self.interop_center_sender,
            msg_hash: self.msg_hash,
            sender: self.sender,
            data: self.data@,
            interop_message: self.interop_message@,
            chain_id: self.chain_id,
        }
    }
}

impl Clone for InteropMessageParsed {
    fn clone(&self) -> (r: Self)
        ensures
            r@ == self@,
    {
        let data = copy_range(&self.data, 0, self.data.len());
        assert(data@ =~= self.data@);
        InteropMessageParsed {
            interop_center_sender: self.interop_center_sender,
            msg_hash: self.msg_hash,
            sender: self.sender,
            data,
            interop_message: self.interop_message.clone(),
            chain_id: self.chain_id,
        }
    }
}

/// What a well-formed `InteropMessageSent` log looks like: the signature
/// topic, the message hash, the padded sender, and a data region whose
/// tail (after the 64 header bytes) encodes an `InteropMessage`.
pub open spec fn is_interop_event_log(address: Address, topics: Seq<B256>, data: Seq<u8>) -> bool {
    &&& topics.len() >= 3
    &&& data.len() >= 64
    &&& is_message_encoding(data.skip(64))
}

impl InteropMessageParsed {
    /// Assembles the parsed message once the payload has decoded.
    #[verifier::spinoff_prover]
    fn assemble(log: &EventLog, chain_id: u64, interop_message: InteropMessage) -> (p:
        InteropMessageParsed)
        requires
            log.topics@.len() >= 3,
            log.data@.len() >= 64,
            enc_message(interop_message@) == log.data@.skip(64),
        ensures
            p.interop_center_sender == log.address,
            p.msg_hash == log.topics@[1],
            p.sender.as_bytes() == log.topics@[2].as_bytes().subrange(12, 32),
            p.data@ == log.data@,
            p.interop_message@ == interop_message@,
            p.chain_id == chain_id,
    {
        let topic2 = log.topics[2];
        let mut topic2_bytes: Vec<u8> = Vec::new();
        topic2.push_to(&mut topic2_bytes);
        assert(topic2_bytes@ =~= topic2.as_bytes());
        let sender = Address::read_from(&topic2_bytes, 12);
        proof {
            assert(topic2_bytes@.subrange(12, 32) =~= topic2.as_bytes().subrange(12, 32));
        }
        let data = copy_range(&log.data, 0, log.data.len());
        assert(data@ =~= log.data@);
        InteropMessageParsed {
            interop_center_sender: log.address,
            msg_hash: log.topics[1],
            sender,
            data,
            interop_message,
            chain_id,
        }
    }

    /// Parses one event log observed on `chain_id`.  Returns `None`
    /// exactly when the log does not have the shape of an
    /// `InteropMessageSent` event with a decodable payload.
    #[verifier::rlimit(100)]
    #[verifier::spinoff_prover]
    pub fn from_log(log: &EventLog, chain_id: u64) -> (r: Option<InteropMessageParsed>)
        ensures
            match r {
                Some(p) => {
                    &&& is_interop_event_log(log.address, log.topics@, log.data@)
                    &&& p.interop_center_sender == log.address
                    &&& p.msg_hash == log.topics@[1]
                    &&& p.sender.as_bytes() == log.topics@[2].as_bytes().subrange(12, 32)
                    &&& p.data@ == log.data@
                    &&& enc_message(p.interop_message@) == log.data@.skip(64)
                    &&& p.chain_id == chain_id
                },
                None => !is_interop_event_log(log.address, log.topics@, log.data@),
            },
    {
        if log.topics.len() < 3 {
            return None;
        }
        if log.data.len() < 64 {
            return None;
        }
        let payload = copy_range(&log.data, 64, log.data.len());
        assert(payload@ =~= log.data@.skip(64));
        let interop_message = match decode_interop_message(&payload) {
            Some(m) => m,
            None => {
                return None;
            },
        };
        proof {
            assert(is_message_encoding(log.data@.skip(64)));
            assert(enc_message(interop_message@) == log.data@.skip(64));
        }
        Some(Self::assemble(log, chain_id, interop_message))
    }

    /// True exactly when the message is an informational type-B bundle.
    pub fn is_type_b(&self) -> (r: bool)
        ensures
            r == self@.is_type_b(),
    {
        self.interop_center_sender == self.sender && self.interop_message.data.len() > 0
            && self.interop_message.data[0] == 1
    }

    /// True exactly when the message is a type-C cross-chain transaction.
    pub fn is_type_c(&self) -> (r: bool)
        ensures
            r == self@.is_type_c(),
    {
        self.interop_center_sender == self.sender && self.interop_message.data.len() > 0
            && self.interop_message.data[0] == 2
    }
}

/// A message whose emitting contract is not its own sender is strictly a
/// plain type-A envelope: it is neither type B nor type C.
pub proof fn lemma_foreign_sender_is_plain_type_a(m: ParsedMessageView)
    requires
        m.interop_center_sender != m.sender,
    ensures
        !m.is_type_b(),
        !m.is_type_c(),
{
}

/// The two tagged classes exclude each other: no message is both an
/// informational bundle and a cross-chain transaction.
pub proof fn lemma_type_b_and_type_c_disjoint(m: ParsedMessageView)
    ensures
        !(m.is_type_b() && m.is_type_c()),
{
}

} // verus!
