//! The shared message store: the process-wide mapping from message hash to
//! parsed message.  Insertion is idempotent — a duplicate hash overwrites —
//! and every entry is keyed by its own `msg_hash`.

use vstd::prelude::*;
use crate::words::B256;
use crate::message::{InteropMessageParsed, ParsedMessageView};

verus! {

/// The mapping described by a sequence of insertions, later entries
/// overwriting earlier ones with the same hash.
spec fn map_of(s: Seq<InteropMessageParsed>) -> Map<B256, ParsedMessageView>
    decreases s.len(),
{
    if s.len() == 0 {
        Map::empty()
    } else {
        map_of(s.drop_last()).insert(s.last().msg_hash, s.last()@)
    }
}

/// The shared message store.
pub struct MessageStore {
    entries: Vec<InteropMessageParsed>,
}

impl View for MessageStore {
    type V = Map<B256, ParsedMessageView>;

    closed spec fn view(&self) -> Map<B256, ParsedMessageView> {
        map_of(self.entries@)
    }
}

/// A hash found at `i` and nowhere later maps to that entry.
proof fn lemma_map_of_found(s: Seq<InteropMessageParsed>, i: int, h: B256)
    requires
        0 <= i < s.len(),
        s[i].msg_hash == h,
        forall|j: int| i < j < s.len() ==> s[j].msg_hash != h,
    ensures
        map_of(s).dom().contains(h),
        map_of(s)[h] == s[i]@,
    decreases s.len(),
{
    if i == s.len() - 1 {
    } else {
        assert(s.drop_last()[i] == s[i]);
        lemma_map_of_found(s.drop_last(), i, h);
    }
}

/// A hash found nowhere is absent from the mapping.
proof fn lemma_map_of_absent(s: Seq<InteropMessageParsed>, h: B256)
    requires
        forall|j: int| 0 <= j < s.len() ==> s[j].msg_hash != h,
    ensures
        !map_of(s).dom().contains(h),
    decreases s.len(),
{
    if s.len() > 0 {
        lemma_map_of_absent(s.drop_last(), h);
    }
}

impl MessageStore {
    /// An empty store.
    pub fn new() -> (r: MessageStore)
        ensures
            r@ == Map::<B256, ParsedMessageView>::empty(),
    {
        MessageStore { entries: Vec::new() }
    }

    /// Inserts a message under its own hash, overwriting any earlier
    /// message with the same hash.
    pub fn insert(&mut self, m: InteropMessageParsed)
        ensures
            final(self)@ == old(self)@.insert(m.msg_hash, m@),
    {
        let ghost before = self.entries@;
        self.entries.push(m);
        proof {
            assert(self.entries@.drop_last() =~= before);
        }
    }

    /// Looks a message up by hash.  Returns `None` exactly when no message
    /// with that hash has been inserted.
    pub fn get(&self, h: &B256) -> (r: Option<&InteropMessageParsed>)
        ensures
            match r {
                Some(m) => self@.dom().contains(*h) && self@[*h] == m@ && m.msg_hash == *h,
                None => !self@.dom().contains(*h),
            },
    {
        let n = self.entries.len();
        let mut i: usize = n;
        while i > 0
            invariant
                i <= n,
                n == self.entries@.len(),
                forall|j: int| i <= j < n ==> self.entries@[j].msg_hash != *h,
            decreases i,
        {
            i = i - 1;
            let e = &self.entries[i];
            if e.msg_hash.w0 == h.w0 && e.msg_hash.w1 == h.w1 && e.msg_hash.w2 == h.w2
                && e.msg_hash.w3 == h.w3 {
                proof {
                    lemma_map_of_found(self.entries@, i as int, *h);
                }
                return Some(e);
            }
        }
        proof {
            lemma_map_of_absent(self.entries@, *h);
        }
        None
    }

    /// Every message in the store sits under its own hash: the key equals
    /// the identifier.
    pub proof fn lemma_keyed_by_own_hash(self)
        ensures
            forall|h: B256| self@.dom().contains(h) ==> #[trigger] self@[h].msg_hash == h,
    {
        assert forall|h: B256| self@.dom().contains(h) implies #[trigger] self@[h].msg_hash
            == h by {
            Self::lemma_map_keys(self.entries@, h);
        }
    }

    /// Helper for `lemma_keyed_by_own_hash`, by induction on the entries.
    proof fn lemma_map_keys(s: Seq<InteropMessageParsed>, h: B256)
        requires
            map_of(s).dom().contains(h),
        ensures
            map_of(s)[h].msg_hash == h,
        decreases s.len(),
    {
        if s.len() > 0 {
            if s.last().msg_hash != h {
                Self::lemma_map_keys(s.drop_last(), h);
            }
        }
    }
}

} // verus!
