//! One configured chain: its static configuration and a model of the
//! on-chain state the relayer reads and writes.  The unverified shell
//! mirrors every read and write of this model with a JSON-RPC call built
//! from the verified calldata; the model is what the relayer's decisions
//! and the proofs about them are stated over.

use vstd::prelude::*;
use crate::words::{Address, B256, U256};
use crate::assoc::{umap_of, amap_of, kmap_of, ulookup, uput, alookup, aput, contains_hash,
    add_hash, contains_addr, add_addr, AliasKey, klookup};

verus! {

/// How many blocks back the watcher replays history on startup.
pub const BLOCKS_IN_THE_PAST: u64 = 1000;

/// The all-zero address, the default value of a contract mapping.
pub open spec fn zero_address() -> Address {
    Address { a0: 0, a1: 0, a2: 0 }
}

/// One chain: configuration plus the modeled contract state.
pub struct InteropChain {
    /// The chain identifier.
    pub chain_id: u64,
    /// The InteropCenter contract on this chain.
    pub interop_address: Address,
    /// Cents per `10^18` base-token units.
    pub base_token_price: u64,
    /// The paymaster target balance in base-token units.
    pub tokens_for_paymaster: u128,
    /// InteropCenter storage: trusted source per source chain.
    pub trusted_sources: Vec<(u64, Address)>,
    /// InteropCenter storage: preferred paymaster per chain.
    pub preferred_paymasters: Vec<(u64, Address)>,
    /// InteropCenter storage: message hashes already received.
    pub received_messages: Vec<B256>,
    /// InteropCenter storage: bundle hashes already executed.
    pub executed_bundles: Vec<B256>,
    /// Accounts whose code is deployed.
    pub deployed_accounts: Vec<Address>,
    /// Account balances in base-token units.
    pub balances: Vec<(Address, u128)>,
    /// Each CrossPaymaster contract's base token.
    pub paymaster_tokens: Vec<(Address, Address)>,
    /// The aliased destination account for each source account.
    pub aliased_accounts: Vec<(AliasKey, Address)>,
    /// PaymasterToken storage: remote token per source chain.
    pub bridge_remote: Vec<(u64, Address)>,
    /// PaymasterToken storage: price ratio nominator per source chain.
    pub bridge_nominator: Vec<(u64, u64)>,
    /// PaymasterToken storage: price ratio denominator per source chain.
    pub bridge_denominator: Vec<(u64, u64)>,
}

impl InteropChain {
    /// The trusted source registered for `source_chain_id`; zero when unset.
    pub open spec fn spec_trusted_source(self, source_chain_id: u64) -> Address {
        let m = umap_of(self.trusted_sources@);
        if m.dom().contains(source_chain_id) {
            m[source_chain_id]
        } else {
            zero_address()
        }
    }

    /// The preferred paymaster registered for `chain_id`; zero when unset.
    pub open spec fn spec_preferred_paymaster(self, chain_id: u64) -> Address {
        let m = umap_of(self.preferred_paymasters@);
        if m.dom().contains(chain_id) {
            m[chain_id]
        } else {
            zero_address()
        }
    }

    /// The base token of a paymaster contract; zero when unset.
    pub open spec fn spec_paymaster_token(self, paymaster: Address) -> Address {
        let m = amap_of(self.paymaster_tokens@);
        if m.dom().contains(paymaster) {
            m[paymaster]
        } else {
            zero_address()
        }
    }

    /// This chain's own paymaster base token.
    pub open spec fn spec_own_token(self) -> Address {
        self.spec_paymaster_token(self.spec_preferred_paymaster(self.chain_id))
    }

    /// The balance of an account; zero when unset.
    pub open spec fn spec_balance(self, account: Address) -> u128 {
        let m = amap_of(self.balances@);
        if m.dom().contains(account) {
            m[account]
        } else {
            0
        }
    }

    pub open spec fn spec_is_received(self, h: B256) -> bool {
        self.received_messages@.contains(h)
    }

    pub open spec fn spec_is_executed(self, h: B256) -> bool {
        self.executed_bundles@.contains(h)
    }

    pub open spec fn spec_has_code(self, account: Address) -> bool {
        self.deployed_accounts@.contains(account)
    }

    /// The aliased account derived for a source account; zero when unset.
    pub open spec fn spec_aliased_account(self, key: AliasKey) -> Address {
        let m = kmap_of(self.aliased_accounts@);
        if m.dom().contains(key) {
            m[key]
        } else {
            zero_address()
        }
    }

    /// The bridge's remote token for `source_chain_id`; zero when unset.
    pub open spec fn spec_bridge_remote(self, source_chain_id: u64) -> Address {
        let m = umap_of(self.bridge_remote@);
        if m.dom().contains(source_chain_id) {
            m[source_chain_id]
        } else {
            zero_address()
        }
    }

    /// The bridge's ratio nominator for `source_chain_id`; zero when unset.
    pub open spec fn spec_bridge_nominator(self, source_chain_id: u64) -> u64 {
        let m = umap_of(self.bridge_nominator@);
        if m.dom().contains(source_chain_id) {
            m[source_chain_id]
        } else {
            0
        }
    }

    /// The bridge's ratio denominator for `source_chain_id`; zero when unset.
    pub open spec fn spec_bridge_denominator(self, source_chain_id: u64) -> u64 {
        let m = umap_of(self.bridge_denominator@);
        if m.dom().contains(source_chain_id) {
            m[source_chain_id]
        } else {
            0
        }
    }

    /// The configuration fields of the two chains agree.
    pub open spec fn same_config(a: InteropChain, b: InteropChain) -> bool {
        &&& a.chain_id == b.chain_id
        &&& a.interop_address == b.interop_address
        &&& a.base_token_price == b.base_token_price
        &&& a.tokens_for_paymaster == b.tokens_for_paymaster
    }

    /// Reads this chain's own preferred paymaster.
    pub fn get_preferred_paymaster(&self) -> (r: Address)
        ensures
            r == self.spec_preferred_paymaster(self.chain_id),
    {
        match ulookup(&self.preferred_paymasters, self.chain_id) {
            Some(a) => a,
            None => Address::zero(),
        }
    }

    /// Reads the trusted source registered for a source chain.
    pub fn get_trusted_source(&self, source_chain_id: u64) -> (r: Address)
        ensures
            r == self.spec_trusted_source(source_chain_id),
    {
        match ulookup(&self.trusted_sources, source_chain_id) {
            Some(a) => a,
            None => Address::zero(),
        }
    }

    /// Reads the preferred paymaster registered for a source chain.
    pub fn get_preferred_paymaster_for(&self, source_chain_id: u64) -> (r: Address)
        ensures
            r == self.spec_preferred_paymaster(source_chain_id),
    {
        match ulookup(&self.preferred_paymasters, source_chain_id) {
            Some(a) => a,
            None => Address::zero(),
        }
    }

    /// Reads the bridge's remote token for a source chain.
    pub fn get_bridge_remote(&self, source_chain_id: u64) -> (r: Address)
        ensures
            r == self.spec_bridge_remote(source_chain_id),
    {
        match ulookup(&self.bridge_remote, source_chain_id) {
            Some(a) => a,
            None => Address::zero(),
        }
    }

    /// Reads the bridge's ratio nominator for a source chain.
    pub fn get_bridge_nominator(&self, source_chain_id: u64) -> (r: u64)
        ensures
            r == self.spec_bridge_nominator(source_chain_id),
    {
        match ulookup(&self.bridge_nominator, source_chain_id) {
            Some(x) => x,
            None => 0,
        }
    }

    /// Reads the bridge's ratio denominator for a source chain.
    pub fn get_bridge_denominator(&self, source_chain_id: u64) -> (r: u64)
        ensures
            r == self.spec_bridge_denominator(source_chain_id),
    {
        match ulookup(&self.bridge_denominator, source_chain_id) {
            Some(x) => x,
            None => 0,
        }
    }

    /// Reads the base token of this chain's own preferred paymaster.
    pub fn get_paymaster_basic_token(&self) -> (r: Address)
        ensures
            r == self.spec_own_token(),
    {
        let paymaster = self.get_preferred_paymaster();
        match alookup(&self.paymaster_tokens, &paymaster) {
            Some(t) => t,
            None => Address::zero(),
        }
    }

    /// True exactly when the bundle is marked executed.
    pub fn is_bundle_executed(&self, bundle_hash: &B256) -> (r: bool)
        ensures
            r == self.spec_is_executed(*bundle_hash),
    {
        contains_hash(&self.executed_bundles, bundle_hash)
    }

    /// True exactly when the message hash is marked received.
    pub fn is_message_received(&self, msg_hash: &B256) -> (r: bool)
        ensures
            r == self.spec_is_received(*msg_hash),
    {
        contains_hash(&self.received_messages, msg_hash)
    }

    /// True exactly when the account's code is deployed.
    pub fn has_account_code(&self, account: &Address) -> (r: bool)
        ensures
            r == self.spec_has_code(*account),
    {
        contains_addr(&self.deployed_accounts, account)
    }

    /// Reads the aliased destination account of a source account.
    pub fn get_aliased_account_address(&self, source_chain: &U256, source_address: &Address) -> (r:
        Address)
        ensures
            r == self.spec_aliased_account(
                AliasKey { source_chain_id: *source_chain, source_account: *source_address },
            ),
    {
        let key = AliasKey { source_chain_id: *source_chain, source_account: *source_address };
        match klookup(&self.aliased_accounts, &key) {
            Some(a) => a,
            None => Address::zero(),
        }
    }

    /// All fields but the modeled contract state are unchanged.
    pub open spec fn same_but_received(a: InteropChain, b: InteropChain) -> bool {
        &&& Self::same_config(a, b)
        &&& a.trusted_sources@ == b.trusted_sources@
        &&& a.preferred_paymasters@ == b.preferred_paymasters@
        &&& a.executed_bundles@ == b.executed_bundles@
        &&& a.deployed_accounts@ == b.deployed_accounts@
        &&& a.balances@ == b.balances@
        &&& a.paymaster_tokens@ == b.paymaster_tokens@
        &&& a.aliased_accounts@ == b.aliased_accounts@
        &&& a.bridge_remote@ == b.bridge_remote@
        &&& a.bridge_nominator@ == b.bridge_nominator@
        &&& a.bridge_denominator@ == b.bridge_denominator@
    }

    /// The destination contract receives one forwarded message: the hash
    /// is marked received.
    pub fn receive_interop_message(&mut self, msg_hash: &B256)
        ensures
            Self::same_but_received(*old(self), *final(self)),
            final(self).received_messages@ == old(self).received_messages@.push(*msg_hash),
            final(self).spec_is_received(*msg_hash),
            forall|h: B256| old(self).spec_is_received(h) ==> final(self).spec_is_received(h),
    {
        let ghost before = self.received_messages@;
        add_hash(&mut self.received_messages, msg_hash);
        proof {
            assert forall|h: B256| before.contains(h) implies self.received_messages@.contains(
                h,
            ) by {
                let j = choose|j: int| 0 <= j < before.len() && before[j] == h;
                assert(self.received_messages@[j] == h);
            }
        }
    }
}

/// Converts the per-process paymaster budget, given in USD cents, into
/// base-token units for one chain: `cents * 10^18 / price`, where `price`
/// is the chain's cents per `10^18` base-token units.
pub fn tokens_for_paymaster_units(paymaster_balance_cents: u64, base_token_price: u64) -> (r: u128)
    requires
        base_token_price >= 1,
    ensures
        r == (paymaster_balance_cents * 1_000_000_000_000_000_000) / (base_token_price as int),
        r < 0x1_0000_0000_0000_0000_0000_0000_0000_000,
{
    let base: u128 = 1_000_000_000_000_000_000;
    proof {
        assert((paymaster_balance_cents as u128) * 1_000_000_000_000_000_000
            < 0x1_0000_0000_0000_0000_0000_0000_0000_000) by (nonlinear_arith)
            requires
                paymaster_balance_cents <= 0xffff_ffff_ffff_ffffu64,
        ;
    }
    let product: u128 = base * (paymaster_balance_cents as u128);
    let r = product / (base_token_price as u128);
    proof {
        assert(r <= product) by (nonlinear_arith)
            requires
                r == product / (base_token_price as u128),
                base_token_price >= 1,
                product >= 0,
        ;
    }
    r
}

/// True exactly when two configured chains share a chain id — a fatal
/// startup error.
pub fn has_chain_id_collision(chains: &Vec<InteropChain>) -> (r: bool)
    ensures
        r == exists|i: int, j: int|
            0 <= i < j < chains@.len() && chains@[i].chain_id == chains@[j].chain_id,
{
    let n = chains.len();
    let mut i: usize = 0;
    while i < n
        invariant
            i <= n,
            n == chains@.len(),
            forall|a: int, b: int| 0 <= a < b < n && a < i ==> chains@[a].chain_id
                != chains@[b].chain_id,
        decreases n - i,
    {
        let mut j: usize = i + 1;
        while j < n
            invariant
                i < j <= n || (i + 1 > n && j == i + 1),
                i < n,
                n == chains@.len(),
                forall|a: int, b: int| 0 <= a < b < n && a < i ==> chains@[a].chain_id
                    != chains@[b].chain_id,
                forall|b: int| i < b < j ==> chains@[i as int].chain_id != chains@[b].chain_id,
            decreases n - j,
        {
            if chains[i].chain_id == chains[j].chain_id {
                return true;
            }
            j = j + 1;
        }
        i = i + 1;
    }
    false
}

/// Finds the chain with the given id; `None` exactly when none has it.
pub fn find_chain(chains: &Vec<InteropChain>, chain_id: u64) -> (r: Option<usize>)
    ensures
        match r {
            Some(i) => i < chains@.len() && chains@[i as int].chain_id == chain_id,
            None => forall|i: int| 0 <= i < chains@.len() ==> chains@[i].chain_id != chain_id,
        },
{
    let n = chains.len();
    let mut i: usize = 0;
    while i < n
        invariant
            i <= n,
            n == chains@.len(),
            forall|j: int| 0 <= j < i ==> chains@[j].chain_id != chain_id,
        decreases n - i,
    {
        if chains[i].chain_id == chain_id {
            return Some(i);
        }
        i = i + 1;
    }
    None
}

} // verus!

verus! {

impl InteropChain {
    /// All fields of the two chains agree.
    pub open spec fn same_chain(a: InteropChain, b: InteropChain) -> bool {
        &&& Self::same_config(a, b)
        &&& a.trusted_sources@ == b.trusted_sources@
        &&& a.preferred_paymasters@ == b.preferred_paymasters@
        &&& a.received_messages@ == b.received_messages@
        &&& a.executed_bundles@ == b.executed_bundles@
        &&& a.deployed_accounts@ == b.deployed_accounts@
        &&& a.balances@ == b.balances@
        &&& a.paymaster_tokens@ == b.paymaster_tokens@
        &&& a.aliased_accounts@ == b.aliased_accounts@
        &&& a.bridge_remote@ == b.bridge_remote@
        &&& a.bridge_nominator@ == b.bridge_nominator@
        &&& a.bridge_denominator@ == b.bridge_denominator@
    }

    /// All fields but the balances agree.
    pub open spec fn same_but_balances(a: InteropChain, b: InteropChain) -> bool {
        &&& Self::same_config(a, b)
        &&& a.trusted_sources@ == b.trusted_sources@
        &&& a.preferred_paymasters@ == b.preferred_paymasters@
        &&& a.received_messages@ == b.received_messages@
        &&& a.executed_bundles@ == b.executed_bundles@
        &&& a.deployed_accounts@ == b.deployed_accounts@
        &&& a.paymaster_tokens@ == b.paymaster_tokens@
        &&& a.aliased_accounts@ == b.aliased_accounts@
        &&& a.bridge_remote@ == b.bridge_remote@
        &&& a.bridge_nominator@ == b.bridge_nominator@
        &&& a.bridge_denominator@ == b.bridge_denominator@
    }

    /// All fields but the executed-bundle marks agree.
    pub open spec fn same_but_executed(a: InteropChain, b: InteropChain) -> bool {
        &&& Self::same_config(a, b)
        &&& a.trusted_sources@ == b.trusted_sources@
        &&& a.preferred_paymasters@ == b.preferred_paymasters@
        &&& a.received_messages@ == b.received_messages@
        &&& a.deployed_accounts@ == b.deployed_accounts@
        &&& a.balances@ == b.balances@
        &&& a.paymaster_tokens@ == b.paymaster_tokens@
        &&& a.aliased_accounts@ == b.aliased_accounts@
        &&& a.bridge_remote@ == b.bridge_remote@
        &&& a.bridge_nominator@ == b.bridge_nominator@
        &&& a.bridge_denominator@ == b.bridge_denominator@
    }

    /// All fields but the deployed-account set agree.
    pub open spec fn same_but_deployed(a: InteropChain, b: InteropChain) -> bool {
        &&& Self::same_config(a, b)
        &&& a.trusted_sources@ == b.trusted_sources@
        &&& a.preferred_paymasters@ == b.preferred_paymasters@
        &&& a.received_messages@ == b.received_messages@
        &&& a.executed_bundles@ == b.executed_bundles@
        &&& a.balances@ == b.balances@
        &&& a.paymaster_tokens@ == b.paymaster_tokens@
        &&& a.aliased_accounts@ == b.aliased_accounts@
        &&& a.bridge_remote@ == b.bridge_remote@
        &&& a.bridge_nominator@ == b.bridge_nominator@
        &&& a.bridge_denominator@ == b.bridge_denominator@
    }

    /// All fields but the trust and bridge tables agree.
    pub open spec fn same_but_admin_tables(a: InteropChain, b: InteropChain) -> bool {
        &&& Self::same_config(a, b)
        &&& a.received_messages@ == b.received_messages@
        &&& a.executed_bundles@ == b.executed_bundles@
        &&& a.deployed_accounts@ == b.deployed_accounts@
        &&& a.balances@ == b.balances@
        &&& a.paymaster_tokens@ == b.paymaster_tokens@
        &&& a.aliased_accounts@ == b.aliased_accounts@
    }

    /// Tops the paymaster up where its balance is below the target: the
    /// full target amount is transferred, deliberately overshooting so
    /// that later calls are no-ops for longer.  Returns the amount sent;
    /// `None` exactly when the balance already met the target.
    pub fn refill_paymaster(&mut self, paymaster: &Address) -> (sent: Option<u128>)
        ensures
            Self::same_but_balances(*old(self), *final(self)),
            sent is None <==> old(self).spec_balance(*paymaster) >= old(self).tokens_for_paymaster,
            sent is None ==> Self::same_chain(*old(self), *final(self)),
            sent is Some ==> sent == Some(old(self).tokens_for_paymaster) && final(self).spec_balance(*paymaster) == if old(self).spec_balance(*paymaster) + old(self).tokens_for_paymaster <= u128::MAX { (old(self).spec_balance(*paymaster) + old(self).tokens_for_paymaster) as u128 } else { u128::MAX },
            final(self).spec_balance(*paymaster) >= old(self).tokens_for_paymaster,
            forall|q: Address| q != *paymaster ==> final(self).spec_balance(q) == old(self).spec_balance(q),
    {
        let balance: u128 = match alookup(&self.balances, paymaster) {
            Some(b) => b,
            None => 0,
        };
        let limit = self.tokens_for_paymaster;
        if balance < limit {
            let topped: u128 = if balance <= u128::MAX - limit {
                balance + limit
            } else {
                u128::MAX
            };
            aput(&mut self.balances, paymaster, topped);
            Some(limit)
        } else {
            None
        }
    }

    /// The destination contract deploys the aliased account for a source
    /// account: afterwards its code is present.  Returns the account.
    pub fn deploy_aliased_account(&mut self, source_address: &Address, source_chain_id: &U256)
        -> (r: Address)
        ensures
            Self::same_but_deployed(*old(self), *final(self)),
            r == old(self).spec_aliased_account(
                AliasKey { source_chain_id: *source_chain_id, source_account: *source_address },
            ),
            final(self).deployed_accounts@ == old(self).deployed_accounts@.push(r),
            final(self).spec_has_code(r),
            forall|a: Address| old(self).spec_has_code(a) ==> final(self).spec_has_code(a),
    {
        let ghost before = self.deployed_accounts@;
        let aliased = self.get_aliased_account_address(source_chain_id, source_address);
        add_addr(&mut self.deployed_accounts, &aliased);
        proof {
            assert forall|a: Address| before.contains(a) implies self.deployed_accounts@.contains(
                a,
            ) by {
                let j = choose|j: int| 0 <= j < before.len() && before[j] == a;
                assert(self.deployed_accounts@[j] == a);
            }
        }
        aliased
    }

    /// The destination contract executes a bundle: its hash is marked.
    pub fn mark_bundle_executed(&mut self, bundle_hash: &B256)
        ensures
            Self::same_but_executed(*old(self), *final(self)),
            final(self).executed_bundles@ == old(self).executed_bundles@.push(*bundle_hash),
            final(self).spec_is_executed(*bundle_hash),
            forall|h: B256| old(self).spec_is_executed(h) ==> final(self).spec_is_executed(h),
    {
        let ghost before = self.executed_bundles@;
        add_hash(&mut self.executed_bundles, bundle_hash);
        proof {
            assert forall|h: B256| before.contains(h) implies self.executed_bundles@.contains(
                h,
            ) by {
                let j = choose|j: int| 0 <= j < before.len() && before[j] == h;
                assert(self.executed_bundles@[j] == h);
            }
        }
    }

    /// Registers the trusted InteropCenter for a source chain.
    pub fn add_trusted_source(&mut self, source_chain_id: u64, trusted: &Address)
        ensures
            Self::same_but_admin_tables(*old(self), *final(self)),
            final(self).preferred_paymasters@ == old(self).preferred_paymasters@,
            final(self).bridge_remote@ == old(self).bridge_remote@,
            final(self).bridge_nominator@ == old(self).bridge_nominator@,
            final(self).bridge_denominator@ == old(self).bridge_denominator@,
            final(self).spec_trusted_source(source_chain_id) == *trusted,
            forall|c: u64| c != source_chain_id ==> final(self).spec_trusted_source(c) == old(self).spec_trusted_source(c),
    {
        uput(&mut self.trusted_sources, source_chain_id, *trusted);
    }

    /// Registers the preferred paymaster for a source chain.
    pub fn set_preferred_paymaster(&mut self, source_chain_id: u64, paymaster: &Address)
        ensures
            Self::same_but_admin_tables(*old(self), *final(self)),
            final(self).trusted_sources@ == old(self).trusted_sources@,
            final(self).bridge_remote@ == old(self).bridge_remote@,
            final(self).bridge_nominator@ == old(self).bridge_nominator@,
            final(self).bridge_denominator@ == old(self).bridge_denominator@,
            final(self).spec_preferred_paymaster(source_chain_id) == *paymaster,
            forall|c: u64| c != source_chain_id ==> final(self).spec_preferred_paymaster(c)
                == old(self).spec_preferred_paymaster(c),
    {
        uput(&mut self.preferred_paymasters, source_chain_id, *paymaster);
    }

    /// Registers a remote token and its price ratio on this chain's
    /// paymaster-token bridge.
    pub fn add_other_bridge(
        &mut self,
        source_chain_id: u64,
        source_token: &Address,
        nominator: u64,
        denominator: u64,
    )
        ensures
            Self::same_but_admin_tables(*old(self), *final(self)),
            final(self).trusted_sources@ == old(self).trusted_sources@,
            final(self).preferred_paymasters@ == old(self).preferred_paymasters@,
            final(self).spec_bridge_remote(source_chain_id) == *source_token,
            final(self).spec_bridge_nominator(source_chain_id) == nominator,
            final(self).spec_bridge_denominator(source_chain_id) == denominator,
            forall|c: u64| c != source_chain_id ==> final(self).spec_bridge_remote(c) == old(self).spec_bridge_remote(c),
            forall|c: u64| c != source_chain_id ==> final(self).spec_bridge_nominator(c) == old(self).spec_bridge_nominator(c),
            forall|c: u64| c != source_chain_id ==> final(self).spec_bridge_denominator(c)
                == old(self).spec_bridge_denominator(c),
    {
        uput(&mut self.bridge_remote, source_chain_id, *source_token);
        uput(&mut self.bridge_nominator, source_chain_id, nominator);
        uput(&mut self.bridge_denominator, source_chain_id, denominator);
    }
}

} // verus!

verus! {

impl Clone for InteropChain {
    fn clone(&self) -> (r: Self)
        ensures
            InteropChain::same_chain(*self, r),
    {
        InteropChain {
            chain_id: self.chain_id,
            interop_address: self.interop_address,
            base_token_price: self.base_token_price,
            tokens_for_paymaster: self.tokens_for_paymaster,
            trusted_sources: crate::assoc::copy_vec(&self.trusted_sources),
            preferred_paymasters: crate::assoc::copy_vec(&self.preferred_paymasters),
            received_messages: crate::assoc::copy_vec(&self.received_messages),
            executed_bundles: crate::assoc::copy_vec(&self.executed_bundles),
            deployed_accounts: crate::assoc::copy_vec(&self.deployed_accounts),
            balances: crate::assoc::copy_vec(&self.balances),
            paymaster_tokens: crate::assoc::copy_vec(&self.paymaster_tokens),
            aliased_accounts: crate::assoc::copy_vec(&self.aliased_accounts),
            bridge_remote: crate::assoc::copy_vec(&self.bridge_remote),
            bridge_nominator: crate::assoc::copy_vec(&self.bridge_nominator),
            bridge_denominator: crate::assoc::copy_vec(&self.bridge_denominator),
        }
    }
}

} // verus!
