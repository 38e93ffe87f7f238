//! ASCII signatures of the contract functions the relayer calls, and the
//! verified calldata builders derived from them.  A selector is the first
//! four bytes of the Keccak-256 digest of the signature; the arguments
//! follow as ABI words.

use vstd::prelude::*;
use crate::bytes::push_bytes;
use crate::words::{Address, B256, U256};
use crate::abi::{word_u64, word_addr, enc_message_body, pad_gap, pad_gap_of, push_word_u64,
    push_word_addr, InteropMessage, InteropMessageView};
use crate::keccak::{keccak_of, selector_of};

verus! {

/// The ASCII bytes of `executeInteropBundle((bytes,address,uint256,uint256),bytes)`.
pub open spec fn sig_execute_interop_bundle() -> Seq<u8> {
    seq![
        101u8, 120u8, 101u8, 99u8, 117u8, 116u8, 101u8, 73u8, 110u8, 116u8, 101u8, 114u8, 111u8,
        112u8, 66u8, 117u8, 110u8, 100u8, 108u8, 101u8, 40u8, 40u8, 98u8, 121u8, 116u8, 101u8,
        115u8, 44u8, 97u8, 100u8, 100u8, 114u8, 101u8, 115u8, 115u8, 44u8, 117u8, 105u8, 110u8,
        116u8, 50u8, 53u8, 54u8, 44u8, 117u8, 105u8, 110u8, 116u8, 50u8, 53u8, 54u8, 41u8, 44u8,
        98u8, 121u8, 116u8, 101u8, 115u8, 41u8,
    ]
}

/// Builds the ASCII signature `executeInteropBundle((bytes,address,uint256,uint256),bytes)`.
pub fn sig_execute_interop_bundle_bytes() -> (r: Vec<u8>)
    ensures
        r@ == sig_execute_interop_bundle(),
{
    let v: Vec<u8> = vec![
        101u8, 120u8, 101u8, 99u8, 117u8, 116u8, 101u8, 73u8, 110u8, 116u8, 101u8, 114u8, 111u8,
        112u8, 66u8, 117u8, 110u8, 100u8, 108u8, 101u8, 40u8, 40u8, 98u8, 121u8, 116u8, 101u8,
        115u8, 44u8, 97u8, 100u8, 100u8, 114u8, 101u8, 115u8, 115u8, 44u8, 117u8, 105u8, 110u8,
        116u8, 50u8, 53u8, 54u8, 44u8, 117u8, 105u8, 110u8, 116u8, 50u8, 53u8, 54u8, 41u8, 44u8,
        98u8, 121u8, 116u8, 101u8, 115u8, 41u8,
    ];
    assert(v@ =~= sig_execute_interop_bundle());
    v
}

/// The ASCII bytes of `receiveInteropMessage(bytes32)`.
pub open spec fn sig_receive_interop_message() -> Seq<u8> {
    seq![
        114u8, 101u8, 99u8, 101u8, 105u8, 118u8, 101u8, 73u8, 110u8, 116u8, 101u8, 114u8, 111u8,
        112u8, 77u8, 101u8, 115u8, 115u8, 97u8, 103u8, 101u8, 40u8, 98u8, 121u8, 116u8, 101u8,
        115u8, 51u8, 50u8, 41u8,
    ]
}

/// Builds the ASCII signature `receiveInteropMessage(bytes32)`.
pub fn sig_receive_interop_message_bytes() -> (r: Vec<u8>)
    ensures
        r@ == sig_receive_interop_message(),
{
    let v: Vec<u8> = vec![
        114u8, 101u8, 99u8, 101u8, 105u8, 118u8, 101u8, 73u8, 110u8, 116u8, 101u8, 114u8, 111u8,
        112u8, 77u8, 101u8, 115u8, 115u8, 97u8, 103u8, 101u8, 40u8, 98u8, 121u8, 116u8, 101u8,
        115u8, 51u8, 50u8, 41u8,
    ];
    assert(v@ =~= sig_receive_interop_message());
    v
}

/// The ASCII bytes of `addTrustedSource(uint256,address)`.
pub open spec fn sig_add_trusted_source() -> Seq<u8> {
    seq![
        97u8, 100u8, 100u8, 84u8, 114u8, 117u8, 115u8, 116u8, 101u8, 100u8, 83u8, 111u8, 117u8,
        114u8, 99u8, 101u8, 40u8, 117u8, 105u8, 110u8, 116u8, 50u8, 53u8, 54u8, 44u8, 97u8, 100u8,
        100u8, 114u8, 101u8, 115u8, 115u8, 41u8,
    ]
}

/// Builds the ASCII signature `addTrustedSource(uint256,address)`.
pub fn sig_add_trusted_source_bytes() -> (r: Vec<u8>)
    ensures
        r@ == sig_add_trusted_source(),
{
    let v: Vec<u8> = vec![
        97u8, 100u8, 100u8, 84u8, 114u8, 117u8, 115u8, 116u8, 101u8, 100u8, 83u8, 111u8, 117u8,
        114u8, 99u8, 101u8, 40u8, 117u8, 105u8, 110u8, 116u8, 50u8, 53u8, 54u8, 44u8, 97u8, 100u8,
        100u8, 114u8, 101u8, 115u8, 115u8, 41u8,
    ];
    assert(v@ =~= sig_add_trusted_source());
    v
}

/// The ASCII bytes of `setPreferredPaymaster(uint256,address)`.
pub open spec fn sig_set_preferred_paymaster() -> Seq<u8> {
    seq![
        115u8, 101u8, 116u8, 80u8, 114u8, 101u8, 102u8, 101u8, 114u8, 114u8, 101u8, 100u8, 80u8,
        97u8, 121u8, 109u8, 97u8, 115u8, 116u8, 101u8, 114u8, 40u8, 117u8, 105u8, 110u8, 116u8,
        50u8, 53u8, 54u8, 44u8, 97u8, 100u8, 100u8, 114u8, 101u8, 115u8, 115u8, 41u8,
    ]
}

/// Builds the ASCII signature `setPreferredPaymaster(uint256,address)`.
pub fn sig_set_preferred_paymaster_bytes() -> (r: Vec<u8>)
    ensures
        r@ == sig_set_preferred_paymaster(),
{
    let v: Vec<u8> = vec![
        115u8, 101u8, 116u8, 80u8, 114u8, 101u8, 102u8, 101u8, 114u8, 114u8, 101u8, 100u8, 80u8,
        97u8, 121u8, 109u8, 97u8, 115u8, 116u8, 101u8, 114u8, 40u8, 117u8, 105u8, 110u8, 116u8,
        50u8, 53u8, 54u8, 44u8, 97u8, 100u8, 100u8, 114u8, 101u8, 115u8, 115u8, 41u8,
    ];
    assert(v@ =~= sig_set_preferred_paymaster());
    v
}

/// The ASCII bytes of `deployAliasedAccount(address,uint256)`.
pub open spec fn sig_deploy_aliased_account() -> Seq<u8> {
    seq![
        100u8, 101u8, 112u8, 108u8, 111u8, 121u8, 65u8, 108u8, 105u8, 97u8, 115u8, 101u8, 100u8,
        65u8, 99u8, 99u8, 111u8, 117u8, 110u8, 116u8, 40u8, 97u8, 100u8, 100u8, 114u8, 101u8, 115u8,
        115u8, 44u8, 117u8, 105u8, 110u8, 116u8, 50u8, 53u8, 54u8, 41u8,
    ]
}

/// Builds the ASCII signature `deployAliasedAccount(address,uint256)`.
pub fn sig_deploy_aliased_account_bytes() -> (r: Vec<u8>)
    ensures
        r@ == sig_deploy_aliased_account(),
{
    let v: Vec<u8> = vec![
        100u8, 101u8, 112u8, 108u8, 111u8, 121u8, 65u8, 108u8, 105u8, 97u8, 115u8, 101u8, 100u8,
        65u8, 99u8, 99u8, 111u8, 117u8, 110u8, 116u8, 40u8, 97u8, 100u8, 100u8, 114u8, 101u8, 115u8,
        115u8, 44u8, 117u8, 105u8, 110u8, 116u8, 50u8, 53u8, 54u8, 41u8,
    ];
    assert(v@ =~= sig_deploy_aliased_account());
    v
}

/// The ASCII bytes of `addOtherBridge(uint256,address,uint256,uint256)`.
pub open spec fn sig_add_other_bridge() -> Seq<u8> {
    seq![
        97u8, 100u8, 100u8, 79u8, 116u8, 104u8, 101u8, 114u8, 66u8, 114u8, 105u8, 100u8, 103u8,
        101u8, 40u8, 117u8, 105u8, 110u8, 116u8, 50u8, 53u8, 54u8, 44u8, 97u8, 100u8, 100u8, 114u8,
        101u8, 115u8, 115u8, 44u8, 117u8, 105u8, 110u8, 116u8, 50u8, 53u8, 54u8, 44u8, 117u8, 105u8,
        110u8, 116u8, 50u8, 53u8, 54u8, 41u8,
    ]
}

/// Builds the ASCII signature `addOtherBridge(uint256,address,uint256,uint256)`.
pub fn sig_add_other_bridge_bytes() -> (r: Vec<u8>)
    ensures
        r@ == sig_add_other_bridge(),
{
    let v: Vec<u8> = vec![
        97u8, 100u8, 100u8, 79u8, 116u8, 104u8, 101u8, 114u8, 66u8, 114u8, 105u8, 100u8, 103u8,
        101u8, 40u8, 117u8, 105u8, 110u8, 116u8, 50u8, 53u8, 54u8, 44u8, 97u8, 100u8, 100u8, 114u8,
        101u8, 115u8, 115u8, 44u8, 117u8, 105u8, 110u8, 116u8, 50u8, 53u8, 54u8, 44u8, 117u8, 105u8,
        110u8, 116u8, 50u8, 53u8, 54u8, 41u8,
    ];
    assert(v@ =~= sig_add_other_bridge());
    v
}

/// The ASCII bytes of `getAliasedAccount(address,uint256)`.
pub open spec fn sig_get_aliased_account() -> Seq<u8> {
    seq![
        103u8, 101u8, 116u8, 65u8, 108u8, 105u8, 97u8, 115u8, 101u8, 100u8, 65u8, 99u8, 99u8, 111u8,
        117u8, 110u8, 116u8, 40u8, 97u8, 100u8, 100u8, 114u8, 101u8, 115u8, 115u8, 44u8, 117u8,
        105u8, 110u8, 116u8, 50u8, 53u8, 54u8, 41u8,
    ]
}

/// Builds the ASCII signature `getAliasedAccount(address,uint256)`.
pub fn sig_get_aliased_account_bytes() -> (r: Vec<u8>)
    ensures
        r@ == sig_get_aliased_account(),
{
    let v: Vec<u8> = vec![
        103u8, 101u8, 116u8, 65u8, 108u8, 105u8, 97u8, 115u8, 101u8, 100u8, 65u8, 99u8, 99u8, 111u8,
        117u8, 110u8, 116u8, 40u8, 97u8, 100u8, 100u8, 114u8, 101u8, 115u8, 115u8, 44u8, 117u8,
        105u8, 110u8, 116u8, 50u8, 53u8, 54u8, 41u8,
    ];
    assert(v@ =~= sig_get_aliased_account());
    v
}

/// The ASCII bytes of `preferredPaymasters(uint256)`.
pub open spec fn sig_preferred_paymasters() -> Seq<u8> {
    seq![
        112u8, 114u8, 101u8, 102u8, 101u8, 114u8, 114u8, 101u8, 100u8, 80u8, 97u8, 121u8, 109u8,
        97u8, 115u8, 116u8, 101u8, 114u8, 115u8, 40u8, 117u8, 105u8, 110u8, 116u8, 50u8, 53u8,
        54u8, 41u8,
    ]
}

/// Builds the ASCII signature `preferredPaymasters(uint256)`.
pub fn sig_preferred_paymasters_bytes() -> (r: Vec<u8>)
    ensures
        r@ == sig_preferred_paymasters(),
{
    let v: Vec<u8> = vec![
        112u8, 114u8, 101u8, 102u8, 101u8, 114u8, 114u8, 101u8, 100u8, 80u8, 97u8, 121u8, 109u8,
        97u8, 115u8, 116u8, 101u8, 114u8, 115u8, 40u8, 117u8, 105u8, 110u8, 116u8, 50u8, 53u8,
        54u8, 41u8,
    ];
    assert(v@ =~= sig_preferred_paymasters());
    v
}

/// The ASCII bytes of `trustedSources(uint256)`.
pub open spec fn sig_trusted_sources() -> Seq<u8> {
    seq![
        116u8, 114u8, 117u8, 115u8, 116u8, 101u8, 100u8, 83u8, 111u8, 117u8, 114u8, 99u8, 101u8,
        115u8, 40u8, 117u8, 105u8, 110u8, 116u8, 50u8, 53u8, 54u8, 41u8,
    ]
}

/// Builds the ASCII signature `trustedSources(uint256)`.
pub fn sig_trusted_sources_bytes() -> (r: Vec<u8>)
    ensures
        r@ == sig_trusted_sources(),
{
    let v: Vec<u8> = vec![
        116u8, 114u8, 117u8, 115u8, 116u8, 101u8, 100u8, 83u8, 111u8, 117u8, 114u8, 99u8, 101u8,
        115u8, 40u8, 117u8, 105u8, 110u8, 116u8, 50u8, 53u8, 54u8, 41u8,
    ];
    assert(v@ =~= sig_trusted_sources());
    v
}

/// The ASCII bytes of `receivedMessages(bytes32)`.
pub open spec fn sig_received_messages() -> Seq<u8> {
    seq![
        114u8, 101u8, 99u8, 101u8, 105u8, 118u8, 101u8, 100u8, 77u8, 101u8, 115u8, 115u8, 97u8,
        103u8, 101u8, 115u8, 40u8, 98u8, 121u8, 116u8, 101u8, 115u8, 51u8, 50u8, 41u8,
    ]
}

/// Builds the ASCII signature `receivedMessages(bytes32)`.
pub fn sig_received_messages_bytes() -> (r: Vec<u8>)
    ensures
        r@ == sig_received_messages(),
{
    let v: Vec<u8> = vec![
        114u8, 101u8, 99u8, 101u8, 105u8, 118u8, 101u8, 100u8, 77u8, 101u8, 115u8, 115u8, 97u8,
        103u8, 101u8, 115u8, 40u8, 98u8, 121u8, 116u8, 101u8, 115u8, 51u8, 50u8, 41u8,
    ];
    assert(v@ =~= sig_received_messages());
    v
}

/// The ASCII bytes of `executedBundles(bytes32)`.
pub open spec fn sig_executed_bundles() -> Seq<u8> {
    seq![
        101u8, 120u8, 101u8, 99u8, 117u8, 116u8, 101u8, 100u8, 66u8, 117u8, 110u8, 100u8, 108u8,
        101u8, 115u8, 40u8, 98u8, 121u8, 116u8, 101u8, 115u8, 51u8, 50u8, 41u8,
    ]
}

/// Builds the ASCII signature `executedBundles(bytes32)`.
pub fn sig_executed_bundles_bytes() -> (r: Vec<u8>)
    ensures
        r@ == sig_executed_bundles(),
{
    let v: Vec<u8> = vec![
        101u8, 120u8, 101u8, 99u8, 117u8, 116u8, 101u8, 100u8, 66u8, 117u8, 110u8, 100u8, 108u8,
        101u8, 115u8, 40u8, 98u8, 121u8, 116u8, 101u8, 115u8, 51u8, 50u8, 41u8,
    ];
    assert(v@ =~= sig_executed_bundles());
    v
}

/// The ASCII bytes of `paymasterTokenAddress()`.
pub open spec fn sig_paymaster_token_address() -> Seq<u8> {
    seq![
        112u8, 97u8, 121u8, 109u8, 97u8, 115u8, 116u8, 101u8, 114u8, 84u8, 111u8, 107u8, 101u8,
        110u8, 65u8, 100u8, 100u8, 114u8, 101u8, 115u8, 115u8, 40u8, 41u8,
    ]
}

/// Builds the ASCII signature `paymasterTokenAddress()`.
pub fn sig_paymaster_token_address_bytes() -> (r: Vec<u8>)
    ensures
        r@ == sig_paymaster_token_address(),
{
    let v: Vec<u8> = vec![
        112u8, 97u8, 121u8, 109u8, 97u8, 115u8, 116u8, 101u8, 114u8, 84u8, 111u8, 107u8, 101u8,
        110u8, 65u8, 100u8, 100u8, 114u8, 101u8, 115u8, 115u8, 40u8, 41u8,
    ];
    assert(v@ =~= sig_paymaster_token_address());
    v
}

/// The ASCII bytes of `remoteAddresses(uint256)`.
pub open spec fn sig_remote_addresses() -> Seq<u8> {
    seq![
        114u8, 101u8, 109u8, 111u8, 116u8, 101u8, 65u8, 100u8, 100u8, 114u8, 101u8, 115u8, 115u8,
        101u8, 115u8, 40u8, 117u8, 105u8, 110u8, 116u8, 50u8, 53u8, 54u8, 41u8,
    ]
}

/// Builds the ASCII signature `remoteAddresses(uint256)`.
pub fn sig_remote_addresses_bytes() -> (r: Vec<u8>)
    ensures
        r@ == sig_remote_addresses(),
{
    let v: Vec<u8> = vec![
        114u8, 101u8, 109u8, 111u8, 116u8, 101u8, 65u8, 100u8, 100u8, 114u8, 101u8, 115u8, 115u8,
        101u8, 115u8, 40u8, 117u8, 105u8, 110u8, 116u8, 50u8, 53u8, 54u8, 41u8,
    ];
    assert(v@ =~= sig_remote_addresses());
    v
}

/// The ASCII bytes of `ratioNominator(uint256)`.
pub open spec fn sig_ratio_nominator() -> Seq<u8> {
    seq![
        114u8, 97u8, 116u8, 105u8, 111u8, 78u8, 111u8, 109u8, 105u8, 110u8, 97u8, 116u8, 111u8,
        114u8, 40u8, 117u8, 105u8, 110u8, 116u8, 50u8, 53u8, 54u8, 41u8,
    ]
}

/// Builds the ASCII signature `ratioNominator(uint256)`.
pub fn sig_ratio_nominator_bytes() -> (r: Vec<u8>)
    ensures
        r@ == sig_ratio_nominator(),
{
    let v: Vec<u8> = vec![
        114u8, 97u8, 116u8, 105u8, 111u8, 78u8, 111u8, 109u8, 105u8, 110u8, 97u8, 116u8, 111u8,
        114u8, 40u8, 117u8, 105u8, 110u8, 116u8, 50u8, 53u8, 54u8, 41u8,
    ];
    assert(v@ =~= sig_ratio_nominator());
    v
}

/// The ASCII bytes of `ratioDenominator(uint256)`.
pub open spec fn sig_ratio_denominator() -> Seq<u8> {
    seq![
        114u8, 97u8, 116u8, 105u8, 111u8, 68u8, 101u8, 110u8, 111u8, 109u8, 105u8, 110u8, 97u8,
        116u8, 111u8, 114u8, 40u8, 117u8, 105u8, 110u8, 116u8, 50u8, 53u8, 54u8, 41u8,
    ]
}

/// Builds the ASCII signature `ratioDenominator(uint256)`.
pub fn sig_ratio_denominator_bytes() -> (r: Vec<u8>)
    ensures
        r@ == sig_ratio_denominator(),
{
    let v: Vec<u8> = vec![
        114u8, 97u8, 116u8, 105u8, 111u8, 68u8, 101u8, 110u8, 111u8, 109u8, 105u8, 110u8, 97u8,
        116u8, 111u8, 114u8, 40u8, 117u8, 105u8, 110u8, 116u8, 50u8, 53u8, 54u8, 41u8,
    ];
    assert(v@ =~= sig_ratio_denominator());
    v
}

/// The ASCII bytes of `InteropMessageSent(bytes32,address,bytes)`.
pub open spec fn sig_interop_message_sent_event() -> Seq<u8> {
    seq![
        73u8, 110u8, 116u8, 101u8, 114u8, 111u8, 112u8, 77u8, 101u8, 115u8, 115u8, 97u8, 103u8,
        101u8, 83u8, 101u8, 110u8, 116u8, 40u8, 98u8, 121u8, 116u8, 101u8, 115u8, 51u8, 50u8, 44u8,
        97u8, 100u8, 100u8, 114u8, 101u8, 115u8, 115u8, 44u8, 98u8, 121u8, 116u8, 101u8, 115u8,
        41u8,
    ]
}

/// Builds the ASCII signature `InteropMessageSent(bytes32,address,bytes)`.
pub fn sig_interop_message_sent_event_bytes() -> (r: Vec<u8>)
    ensures
        r@ == sig_interop_message_sent_event(),
{
    let v: Vec<u8> = vec![
        73u8, 110u8, 116u8, 101u8, 114u8, 111u8, 112u8, 77u8, 101u8, 115u8, 115u8, 97u8, 103u8,
        101u8, 83u8, 101u8, 110u8, 116u8, 40u8, 98u8, 121u8, 116u8, 101u8, 115u8, 51u8, 50u8, 44u8,
        97u8, 100u8, 100u8, 114u8, 101u8, 115u8, 115u8, 44u8, 98u8, 121u8, 116u8, 101u8, 115u8,
        41u8,
    ];
    assert(v@ =~= sig_interop_message_sent_event());
    v
}

} // verus!

verus! {

/// Calldata of `receiveInteropMessage(bytes32)`.
pub fn calldata_receive_interop_message(msg_hash: &B256) -> (r: Vec<u8>)
    ensures
        r@ == keccak_of(sig_receive_interop_message()).subrange(0, 4) + msg_hash.as_bytes(),
{
    let sig = sig_receive_interop_message_bytes();
    let mut out = selector_of(&sig);
    msg_hash.push_to(&mut out);
    out
}

/// Calldata of the `receivedMessages(bytes32)` mapping getter.
pub fn calldata_received_messages(msg_hash: &B256) -> (r: Vec<u8>)
    ensures
        r@ == keccak_of(sig_received_messages()).subrange(0, 4) + msg_hash.as_bytes(),
{
    let sig = sig_received_messages_bytes();
    let mut out = selector_of(&sig);
    msg_hash.push_to(&mut out);
    out
}

/// Calldata of the `executedBundles(bytes32)` mapping getter.
pub fn calldata_executed_bundles(bundle_hash: &B256) -> (r: Vec<u8>)
    ensures
        r@ == keccak_of(sig_executed_bundles()).subrange(0, 4) + bundle_hash.as_bytes(),
{
    let sig = sig_executed_bundles_bytes();
    let mut out = selector_of(&sig);
    bundle_hash.push_to(&mut out);
    out
}

/// Calldata of the `trustedSources(uint256)` mapping getter.
pub fn calldata_trusted_sources(chain_id: u64) -> (r: Vec<u8>)
    ensures
        r@ == keccak_of(sig_trusted_sources()).subrange(0, 4) + word_u64(chain_id),
{
    let sig = sig_trusted_sources_bytes();
    let mut out = selector_of(&sig);
    push_word_u64(&mut out, chain_id);
    out
}

/// Calldata of the `preferredPaymasters(uint256)` mapping getter.
pub fn calldata_preferred_paymasters(chain_id: u64) -> (r: Vec<u8>)
    ensures
        r@ == keccak_of(sig_preferred_paymasters()).subrange(0, 4) + word_u64(chain_id),
{
    let sig = sig_preferred_paymasters_bytes();
    let mut out = selector_of(&sig);
    push_word_u64(&mut out, chain_id);
    out
}

/// Calldata of the `remoteAddresses(uint256)` mapping getter.
pub fn calldata_remote_addresses(chain_id: u64) -> (r: Vec<u8>)
    ensures
        r@ == keccak_of(sig_remote_addresses()).subrange(0, 4) + word_u64(chain_id),
{
    let sig = sig_remote_addresses_bytes();
    let mut out = selector_of(&sig);
    push_word_u64(&mut out, chain_id);
    out
}

/// Calldata of the `ratioNominator(uint256)` mapping getter.
pub fn calldata_ratio_nominator(chain_id: u64) -> (r: Vec<u8>)
    ensures
        r@ == keccak_of(sig_ratio_nominator()).subrange(0, 4) + word_u64(chain_id),
{
    let sig = sig_ratio_nominator_bytes();
    let mut out = selector_of(&sig);
    push_word_u64(&mut out, chain_id);
    out
}

/// Calldata of the `ratioDenominator(uint256)` mapping getter.
pub fn calldata_ratio_denominator(chain_id: u64) -> (r: Vec<u8>)
    ensures
        r@ == keccak_of(sig_ratio_denominator()).subrange(0, 4) + word_u64(chain_id),
{
    let sig = sig_ratio_denominator_bytes();
    let mut out = selector_of(&sig);
    push_word_u64(&mut out, chain_id);
    out
}

/// Calldata of the `paymasterTokenAddress()` getter.
pub fn calldata_paymaster_token_address() -> (r: Vec<u8>)
    ensures
        r@ == keccak_of(sig_paymaster_token_address()).subrange(0, 4),
{
    let sig = sig_paymaster_token_address_bytes();
    selector_of(&sig)
}

/// Calldata of `addTrustedSource(uint256,address)`.
pub fn calldata_add_trusted_source(chain_id: u64, source: &Address) -> (r: Vec<u8>)
    ensures
        r@ == keccak_of(sig_add_trusted_source()).subrange(0, 4) + word_u64(chain_id)
            + word_addr(*source),
{
    let sig = sig_add_trusted_source_bytes();
    let mut out = selector_of(&sig);
    push_word_u64(&mut out, chain_id);
    push_word_addr(&mut out, source);
    out
}

/// Calldata of `setPreferredPaymaster(uint256,address)`.
pub fn calldata_set_preferred_paymaster(chain_id: u64, paymaster: &Address) -> (r: Vec<u8>)
    ensures
        r@ == keccak_of(sig_set_preferred_paymaster()).subrange(0, 4) + word_u64(chain_id)
            + word_addr(*paymaster),
{
    let sig = sig_set_preferred_paymaster_bytes();
    let mut out = selector_of(&sig);
    push_word_u64(&mut out, chain_id);
    push_word_addr(&mut out, paymaster);
    out
}

/// Calldata of `deployAliasedAccount(address,uint256)`.
pub fn calldata_deploy_aliased_account(source_account: &Address, source_chain_id: &U256) -> (r:
    Vec<u8>)
    ensures
        r@ == keccak_of(sig_deploy_aliased_account()).subrange(0, 4) + word_addr(*source_account)
            + source_chain_id.as_bytes(),
{
    let sig = sig_deploy_aliased_account_bytes();
    let mut out = selector_of(&sig);
    push_word_addr(&mut out, source_account);
    source_chain_id.push_to(&mut out);
    out
}

/// Calldata of `getAliasedAccount(address,uint256)`.
pub fn calldata_get_aliased_account(source_account: &Address, source_chain_id: &U256) -> (r: Vec<
    u8>)
    ensures
        r@ == keccak_of(sig_get_aliased_account()).subrange(0, 4) + word_addr(*source_account)
            + source_chain_id.as_bytes(),
{
    let sig = sig_get_aliased_account_bytes();
    let mut out = selector_of(&sig);
    push_word_addr(&mut out, source_account);
    source_chain_id.push_to(&mut out);
    out
}

/// Calldata of `addOtherBridge(uint256,address,uint256,uint256)`.
pub fn calldata_add_other_bridge(
    chain_id: u64,
    source_token: &Address,
    ratio_nominator: u64,
    ratio_denominator: u64,
) -> (r: Vec<u8>)
    ensures
        r@ == keccak_of(sig_add_other_bridge()).subrange(0, 4) + word_u64(chain_id) + word_addr(
        *source_token) + word_u64(ratio_nominator) + word_u64(ratio_denominator),
{
    let sig = sig_add_other_bridge_bytes();
    let mut out = selector_of(&sig);
    push_word_u64(&mut out, chain_id);
    push_word_addr(&mut out, source_token);
    push_word_u64(&mut out, ratio_nominator);
    push_word_u64(&mut out, ratio_denominator);
    out
}

/// The calldata of `executeInteropBundle(message, proof)` with an empty
/// proof: a two-word head with the offsets of the two dynamic arguments,
/// the struct body of the message, and the zero-length proof word.
pub open spec fn execute_bundle_calldata(m: InteropMessageView) -> Seq<u8> {
    keccak_of(sig_execute_interop_bundle()).subrange(0, 4) + word_u64(64) + word_u64((224
        + m.data.len() + pad_gap(m.data.len() as int)) as u64) + enc_message_body(m) + word_u64(0)
}

/// Builds the calldata of `executeInteropBundle` for one message, with the
/// proof field left empty.
pub fn calldata_execute_interop_bundle(m: &InteropMessage) -> (r: Vec<u8>)
    requires
        m.data@.len() + 512 <= usize::MAX,
    ensures
        r@ == execute_bundle_calldata(m@),
{
    let sig = sig_execute_interop_bundle_bytes();
    let mut out = selector_of(&sig);
    push_word_u64(&mut out, 64);
    let l = m.data.len();
    let gap = pad_gap_of(l);
    push_word_u64(&mut out, (224 + l + gap) as u64);
    push_word_u64(&mut out, 128);
    push_word_addr(&mut out, &m.sender);
    m.source_chain_id.push_to(&mut out);
    m.message_num.push_to(&mut out);
    push_word_u64(&mut out, l as u64);
    push_bytes(&mut out, &m.data);
    crate::bytes::push_zeros(&mut out, gap);
    push_word_u64(&mut out, 0);
    assert(out@ =~= execute_bundle_calldata(m@));
    out
}

/// The 32-byte topic of the `InteropMessageSent` event.
pub fn interop_message_sent_topic() -> (r: Vec<u8>)
    ensures
        r@ == keccak_of(sig_interop_message_sent_event()),
        r@.len() == 32,
{
    let sig = sig_interop_message_sent_event_bytes();
    crate::keccak::keccak256_digest(&sig)
}

} // verus!
