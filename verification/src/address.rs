//! Where a compressed account lives: the address tree it is registered in
//! and the address derived for it.

use crate::account::Pubkey;
use vstd::prelude::*;

verus! {

/// The address tree and the queue that feeds it.
#[derive(Clone, Copy, Debug, PartialEq, Eq)]
pub struct AddressMerkleContext {
    pub address_merkle_tree_pubkey: Pubkey,
    pub address_queue_pubkey: Pubkey,
}

/// The claim that an address be inserted into a tree, against one of the
/// tree's past roots.
#[derive(Clone, Copy, Debug, PartialEq, Eq)]
pub struct NewAddressParams {
    pub seed: [u8; 32],
    pub address_queue_pubkey: Pubkey,
    pub address_merkle_tree_pubkey: Pubkey,
    pub address_merkle_tree_root_index: u16,
}

/// The address that a seed has in the tree with the given key.
pub uninterp spec fn derived_address(merkle_tree: Seq<u8>, seed: Seq<u8>) -> Seq<u8>;

/// Calls `light_sdk::address::derive_address`.
///
/// Trusted: the address is a function of the tree's key and the seed alone,
/// named `derived_address`; the queue's key takes no part in it. The call
/// hashes the two with Keccak and clears the first byte of the digest, which
/// puts it below the BN254 modulus at the first attempt, so it always returns.
#[verifier::external_body]
pub(crate) fn derive_address(
    address_seed: &[u8; 32],
    address_merkle_context: &AddressMerkleContext,
) -> (address: [u8; 32])
    ensures
        address@ == derived_address(
            address_merkle_context.address_merkle_tree_pubkey@,
            address_seed@,
        ),
{
    let context = light_sdk::merkle_context::AddressMerkleContext {
        address_merkle_tree_pubkey: anchor_lang::prelude::Pubkey::new_from_array(
            address_merkle_context.address_merkle_tree_pubkey.bytes,
        ),
        address_queue_pubkey: anchor_lang::prelude::Pubkey::new_from_array(
            address_merkle_context.address_queue_pubkey.bytes,
        ),
    };
    light_sdk::address::derive_address(address_seed, &context)
}

} // verus!
