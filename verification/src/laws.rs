//! What holds of the two entry operations for every request, stated over
//! the outcomes that their contracts name.

use crate::account::{AccountRef, CompressedAccount, CompressedAccountView, Pubkey};
use crate::address::{AddressMerkleContext, NewAddressParams};
use crate::error::MemoProgramError;
use crate::hashing::{poseidon_digest, primitives_accept};
use crate::processor::{build_outcome, log_outcome, records_view, registration};
use crate::signer::{all_signed, any_signed};
use vstd::prelude::*;
use vstd::utf8::{decode_utf8, valid_utf8};

verus! {

/// A request whose accounts all signed and whose memo is text is built,
/// provided the hash and the codec take the memo; the digest stored in the
/// account is the digest of the memo's raw bytes.
pub proof fn signed_text_is_built(
    discriminator: [u8; 8],
    accounts: Seq<AccountRef>,
    address_seed: [u8; 32],
    program_id: Pubkey,
    context: AddressMerkleContext,
    root_index: u16,
    input: Seq<u8>,
)
    requires
        all_signed(accounts),
        valid_utf8(input),
        primitives_accept(input),
    ensures
        build_outcome(
            discriminator,
            accounts,
            address_seed,
            program_id,
            context,
            root_index,
            input,
        ) matches Ok((account, _)) && account.data matches Some(data) && Some(data.data_hash)
            == poseidon_digest(input),
{
}

/// A request with an account that did not sign is turned down by the
/// account builder with `MissingSigner`. The logging path turns it down in
/// the same way only if no account signed at all; with one signer and a memo
/// that is text it returns the memo.
pub proof fn unsigned_account_divides_the_paths(
    discriminator: [u8; 8],
    accounts: Seq<AccountRef>,
    address_seed: [u8; 32],
    program_id: Pubkey,
    context: AddressMerkleContext,
    root_index: u16,
    input: Seq<u8>,
)
    requires
        !all_signed(accounts),
    ensures
        build_outcome(discriminator, accounts, address_seed, program_id, context, root_index, input)
            == Err::<(CompressedAccountView, NewAddressParams), MemoProgramError>(
            MemoProgramError::MissingSigner,
        ),
        any_signed(accounts) && valid_utf8(input) ==> log_outcome(accounts, input) == Ok::<
            Seq<char>,
            MemoProgramError,
        >(decode_utf8(input)),
        !any_signed(accounts) ==> log_outcome(accounts, input) == Err::<
            Seq<char>,
            MemoProgramError,
        >(MemoProgramError::MissingSigner),
{
}

/// A memo that is not well-formed UTF-8 is reported as `MemoTooLarge` by
/// either path that lets the request through its signer gate, whatever the
/// memo's length.
pub proof fn invalid_encoding_is_reported_as_too_large(
    discriminator: [u8; 8],
    accounts: Seq<AccountRef>,
    address_seed: [u8; 32],
    program_id: Pubkey,
    context: AddressMerkleContext,
    root_index: u16,
    input: Seq<u8>,
)
    requires
        !valid_utf8(input),
    ensures
        all_signed(accounts) ==> build_outcome(
            discriminator,
            accounts,
            address_seed,
            program_id,
            context,
            root_index,
            input,
        ) == Err::<(CompressedAccountView, NewAddressParams), MemoProgramError>(
            MemoProgramError::MemoTooLarge,
        ),
        any_signed(accounts) ==> log_outcome(accounts, input) == Err::<
            Seq<char>,
            MemoProgramError,
        >(MemoProgramError::MemoTooLarge),
{
}

/// Two runs of the account builder on the same request return the same
/// records, byte for byte, or the same error.
pub proof fn builder_is_deterministic(
    discriminator: [u8; 8],
    accounts: Seq<AccountRef>,
    address_seed: [u8; 32],
    program_id: Pubkey,
    context: AddressMerkleContext,
    root_index: u16,
    input: Seq<u8>,
    first: Result<(CompressedAccount, NewAddressParams), MemoProgramError>,
    second: Result<(CompressedAccount, NewAddressParams), MemoProgramError>,
)
    requires
        records_view(first) == build_outcome(
            discriminator,
            accounts,
            address_seed,
            program_id,
            context,
            root_index,
            input,
        ),
        records_view(second) == build_outcome(
            discriminator,
            accounts,
            address_seed,
            program_id,
            context,
            root_index,
            input,
        ),
    ensures
        records_view(first) == records_view(second),
{
}

/// The parameters that register the address carry the seed and the
/// identifiers of the request unchanged.
pub proof fn registration_passes_the_request_through(
    discriminator: [u8; 8],
    accounts: Seq<AccountRef>,
    address_seed: [u8; 32],
    program_id: Pubkey,
    context: AddressMerkleContext,
    root_index: u16,
    input: Seq<u8>,
)
    ensures
        build_outcome(
            discriminator,
            accounts,
            address_seed,
            program_id,
            context,
            root_index,
            input,
        ) matches Ok((_, params)) ==> {
            &&& params == registration(address_seed, context, root_index)
            &&& params.seed == address_seed
            &&& params.address_merkle_tree_pubkey == context.address_merkle_tree_pubkey
            &&& params.address_queue_pubkey == context.address_queue_pubkey
            &&& params.address_merkle_tree_root_index == root_index
        },
{
}

} // verus!
