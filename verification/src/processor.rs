//! The two entry operations: the account builder, which turns a memo into a
//! compressed account and the parameters that register its address, and the
//! logging path, which only checks the request and hands the memo back.

use crate::account::{
    AccountRef, CompressedAccount, CompressedAccountData, CompressedAccountDataView,
    CompressedAccountView, Pubkey,
};
use crate::address::{derive_address, derived_address, AddressMerkleContext, NewAddressParams};
pub use crate::error::MemoProgramError;
use crate::error::Rejection;
use crate::hashing::{hash_and_serialize, hashed_and_stored, poseidon_digest, primitives_accept};
use crate::memo::validate_memo;
use crate::signer::{all_signed, any_signed, signer_gate, SignerPolicy};
use vstd::prelude::*;
use vstd::string::StringSliceAdditionalSpecFns;
use vstd::utf8::{decode_utf8, encode_utf8_decode_utf8, valid_utf8};

verus! {

/// What the first two steps of either path make of a request: the signer
/// gate under the path's policy, then the check of the payload.
pub open spec fn screening(policy: SignerPolicy, accounts: Seq<AccountRef>, input: Seq<u8>) -> Result<
    (),
    Rejection,
> {
    if !policy.admits(accounts) {
        Err(Rejection::MissingSigner)
    } else if !valid_utf8(input) {
        Err(Rejection::InvalidEncoding)
    } else {
        Ok(())
    }
}

/// Runs the signer gate under `policy`, then reads the payload as text.
pub fn screen_request<'a>(policy: SignerPolicy, accounts: &[AccountRef], input: &'a [u8]) -> (r:
    Result<&'a str, Rejection>)
    ensures
        match r {
            Ok(memo) => screening(policy, accounts@, input@) is Ok && memo.spec_bytes() == input@,
            Err(cause) => screening(policy, accounts@, input@) == Err::<(), Rejection>(cause),
        },
{
    match signer_gate(policy, accounts) {
        Ok(()) => {},
        Err(cause) => {
            return Err(cause);
        },
    }
    validate_memo(input)
}

/// The account that a memo produces: owned by the program, without balance,
/// at the derived address, holding the stored memo and its digest.
pub open spec fn memo_account(
    discriminator: [u8; 8],
    owner: Pubkey,
    address: Seq<u8>,
    data: Seq<u8>,
    data_hash: Seq<u8>,
) -> CompressedAccountView {
    CompressedAccountView {
        owner: owner@,
        lamports: 0,
        address: Some(address),
        data: Some(CompressedAccountDataView { discriminator: discriminator@, data, data_hash }),
    }
}

/// The parameters that register an address: the seed and the identifiers of
/// the request, passed on as they came.
pub open spec fn registration(
    address_seed: [u8; 32],
    context: AddressMerkleContext,
    root_index: u16,
) -> NewAddressParams {
    NewAddressParams {
        seed: address_seed,
        address_queue_pubkey: context.address_queue_pubkey,
        address_merkle_tree_pubkey: context.address_merkle_tree_pubkey,
        address_merkle_tree_root_index: root_index,
    }
}

/// Puts the two records together from the parts that were computed for them.
pub fn assemble(
    discriminator: &[u8; 8],
    address_seed: &[u8; 32],
    program_id: &Pubkey,
    address_merkle_context: &AddressMerkleContext,
    address_merkle_tree_root_index: u16,
    address: [u8; 32],
    data: Vec<u8>,
    data_hash: [u8; 32],
) -> (records: (CompressedAccount, NewAddressParams))
    ensures
        records.0 == (CompressedAccount {
            owner: *program_id,
            lamports: 0,
            address: Some(address),
            data: Some(CompressedAccountData { discriminator: *discriminator, data, data_hash }),
        }),
        records.0@ == memo_account(*discriminator, *program_id, address@, data@, data_hash@),
        records.1 == registration(
            *address_seed,
            *address_merkle_context,
            address_merkle_tree_root_index,
        ),
{
    let compressed_account_data = CompressedAccountData {
        discriminator: *discriminator,
        data,
        data_hash,
    };
    let compressed_account = CompressedAccount {
        owner: *program_id,
        lamports: 0,
        address: Some(address),
        data: Some(compressed_account_data),
    };
    let new_address_params = NewAddressParams {
        seed: *address_seed,
        address_merkle_tree_pubkey: address_merkle_context.address_merkle_tree_pubkey,
        address_queue_pubkey: address_merkle_context.address_queue_pubkey,
        address_merkle_tree_root_index,
    };
    (compressed_account, new_address_params)
}

/// What the account builder returns for a request: the two records, or the
/// one error of the first step that failed. The steps are the signer gate
/// under the strict policy, the check of the payload, serialization, hashing.
pub open spec fn build_outcome(
    discriminator: [u8; 8],
    accounts: Seq<AccountRef>,
    address_seed: [u8; 32],
    program_id: Pubkey,
    context: AddressMerkleContext,
    root_index: u16,
    input: Seq<u8>,
) -> Result<(CompressedAccountView, NewAddressParams), MemoProgramError> {
    match screening(SignerPolicy::StrictAllSigners, accounts, input) {
        Err(cause) => Err(cause.reported()),
        Ok(_) => match hashed_and_stored(input) {
            Err(cause) => Err(cause.reported()),
            Ok((data, data_hash)) => Ok(
                (
                    memo_account(
                        discriminator,
                        program_id,
                        derived_address(context.address_merkle_tree_pubkey@, address_seed@),
                        data,
                        data_hash,
                    ),
                    registration(address_seed, context, root_index),
                ),
            ),
        },
    }
}

/// What a result of the account builder holds, the account as byte sequences.
pub open spec fn records_view(
    r: Result<(CompressedAccount, NewAddressParams), MemoProgramError>,
) -> Result<(CompressedAccountView, NewAddressParams), MemoProgramError> {
    match r {
        Ok((account, params)) => Ok((account@, params)),
        Err(e) => Err(e),
    }
}

/// The account builder.
///
/// Checks that every account signed and that the memo is text, serializes
/// and hashes the memo, derives the account's address from the seed and the
/// address tree, and returns the account with the parameters that register
/// its address. A failure returns one error and no record.
pub fn create_compressed_account_with_memo(
    discriminator: &[u8; 8],
    accounts: &[AccountRef],
    address_seed: &[u8; 32],
    program_id: &Pubkey,
    address_merkle_context: &AddressMerkleContext,
    address_merkle_tree_root_index: u16,
    input: &[u8],
) -> (r: Result<(CompressedAccount, NewAddressParams), MemoProgramError>)
    ensures
        records_view(r) == build_outcome(
            *discriminator,
            accounts@,
            *address_seed,
            *program_id,
            *address_merkle_context,
            address_merkle_tree_root_index,
            input@,
        ),
        all_signed(accounts@) && valid_utf8(input@) && primitives_accept(input@) ==> r is Ok,
        r matches Ok((account, params)) ==> {
            &&& account.data matches Some(data)
            &&& poseidon_digest(input@) == Some(data.data_hash@)
            &&& params.seed == *address_seed
        },
        input@.len() > 32 ==> r is Err,
{
    match screen_request(SignerPolicy::StrictAllSigners, accounts, input) {
        Ok(_) => {},
        Err(cause) => {
            return Err(cause.report());
        },
    }
    let (data, data_hash) = match hash_and_serialize(input) {
        Ok(parts) => parts,
        Err(cause) => {
            return Err(cause.report());
        },
    };
    let address = derive_address(address_seed, address_merkle_context);
    Ok(
        assemble(
            discriminator,
            address_seed,
            program_id,
            address_merkle_context,
            address_merkle_tree_root_index,
            address,
            data,
            data_hash,
        ),
    )
}

/// What the logging path returns for a request: the memo as text, or the
/// error of the step that failed. The steps are the signer gate under the
/// weak policy and the check of the payload.
pub open spec fn log_outcome(accounts: Seq<AccountRef>, input: Seq<u8>) -> Result<
    Seq<char>,
    MemoProgramError,
> {
    match screening(SignerPolicy::WeakAnySigner, accounts, input) {
        Err(cause) => Err(cause.reported()),
        Ok(_) => Ok(decode_utf8(input)),
    }
}

/// What a result of the logging path holds.
pub open spec fn memo_view(r: Result<&str, MemoProgramError>) -> Result<
    Seq<char>,
    MemoProgramError,
> {
    match r {
        Ok(memo) => Ok(memo@),
        Err(e) => Err(e),
    }
}

/// The logging path.
///
/// Checks that some account signed and that the memo is text, and hands the
/// memo back for the record. It builds no account. The text returned is the
/// payload itself, byte for byte.
pub fn process_instruction<'a>(
    _program_id: &Pubkey,
    accounts: &[AccountRef],
    input: &'a [u8],
) -> (r: Result<&'a str, MemoProgramError>)
    ensures
        memo_view(r) == log_outcome(accounts@, input@),
        r matches Ok(memo) ==> memo.spec_bytes() == input@,
        r is Ok <==> any_signed(accounts@) && valid_utf8(input@),
{
    match screen_request(SignerPolicy::WeakAnySigner, accounts, input) {
        Ok(memo) => {
            proof {
                encode_utf8_decode_utf8(memo@);
            }
            Ok(memo)
        },
        Err(cause) => Err(cause.report()),
    }
}

} // verus!
