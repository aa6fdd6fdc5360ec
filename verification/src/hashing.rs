//! The stored form and the digest of a memo payload.
//!
//! The Poseidon hash comes from `light_hasher` and the stored form from
//! `borsh`; both are called here and nowhere else.

use crate::error::Rejection;
use borsh::BorshSerialize;
use light_hasher::errors::HasherError;
use light_hasher::{Hasher, Poseidon};
use vstd::prelude::*;

verus! {

/// `light_hasher::errors::HasherError`, carried through and never looked into.
#[verifier::external_type_specification]
#[verifier::external_body]
pub struct ExHasherError(HasherError);

/// `std::io::Error`, the error of borsh, carried through and never looked into.
#[verifier::external_type_specification]
#[verifier::external_body]
pub struct ExIoError(std::io::Error);

/// The Poseidon digest of `input` over the BN254 scalar field, or `None`
/// where the primitive turns the input down.
pub uninterp spec fn poseidon_digest(input: Seq<u8>) -> Option<Seq<u8>>;

/// Calls `light_hasher::Poseidon::hash`.
///
/// Trusted: the outcome is a function of the bytes alone, named
/// `poseidon_digest`. The hasher left-pads its input to one 32-byte field
/// element and refuses anything longer before it hashes.
#[verifier::external_body]
fn poseidon_hash(input: &[u8]) -> (digest: Result<[u8; 32], HasherError>)
    ensures
        match digest {
            Ok(d) => poseidon_digest(input@) == Some(d@),
            Err(_) => poseidon_digest(input@) is None,
        },
        input@.len() > 32 ==> digest is Err,
{
    Poseidon::hash(input)
}

/// The four bytes of `n`, least significant first.
pub open spec fn length_prefix(n: nat) -> Seq<u8>
    recommends
        n <= u32::MAX,
{
    seq![
        (n % 256) as u8,
        (n / 256 % 256) as u8,
        (n / 65536 % 256) as u8,
        (n / 16777216 % 256) as u8,
    ]
}

/// The canonical stored form of a byte string: its length as four
/// little-endian bytes, then the bytes themselves.
pub open spec fn stored_form(input: Seq<u8>) -> Seq<u8>
    recommends
        input.len() <= u32::MAX,
{
    length_prefix(input.len()) + input
}

/// Calls `borsh::BorshSerialize::try_to_vec` on a byte slice.
///
/// Trusted: borsh writes the length as a little-endian `u32` followed by the
/// bytes unchanged, and fails exactly when the length does not fit in a `u32`.
#[verifier::external_body]
fn serialize_bytes(input: &[u8]) -> (data: Result<Vec<u8>, std::io::Error>)
    ensures
        data is Ok <==> input@.len() <= u32::MAX,
        data matches Ok(bytes) ==> bytes@ == stored_form(input@),
{
    input.try_to_vec()
}

/// Both primitives take the payload: it has a stored form and a digest.
pub open spec fn primitives_accept(input: Seq<u8>) -> bool {
    input.len() <= u32::MAX && poseidon_digest(input) is Some
}

/// What hashing and serialization make of a payload: its stored form and
/// its digest, or the cause for which one of the two primitives refused it.
pub open spec fn hashed_and_stored(input: Seq<u8>) -> Result<(Seq<u8>, Seq<u8>), Rejection> {
    if input.len() > u32::MAX {
        Err(Rejection::SerializationRejected)
    } else {
        match poseidon_digest(input) {
            Some(digest) => Ok((stored_form(input), digest)),
            None => Err(Rejection::HashRejected),
        }
    }
}

/// The stored form of `input` together with its digest.
///
/// The digest is always taken over the raw bytes, never over the stored
/// form. A payload of more than 32 bytes is never accepted: it does not fit
/// the single field element that the hash takes.
pub fn hash_and_serialize(input: &[u8]) -> (r: Result<(Vec<u8>, [u8; 32]), Rejection>)
    ensures
        match r {
            Ok((data, data_hash)) => hashed_and_stored(input@) == Ok::<
                (Seq<u8>, Seq<u8>),
                Rejection,
            >((data@, data_hash@)),
            Err(cause) => hashed_and_stored(input@) == Err::<(Seq<u8>, Seq<u8>), Rejection>(cause),
        },
        input@.len() > 32 ==> r is Err,
{
    let data = match serialize_bytes(input) {
        Ok(data) => data,
        Err(_) => {
            return Err(Rejection::SerializationRejected);
        },
    };
    let data_hash = match poseidon_hash(input) {
        Ok(digest) => digest,
        Err(_) => {
            return Err(Rejection::HashRejected);
        },
    };
    Ok((data, data_hash))
}

} // verus!
