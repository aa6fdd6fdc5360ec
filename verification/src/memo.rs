//! Validation of the memo payload.

use crate::error::Rejection;
use core::str::Utf8Error;
use vstd::prelude::*;
use vstd::string::StringSliceAdditionalSpecFns;
use vstd::utf8::valid_utf8;

verus! {

/// `core::str::Utf8Error`, carried through and never looked into.
#[verifier::external_type_specification]
#[verifier::external_body]
pub struct ExUtf8Error(Utf8Error);

/// Specifies `core::str::from_utf8`.
///
/// Trusted: it accepts exactly the well-formed UTF-8 byte strings and hands
/// back the same bytes, read as text.
pub assume_specification<'a>[ core::str::from_utf8 ](v: &'a [u8]) -> (text: Result<
    &'a str,
    Utf8Error,
>)
    ensures
        text is Ok <==> valid_utf8(v@),
        text matches Ok(s) ==> s.spec_bytes() == v@,
;

/// Reads the payload as text.
///
/// The payload is accepted exactly when it is well-formed UTF-8, whatever its
/// length; the text returned covers the payload's bytes unchanged.
pub fn validate_memo<'a>(input: &'a [u8]) -> (memo: Result<&'a str, Rejection>)
    ensures
        memo is Ok <==> valid_utf8(input@),
        memo matches Ok(text) ==> text.spec_bytes() == input@,
        memo matches Err(cause) ==> cause == Rejection::InvalidEncoding,
{
    match core::str::from_utf8(input) {
        Ok(text) => Ok(text),
        Err(_) => Err(Rejection::InvalidEncoding),
    }
}

} // verus!
