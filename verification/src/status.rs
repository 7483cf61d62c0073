//! HTTP status codes, as `hyper` holds them.
//!
//! The type is `hyper`'s own and opaque to Verus. This module gives the number
//! of a status code a name and wraps the one call that makes a code from a
//! number. The contract of that wrapper is assumed.

use vstd::prelude::*;

verus! {

/// `hyper::StatusCode`, carried through as a value Verus does not look into.
#[verifier::external_type_specification]
#[verifier::external_body]
pub struct ExStatusCode(hyper::StatusCode);

/// The number of a status code: what `StatusCode::as_u16` returns for it.
pub uninterp spec fn status_number(code: hyper::StatusCode) -> u16;

/// `StatusCode::from_u16`: a status code exists for the numbers from 100 to
/// 999 and for no others, and the code made from a number has that number.
#[verifier::external_body]
pub(crate) fn status_from_number(number: u16) -> (code: Option<hyper::StatusCode>)
    ensures
        code is Some <==> 100 <= number <= 999,
        code matches Some(c) ==> status_number(c) == number,
{
    hyper::StatusCode::from_u16(number).ok()
}

} // verus!
