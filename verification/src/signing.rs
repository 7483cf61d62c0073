//! Signing and opening tokens, as `jsonwebtoken` does it.
//!
//! A token is three base64url segments joined by dots: a header that names
//! HMAC-SHA256, the payload as a JSON object, and the signature over the two.
//! Producing and checking that string is `jsonwebtoken`'s work. This module
//! names the two results and wraps the two calls; the contracts of the
//! wrappers are assumed.

use vstd::prelude::*;
use jsonwebtoken::errors::ErrorKind;
use jsonwebtoken::{Algorithm, DecodingKey, EncodingKey, Header, Validation};
use crate::object::{members, JsonObject, Member};

verus! {

/// `jsonwebtoken::errors::Error`, as signing hands it back; it is only ever
/// told apart from success.
#[verifier::external_type_specification]
#[verifier::external_body]
pub struct ExSigningError(jsonwebtoken::errors::Error);

/// Why `jsonwebtoken` refused to open a token.
#[derive(Clone, Copy, Debug, PartialEq, Eq, Structural)]
pub enum Refusal {
    /// The token lacks the two dots that part header, payload and signature.
    InvalidToken,
    /// The signature is not the one the secret gives for header and payload.
    InvalidSignature,
    /// The header names a signing algorithm other than HMAC-SHA256.
    InvalidAlgorithm,
    /// The payload has no `exp` member that reads as a number of seconds.
    MissingRequiredClaim,
    /// A segment is not base64url text.
    Base64,
    /// Header or payload is not the JSON expected there.
    Json,
    /// Any other failure.
    Other,
}

/// The token that signing a payload with these members under `secret` gives,
/// or `None` where signing fails.
pub uninterp spec fn signed_token(payload: Map<Seq<char>, Member>, secret: Seq<u8>) -> Option<Seq<char>>;

/// What opening `token` under `secret` gives: the members of its payload, or
/// the reason for the refusal. No clock is read: the window is not looked at.
pub uninterp spec fn opened_token(token: Seq<char>, secret: Seq<u8>) -> Result<Map<Seq<char>, Member>, Refusal>;

/// A character of the base64url alphabet: a letter, a digit, `-` or `_`.
pub open spec fn segment_char(c: char) -> bool {
    ||| 'A' <= c && c <= 'Z'
    ||| 'a' <= c && c <= 'z'
    ||| '0' <= c && c <= '9'
    ||| c == '-'
    ||| c == '_'
}

/// A segment of a token: base64url text without padding.
pub open spec fn is_segment(text: Seq<char>) -> bool {
    forall|i: int| 0 <= i < text.len() ==> segment_char(#[trigger] text[i])
}

/// Two texts joined by a dot.
pub open spec fn joined(left: Seq<char>, right: Seq<char>) -> Seq<char> {
    left + seq!['.'] + right
}

/// Header, payload and signature joined by two dots.
pub open spec fn compact_form(
    header: Seq<char>,
    payload: Seq<char>,
    signature: Seq<char>,
) -> Seq<char> {
    joined(joined(header, payload), signature)
}

/// The compact form of a token: header, payload and signature, each a
/// segment, joined by two dots.
pub open spec fn is_compact(token: Seq<char>) -> bool {
    exists|header: Seq<char>, payload: Seq<char>, signature: Seq<char>|
        is_segment(header) && is_segment(payload) && is_segment(signature) && token
            == #[trigger] compact_form(header, payload, signature)
}

/// A text without a dot.
pub open spec fn dotless(text: Seq<char>) -> bool {
    forall|i: int| 0 <= i < text.len() ==> #[trigger] text[i] != '.'
}

/// The signature of `token` is bound to what it signs: where `token` is a
/// message and a signature joined by its last dot, the same message with any
/// other signature does not open under `secret`.
pub open spec fn signature_bound(token: Seq<char>, secret: Seq<u8>) -> bool {
    forall|message: Seq<char>, signature: Seq<char>, forged: Seq<char>|
        token == #[trigger] joined(message, signature) && dotless(signature) && forged
            != signature ==> (#[trigger] opened_token(joined(message, forged), secret)) is Err
}

/// Every member is a string, a boolean or a whole number in the range of
/// `u64`, so that the members determine the JSON text of the object.
pub open spec fn plain(payload: Map<Seq<char>, Member>) -> bool {
    forall|key: Seq<char>| payload.contains_key(key) ==> !(#[trigger] payload[key] is Other)
}

/// A payload that opens again once signed: its members are plain, it has the
/// `exp` member that opening asks for, and no `aud` member, which opening
/// would hold against an audience that is not configured.
pub open spec fn opens_again(payload: Map<Seq<char>, Member>) -> bool {
    &&& plain(payload)
    &&& payload.contains_key("exp"@) && payload["exp"@] is Number
    &&& !payload.contains_key("aud"@)
}

/// `jsonwebtoken::encode` with the default header (HMAC-SHA256) and a key made
/// from `secret` by `EncodingKey::from_secret`.
///
/// Assumed: the token is in compact form; it depends on the members of a
/// plain payload and on the secret alone; and a token made from a payload
/// that `opens_again` is opened by `jsonwebtoken::decode` under the same
/// secret to the same members.
#[verifier::external_body]
pub(crate) fn sign_object(payload: &JsonObject, secret: &[u8]) -> (token: Result<String, jsonwebtoken::errors::Error>)
    ensures
        token matches Ok(t) ==> is_compact(t@),
        plain(members(*payload)) ==> (match token {
            Ok(t) => signed_token(members(*payload), secret@) == Some(t@),
            Err(_) => signed_token(members(*payload), secret@) is None,
        }),
        opens_again(members(*payload)) ==> (token matches Ok(t) ==> (opened_token(t@, secret@)
            matches Ok(m) && m == members(*payload))),
{
    jsonwebtoken::encode(&Header::default(), payload, &EncodingKey::from_secret(secret))
}

/// `jsonwebtoken::decode` into a JSON object, with a key made from `secret`
/// by `DecodingKey::from_secret` and the validation `Validation::new` gives
/// for HMAC-SHA256, but for the expiry check, which is switched off.
///
/// The kinds of error listed in [`Refusal`] are handed on one for one, every
/// other kind as `Other`.
///
/// Assumed: the outcome depends on the token and the secret alone; and a
/// token opens only with the signature that the secret gives for its header
/// and payload, which is compared as text, so that a token that opens is
/// `signature_bound`.
#[verifier::external_body]
pub(crate) fn open_token(token: &str, secret: &[u8]) -> (opened: Result<JsonObject, Refusal>)
    ensures
        match opened {
            Ok(payload) => opened_token(token@, secret@) matches Ok(m) && m == members(payload),
            Err(why) => opened_token(token@, secret@) matches Err(e) && e == why,
        },
        opened is Ok ==> signature_bound(token@, secret@),
{
    let mut checks = Validation::new(Algorithm::HS256);
    checks.validate_exp = false;
    match jsonwebtoken::decode::<JsonObject>(token, &DecodingKey::from_secret(secret), &checks) {
        Ok(data) => Ok(data.claims),
        Err(error) => Err(match error.kind() {
            ErrorKind::InvalidToken => Refusal::InvalidToken,
            ErrorKind::InvalidSignature => Refusal::InvalidSignature,
            ErrorKind::InvalidAlgorithm => Refusal::InvalidAlgorithm,
            ErrorKind::MissingRequiredClaim(_) => Refusal::MissingRequiredClaim,
            ErrorKind::Base64(_) => Refusal::Base64,
            ErrorKind::Json(_) => Refusal::Json,
            _ => Refusal::Other,
        }),
    }
}

} // verus!
