//! The two operations: issuing a token and verifying one.

use vstd::prelude::*;
pub use crate::claims::Claims;
use crate::claims::{issued_claims, window_representable, ClaimsView};
use crate::codec::{claims_members, lemma_keys_distinct, members_claims};
use crate::config::{TokenConfig, TokenConfigView};
use crate::error::{IssueError, VerifyError};
use crate::object::{members, JsonObject, Member};
use crate::signing::{
    is_compact, open_token, opened_token, opens_again, plain, sign_object, signature_bound,
    signed_token, Refusal,
};
use crate::window::{window_state, WindowState};

verus! {

/// What a verification hands back: the privilege flag and the subject, or the
/// reason for the refusal.
pub type Verdict = Result<(bool, Seq<char>), VerifyError>;

/// The verdict that accepts a token and hands back what it carries.
pub open spec fn accepted(is_admin: bool, name: Seq<char>) -> Verdict {
    Ok((is_admin, name))
}

/// The verdict that refuses a token for the reason `error`.
pub open spec fn refused(error: VerifyError) -> Verdict {
    Err(error)
}

/// The members of the payload of a token issued for `name` at `now`.
pub open spec fn token_payload(
    name: Seq<char>,
    is_admin: bool,
    config: TokenConfigView,
    now: int,
) -> Map<Seq<char>, Member> {
    claims_members(
        issued_claims(
            name,
            is_admin,
            now,
            config.expiration_offset as int,
            config.not_before_offset as int,
        ),
    )
}

/// `token` is what issuing for `name` at `now` gives: the window can be
/// written down, signing the payload under the configured secret gives
/// `token`, which is in compact form, and opening `token` under that secret
/// gives the payload back.
pub open spec fn issues(
    name: Seq<char>,
    is_admin: bool,
    config: TokenConfigView,
    now: int,
    token: Seq<char>,
) -> bool {
    &&& window_representable(
        now,
        config.expiration_offset as int,
        config.not_before_offset as int,
    )
    &&& signed_token(token_payload(name, is_admin, config, now), config.secret) == Some(token)
    &&& is_compact(token)
    &&& opened_token(token, config.secret) matches Ok(payload) && payload == token_payload(
        name,
        is_admin,
        config,
        now,
    )
}

/// The verification error that stands for a refusal by the signing library.
/// A wrong signature and a foreign algorithm are bad signatures; a token that
/// cannot be taken apart or read is malformed; the rest is internal.
pub open spec fn refusal_error(why: Refusal) -> VerifyError {
    match why {
        Refusal::InvalidSignature => VerifyError::BadSignature,
        Refusal::InvalidAlgorithm => VerifyError::BadSignature,
        Refusal::InvalidToken => VerifyError::Malformed,
        Refusal::MissingRequiredClaim => VerifyError::Malformed,
        Refusal::Base64 => VerifyError::Malformed,
        Refusal::Json => VerifyError::Malformed,
        Refusal::Other => VerifyError::Internal,
    }
}

/// What the claims `c` are worth at `now`: the identity they carry while the
/// window is open, and the matching error before and after.
pub open spec fn claims_verdict(c: ClaimsView, now: int) -> Verdict {
    match window_state(c.nbf as int, c.exp as int, now) {
        WindowState::Expired => refused(VerifyError::Expired),
        WindowState::NotYetValid => refused(VerifyError::NotYetValid),
        WindowState::Valid => accepted(c.is_admin, c.name),
    }
}

/// What a payload with the members `payload` is worth at `now`: malformed
/// where it does not carry the four claims, else what the claims are worth.
pub open spec fn payload_verdict(payload: Map<Seq<char>, Member>, now: int) -> Verdict {
    match members_claims(payload) {
        None => refused(VerifyError::Malformed),
        Some(c) => claims_verdict(c, now),
    }
}

/// What an opened token is worth at `now`.
pub open spec fn verdict(opened: Result<Map<Seq<char>, Member>, Refusal>, now: int) -> Verdict {
    match opened {
        Err(why) => refused(refusal_error(why)),
        Ok(payload) => payload_verdict(payload, now),
    }
}

/// What verifying `token` at `now` gives under `secret`.
pub open spec fn verification(token: Seq<char>, secret: Seq<u8>, now: int) -> Verdict {
    verdict(opened_token(token, secret), now)
}

/// Whether the exec result `result` is the verdict `verdict`.
pub open spec fn is_verdict(result: Result<(bool, String), VerifyError>, verdict: Verdict) -> bool {
    match result {
        Ok((is_admin, name)) => verdict == accepted(is_admin, name@),
        Err(error) => verdict == refused(error),
    }
}

/// The verification error that stands for a refusal by the signing library.
pub fn classify_refusal(why: Refusal) -> (error: VerifyError)
    ensures
        error == refusal_error(why),
{
    match why {
        Refusal::InvalidSignature => VerifyError::BadSignature,
        Refusal::InvalidAlgorithm => VerifyError::BadSignature,
        Refusal::InvalidToken => VerifyError::Malformed,
        Refusal::MissingRequiredClaim => VerifyError::Malformed,
        Refusal::Base64 => VerifyError::Malformed,
        Refusal::Json => VerifyError::Malformed,
        Refusal::Other => VerifyError::Internal,
    }
}

/// Checks the window of decoded claims at `now` and hands back the identity
/// they carry. An instant at or past the expiry is expired, also where it
/// lies before the not-before time.
pub fn check_window(claims: Claims, now: u64) -> (result: Result<(bool, String), VerifyError>)
    ensures
        is_verdict(result, claims_verdict(claims@, now as int)),
{
    match claims.state_at(now) {
        WindowState::Expired => Err(VerifyError::Expired),
        WindowState::NotYetValid => Err(VerifyError::NotYetValid),
        WindowState::Valid => Ok(claims.into_identity()),
    }
}

/// Reads the claims out of the payload of an opened token and checks their
/// window at `now`.
pub fn judge_payload(payload: &JsonObject, now: u64) -> (result: Result<(bool, String), VerifyError>)
    ensures
        is_verdict(result, payload_verdict(members(*payload), now as int)),
{
    match Claims::from_object(payload) {
        None => Err(VerifyError::Malformed),
        Some(claims) => check_window(claims, now),
    }
}

/// Issues a token for `name` at the instant `now`, in seconds since the Unix
/// epoch.
///
/// The token expires `expiration_offset` seconds after `now` and is valid from
/// `not_before_offset` seconds before `now`. It is refused with
/// `WindowOutOfRange` exactly where that window cannot be written down, and
/// with `Signing` exactly where the signing library fails on the payload.
pub fn generate_token(
    name: String,
    is_admin: bool,
    config: &TokenConfig,
    now: u64,
) -> (result: Result<String, IssueError>)
    ensures
        match result {
            Ok(token) => issues(name@, is_admin, config@, now as int, token@),
            Err(IssueError::WindowOutOfRange) => !window_representable(
                now as int,
                config@.expiration_offset as int,
                config@.not_before_offset as int,
            ),
            Err(IssueError::Signing) => window_representable(
                now as int,
                config@.expiration_offset as int,
                config@.not_before_offset as int,
            ) && signed_token(token_payload(name@, is_admin, config@, now as int), config@.secret)
                is None,
        },
{
    let claims = match Claims::issued_at(
        name,
        is_admin,
        now,
        config.expiration_offset(),
        config.not_before_offset(),
    ) {
        Some(claims) => claims,
        None => return Err(IssueError::WindowOutOfRange),
    };
    let payload = claims.to_object();
    proof {
        lemma_claims_open_again(claims@);
    }
    match sign_object(&payload, config.secret()) {
        Ok(token) => Ok(token),
        Err(_) => Err(IssueError::Signing),
    }
}

/// Verifies `token` at the instant `now`, in seconds since the Unix epoch.
///
/// The signature is checked under `secret` and against HMAC-SHA256 alone;
/// then the payload must carry the four claims; then `now` must lie in their
/// window. On success the privilege flag and the subject come back, as the
/// token holds them, and the token is known to be bound to its signature.
pub fn is_valid(token: &str, secret: &[u8], now: u64) -> (result: Result<(bool, String), VerifyError>)
    ensures
        is_verdict(result, verification(token@, secret@, now as int)),
        result is Ok ==> signature_bound(token@, secret@),
{
    match open_token(token, secret) {
        Err(why) => Err(classify_refusal(why)),
        Ok(payload) => judge_payload(&payload, now),
    }
}

/// The payload that carries claims has plain members, among them `exp`, and
/// no `aud`: once signed, it opens again.
pub proof fn lemma_claims_open_again(c: ClaimsView)
    ensures
        plain(claims_members(c)),
        opens_again(claims_members(c)),
{
    lemma_keys_distinct();
    reveal_strlit("name");
    reveal_strlit("is_admin");
    reveal_strlit("exp");
    reveal_strlit("nbf");
    reveal_strlit("aud");
    assert("aud"@.len() == 3);
    assert("aud"@[0] != "exp"@[0]);
    assert("aud"@[0] != "nbf"@[0]);
}

} // verus!
