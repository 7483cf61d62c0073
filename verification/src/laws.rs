//! What holds between issuing and verifying.
//!
//! The laws are stated over what the two operations promise:
//! [`issues`] is what [`generate_token`](crate::jwt::generate_token) says of a
//! token it returned, [`verification`] is what
//! [`is_valid`](crate::jwt::is_valid) gives for a token, and
//! [`signature_bound`] is what it says of a token it accepted.

use vstd::prelude::*;
use crate::claims::{issued_claims, ClaimsView};
use crate::codec::{lemma_codec_round_trip, members_claims};
use crate::config::TokenConfigView;
use crate::error::{verify_error_class, ErrorClass, VerifyError};
use crate::jwt::{accepted, issues, payload_verdict, refused, verification};
use crate::object::Member;
use crate::signing::{dotless, joined, opened_token, signature_bound};
use crate::window::{window_state, WindowState};

verus! {

/// Round trip: a token verifies at every instant of its window, under the
/// secret it was issued with, and hands back the privilege flag and the
/// subject it was issued for.
pub proof fn lemma_round_trip(
    name: Seq<char>,
    is_admin: bool,
    config: TokenConfigView,
    issued_at: int,
    token: Seq<char>,
    verified_at: int,
)
    requires
        issues(name, is_admin, config, issued_at, token),
        issued_at - config.not_before_offset <= verified_at < issued_at + config.expiration_offset,
    ensures
        verification(token, config.secret, verified_at) == accepted(is_admin, name),
{
    lemma_codec_round_trip(
        issued_claims(
            name,
            is_admin,
            issued_at,
            config.expiration_offset as int,
            config.not_before_offset as int,
        ),
    );
}

/// Expiry of an issued token: from the instant of its expiry on, a token is
/// refused as expired, which is the unauthorized class. With an expiration
/// offset of zero that is from the instant of issuance on.
pub proof fn lemma_expiry_enforced(
    name: Seq<char>,
    is_admin: bool,
    config: TokenConfigView,
    issued_at: int,
    token: Seq<char>,
    verified_at: int,
)
    requires
        issues(name, is_admin, config, issued_at, token),
        verified_at >= issued_at + config.expiration_offset,
    ensures
        verification(token, config.secret, verified_at) == refused(VerifyError::Expired),
        verify_error_class(VerifyError::Expired) == ErrorClass::Unauthorized,
{
    lemma_codec_round_trip(
        issued_claims(
            name,
            is_admin,
            issued_at,
            config.expiration_offset as int,
            config.not_before_offset as int,
        ),
    );
}

/// Expiry of any token: a payload that carries claims is refused as expired
/// at every instant at or past their expiry, whoever signed it.
pub proof fn lemma_expired_claims_refused(
    payload: Map<Seq<char>, Member>,
    claims: ClaimsView,
    now: int,
)
    requires
        members_claims(payload) == Some(claims),
        now >= claims.exp,
    ensures
        payload_verdict(payload, now) == refused(VerifyError::Expired),
{
}

/// `position` lies in the signature segment of `token`: behind its last dot.
pub open spec fn in_signature(token: Seq<char>, position: int) -> bool {
    exists|dot: int|
        0 <= dot < position < token.len() && #[trigger] token[dot] == '.' && dotless(
            token.subrange(dot + 1, token.len() as int),
        )
}

/// Signature tampering: a token that [`is_valid`](crate::jwt::is_valid)
/// accepts is bound to its signature, and altering any one character of its
/// signature segment gives a token that is refused at every instant.
pub proof fn lemma_altered_signature_refused(
    token: Seq<char>,
    secret: Seq<u8>,
    position: int,
    replacement: char,
    now: int,
)
    requires
        signature_bound(token, secret),
        in_signature(token, position),
        replacement != token[position],
    ensures
        verification(token.update(position, replacement), secret, now) is Err,
{
    let dot = choose|dot: int|
        0 <= dot < position < token.len() && #[trigger] token[dot] == '.' && dotless(
            token.subrange(dot + 1, token.len() as int),
        );
    let message = token.subrange(0, dot);
    let signature = token.subrange(dot + 1, token.len() as int);
    let forged = signature.update(position - dot - 1, replacement);
    assert(token =~= joined(message, signature));
    assert(token.update(position, replacement) =~= joined(message, forged));
    assert(forged[position - dot - 1] != signature[position - dot - 1]);
    assert(opened_token(joined(message, forged), secret) is Err);
}

/// Both axes are checked: a token is accepted only where it opens under the
/// secret, its payload carries claims, and the instant lies in their window;
/// what comes back is what those claims hold.
pub proof fn lemma_acceptance_checks_both_axes(token: Seq<char>, secret: Seq<u8>, now: int)
    requires
        verification(token, secret, now) is Ok,
    ensures
        opened_token(token, secret) matches Ok(payload) && members_claims(payload) matches Some(
            c,
        ) && window_state(c.nbf as int, c.exp as int, now) == WindowState::Valid
            && verification(token, secret, now) == accepted(c.is_admin, c.name),
{
}

/// The not-before offset is a grace window into the past: a token that does
/// not expire at once is valid at the instant of issuance and through the
/// `not_before_offset` seconds before it, and not yet valid earlier than that.
pub proof fn lemma_not_before_reaches_back(
    name: Seq<char>,
    is_admin: bool,
    config: TokenConfigView,
    issued_at: int,
    token: Seq<char>,
    verified_at: int,
)
    requires
        issues(name, is_admin, config, issued_at, token),
        config.not_before_offset > 0,
        config.expiration_offset > 0,
    ensures
        verification(token, config.secret, issued_at) == accepted(is_admin, name),
        issued_at - config.not_before_offset <= verified_at <= issued_at ==> verification(
            token,
            config.secret,
            verified_at,
        ) == accepted(is_admin, name),
        verified_at < issued_at - config.not_before_offset ==> verification(
            token,
            config.secret,
            verified_at,
        ) == refused(VerifyError::NotYetValid),
{
    lemma_codec_round_trip(
        issued_claims(
            name,
            is_admin,
            issued_at,
            config.expiration_offset as int,
            config.not_before_offset as int,
        ),
    );
}

} // verus!
