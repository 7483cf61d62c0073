//! The claims a token carries, and the window a fresh token is given.

use vstd::prelude::*;
use crate::window::{classify, window_state, WindowState};

verus! {

/// The payload of a token: who it speaks for, whether that subject is
/// privileged, and the window in which the token may be used.
#[derive(Clone, Debug)]
pub struct Claims {
    name: String,
    is_admin: bool,
    exp: u64,
    nbf: u64,
}

/// The mathematical content of [`Claims`].
pub struct ClaimsView {
    /// The subject.
    pub name: Seq<char>,
    /// The privilege flag.
    pub is_admin: bool,
    /// The expiry, in seconds since the Unix epoch.
    pub exp: nat,
    /// The not-before time, in seconds since the Unix epoch.
    pub nbf: nat,
}

impl View for Claims {
    type V = ClaimsView;

    closed spec fn view(&self) -> ClaimsView {
        ClaimsView {
            name: self.name@,
            is_admin: self.is_admin,
            exp: self.exp as nat,
            nbf: self.nbf as nat,
        }
    }
}

/// Whether a window opened at `now` with the two offsets can be written down:
/// the expiry must fit in 64 bits and the not-before time must not fall before
/// the epoch.
pub open spec fn window_representable(
    now: int,
    expiration_offset: int,
    not_before_offset: int,
) -> bool {
    now + expiration_offset <= u64::MAX && not_before_offset <= now
}

/// The claims of a token issued at `now`: it expires `expiration_offset`
/// seconds later, and is already valid `not_before_offset` seconds earlier.
/// The not-before offset reaches back in time; it does not delay the token.
pub open spec fn issued_claims(
    name: Seq<char>,
    is_admin: bool,
    now: int,
    expiration_offset: int,
    not_before_offset: int,
) -> ClaimsView {
    ClaimsView {
        name,
        is_admin,
        exp: (now + expiration_offset) as nat,
        nbf: (now - not_before_offset) as nat,
    }
}

impl Claims {
    /// Claims with the given content.
    pub fn new(name: String, is_admin: bool, exp: u64, nbf: u64) -> (claims: Claims)
        ensures
            claims@ == (ClaimsView { name: name@, is_admin, exp: exp as nat, nbf: nbf as nat }),
    {
        Claims { name, is_admin, exp, nbf }
    }

    /// The claims of a token issued at `now`, or `None` where the window
    /// cannot be written down.
    pub fn issued_at(
        name: String,
        is_admin: bool,
        now: u64,
        expiration_offset: u64,
        not_before_offset: u64,
    ) -> (claims: Option<Claims>)
        ensures
            claims is Some <==> window_representable(
                now as int,
                expiration_offset as int,
                not_before_offset as int,
            ),
            claims matches Some(c) ==> c@ == issued_claims(
                name@,
                is_admin,
                now as int,
                expiration_offset as int,
                not_before_offset as int,
            ),
    {
        match (now.checked_add(expiration_offset), now.checked_sub(not_before_offset)) {
            (Some(exp), Some(nbf)) => Some(Claims { name, is_admin, exp, nbf }),
            _ => None,
        }
    }

    /// The subject.
    pub fn name(&self) -> (name: &str)
        ensures
            name@ == self@.name,
    {
        self.name.as_str()
    }

    /// The privilege flag.
    pub fn is_admin(&self) -> (is_admin: bool)
        ensures
            is_admin == self@.is_admin,
    {
        self.is_admin
    }

    /// The expiry, in seconds since the Unix epoch.
    pub fn exp(&self) -> (exp: u64)
        ensures
            exp == self@.exp,
    {
        self.exp
    }

    /// The not-before time, in seconds since the Unix epoch.
    pub fn nbf(&self) -> (nbf: u64)
        ensures
            nbf == self@.nbf,
    {
        self.nbf
    }

    /// The identity these claims speak for: the privilege flag and the subject.
    pub fn into_identity(self) -> (identity: (bool, String))
        ensures
            identity.0 == self@.is_admin,
            identity.1@ == self@.name,
    {
        (self.is_admin, self.name)
    }

    /// Where `now` lies relative to the window of these claims.
    pub fn state_at(&self, now: u64) -> (state: WindowState)
        ensures
            state == window_state(self@.nbf as int, self@.exp as int, now as int),
    {
        classify(self.nbf, self.exp, now)
    }
}

} // verus!
