//! What issuer and verifier are configured with.

use vstd::prelude::*;

verus! {

/// The configuration of issuer and verifier: read once at startup, then
/// handed to every call. It holds the signing key, so it has no `Debug`.
#[derive(Clone)]
pub struct TokenConfig {
    secret: Vec<u8>,
    expiration_offset: u64,
    not_before_offset: u64,
}

/// The mathematical content of [`TokenConfig`].
pub struct TokenConfigView {
    /// The bytes of the signing key.
    pub secret: Seq<u8>,
    /// How many seconds after issuance a token expires.
    pub expiration_offset: nat,
    /// How many seconds before issuance a token is already valid.
    pub not_before_offset: nat,
}

impl View for TokenConfig {
    type V = TokenConfigView;

    closed spec fn view(&self) -> TokenConfigView {
        TokenConfigView {
            secret: self.secret@,
            expiration_offset: self.expiration_offset as nat,
            not_before_offset: self.not_before_offset as nat,
        }
    }
}

impl TokenConfig {
    /// A configuration with the given key and offsets, both in seconds.
    pub fn new(
        secret: Vec<u8>,
        expiration_offset: u64,
        not_before_offset: u64,
    ) -> (config: TokenConfig)
        ensures
            config@ == (TokenConfigView {
                secret: secret@,
                expiration_offset: expiration_offset as nat,
                not_before_offset: not_before_offset as nat,
            }),
    {
        TokenConfig { secret, expiration_offset, not_before_offset }
    }

    /// The bytes of the signing key.
    pub fn secret(&self) -> (secret: &[u8])
        ensures
            secret@ == self@.secret,
    {
        self.secret.as_slice()
    }

    /// How many seconds after issuance a token expires.
    pub fn expiration_offset(&self) -> (offset: u64)
        ensures
            offset == self@.expiration_offset,
    {
        self.expiration_offset
    }

    /// How many seconds before issuance a token is already valid.
    pub fn not_before_offset(&self) -> (offset: u64)
        ensures
            offset == self@.not_before_offset,
    {
        self.not_before_offset
    }
}

} // verus!
