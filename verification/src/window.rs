//! The validity window of a token and where an instant lies relative to it.

use vstd::prelude::*;

verus! {

/// The three temporal states of a token.
#[derive(Clone, Copy, Debug, PartialEq, Eq, Structural)]
pub enum WindowState {
    /// The instant lies before the not-before time.
    NotYetValid,
    /// The instant lies at or after the not-before time and before the expiry.
    Valid,
    /// The instant lies at or after the expiry.
    Expired,
}

/// The state of a window `[not_before, expires_at)` at the instant `now`.
///
/// Expiry is looked at first: at or past `expires_at` the window is expired,
/// whatever `not_before` says. The expiry instant itself is already expired.
pub open spec fn window_state(not_before: int, expires_at: int, now: int) -> WindowState {
    if now >= expires_at {
        WindowState::Expired
    } else if now < not_before {
        WindowState::NotYetValid
    } else {
        WindowState::Valid
    }
}

/// Classifies the instant `now` against the window `[not_before, expires_at)`.
pub fn classify(not_before: u64, expires_at: u64, now: u64) -> (state: WindowState)
    ensures
        state == window_state(not_before as int, expires_at as int, now as int),
{
    if now >= expires_at {
        WindowState::Expired
    } else if now < not_before {
        WindowState::NotYetValid
    } else {
        WindowState::Valid
    }
}

/// Time moves a window forward only: once expired it stays expired, and once
/// open it is never again not yet valid.
pub proof fn lemma_window_moves_forward(not_before: int, expires_at: int, now: int, later: int)
    requires
        now <= later,
    ensures
        window_state(not_before, expires_at, now) == WindowState::Expired ==> window_state(
            not_before,
            expires_at,
            later,
        ) == WindowState::Expired,
        window_state(not_before, expires_at, now) == WindowState::Valid ==> window_state(
            not_before,
            expires_at,
            later,
        ) != WindowState::NotYetValid,
{
}

} // verus!
