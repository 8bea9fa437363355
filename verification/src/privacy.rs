//! The boolean privacy flag of an account.
//!
//! The flag is off until set. Setting it to the value that it already has is
//! an error, not a no-op.

use crate::errors::QuickexError;
use crate::events::{publish_privacy_toggled, with_event, EventRecord};
use crate::storage::{get_privacy_flag, require_auth, set_privacy_flag, Ledger, LedgerState};
use crate::types::AccountId;
use vstd::prelude::*;

verus! {

/// What setting the privacy flag of `owner` to `enabled` returns.
pub open spec fn set_privacy_outcome(state: LedgerState, owner: Seq<u8>, enabled: bool) -> Result<
    (),
    QuickexError,
> {
    if state.privacy_enabled(owner) == enabled {
        Err(QuickexError::PrivacyAlreadySet)
    } else {
        Ok(())
    }
}

/// `state` with the privacy flag of `owner` set to `enabled`, and the event
/// that says so.
pub open spec fn with_privacy(state: LedgerState, owner: Seq<u8>, enabled: bool) -> LedgerState {
    with_event(
        LedgerState { privacy_flags: state.privacy_flags.insert(owner, enabled), ..state },
        EventRecord::PrivacyToggled { owner, enabled, timestamp: state.timestamp },
    )
}

/// Sets the privacy flag of `owner` to `enabled`.
///
/// Asks `owner` to authorize. Then fails with `PrivacyAlreadySet` if the flag
/// has that value already.
pub fn set_privacy(env: &mut Ledger, owner: &AccountId, enabled: bool) -> (result: Result<(), QuickexError>)
    ensures
        result == set_privacy_outcome(old(env)@, owner@, enabled),
        final(env)@ == if result is Ok {
            with_privacy(old(env)@.with_auth(owner@), owner@, enabled)
        } else {
            old(env)@.with_auth(owner@)
        },
{
    require_auth(env, owner);
    let current = get_privacy_flag(env, owner);
    if current == enabled {
        return Err(QuickexError::PrivacyAlreadySet);
    }
    set_privacy_flag(env, owner, enabled);
    let timestamp = env.timestamp();
    publish_privacy_toggled(env, owner, enabled, timestamp);
    Ok(())
}

/// The privacy flag of `owner`; off if never set.
pub fn get_privacy(env: &Ledger, owner: &AccountId) -> (enabled: bool)
    ensures
        enabled == env@.privacy_enabled(owner@),
{
    get_privacy_flag(env, owner)
}

} // verus!
