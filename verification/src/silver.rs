//! The stand-alone privacy contract.
//!
//! It keeps the boolean privacy flag and the numeric privacy level with its
//! history, and numbers escrows by the ledger time. Setting the flag asks its
//! owner to authorize, and is refused if the flag has that value already;
//! nothing else asks anyone. The contract has no pause gate and publishes no
//! events.

use crate::errors::QuickexError;
use crate::privacy::set_privacy_outcome;
use crate::storage::{Ledger, LedgerState};
use crate::types::AccountId;
use vstd::prelude::*;

verus! {

/// `state` after `owner` was asked to authorize and the privacy flag of
/// `owner` was set to `enabled`.
pub open spec fn with_flag(state: LedgerState, owner: Seq<u8>, enabled: bool) -> LedgerState {
    LedgerState {
        privacy_flags: state.privacy_flags.insert(owner, enabled),
        ..state.with_auth(owner)
    }
}

/// Once the flag of an account was set to a value, setting it to that value
/// again is refused with `PrivacyAlreadySet`, and setting it to the other
/// value is accepted. The flags of other accounts are as they were.
pub proof fn lemma_flag_set_twice_is_refused(state: LedgerState, owner: Seq<u8>, enabled: bool, other: Seq<u8>)
    requires
        other != owner,
    ensures
        with_flag(state, owner, enabled).privacy_enabled(owner) == enabled,
        set_privacy_outcome(with_flag(state, owner, enabled), owner, enabled) == Err::<(), QuickexError>(
            QuickexError::PrivacyAlreadySet,
        ),
        set_privacy_outcome(with_flag(state, owner, enabled), owner, !enabled) == Ok::<(), QuickexError>(()),
        with_flag(state, owner, enabled).privacy_enabled(other) == state.privacy_enabled(other),
{
}

/// The notification that an account's privacy flag was set.
#[derive(Debug, PartialEq, Eq)]
pub struct PrivacyToggled {
    /// The account whose flag was set.
    pub owner: AccountId,
    /// The value of the flag.
    pub enabled: bool,
    /// The ledger time at which it was set.
    pub timestamp: u64,
}

/// Builds the notifications of the privacy contract.
pub struct EventPublisher;

impl EventPublisher {
    /// The notification that the privacy flag of `owner` was set to
    /// `enabled` at the ledger's time.
    pub fn privacy_toggled(env: &Ledger, owner: &AccountId, enabled: bool) -> (event: PrivacyToggled)
        ensures
            event.owner@ == owner@,
            event.enabled == enabled,
            event.timestamp == env@.timestamp,
    {
        PrivacyToggled { owner: owner.clone(), enabled, timestamp: env.timestamp() }
    }
}

/// Reads and writes the privacy flag.
pub struct PrivacyStorage;

impl PrivacyStorage {
    /// The privacy flag of `owner`; off if never set.
    pub fn get_privacy_state(env: &Ledger, owner: &AccountId) -> (enabled: bool)
        ensures
            enabled == env@.privacy_enabled(owner@),
    {
        crate::storage::get_privacy_flag(env, owner)
    }

    /// Sets the privacy flag of `owner` to `enabled`.
    pub fn set_privacy_state(env: &mut Ledger, owner: &AccountId, enabled: bool)
        ensures
            final(env)@ == (LedgerState {
                privacy_flags: old(env)@.privacy_flags.insert(owner@, enabled),
                ..old(env)@
            }),
    {
        crate::storage::set_privacy_flag(env, owner, enabled);
    }
}

/// The privacy flag as the contract offers it.
pub struct PrivacyContract;

impl PrivacyContract {
    /// Sets the privacy flag of `owner` to `enabled`.
    ///
    /// Asks `owner` to authorize. Then fails with `PrivacyAlreadySet` if the
    /// flag has that value already, and leaves it as it is.
    pub fn set_privacy(env: &mut Ledger, owner: &AccountId, enabled: bool) -> (result: Result<
        (),
        QuickexError,
    >)
        ensures
            result == set_privacy_outcome(old(env)@, owner@, enabled),
            final(env)@ == if result is Ok {
                with_flag(old(env)@, owner@, enabled)
            } else {
                old(env)@.with_auth(owner@)
            },
    {
        crate::storage::require_auth(env, owner);
        if PrivacyStorage::get_privacy_state(env, owner) == enabled {
            return Err(QuickexError::PrivacyAlreadySet);
        }
        PrivacyStorage::set_privacy_state(env, owner, enabled);
        let _event = EventPublisher::privacy_toggled(env, owner, enabled);
        Ok(())
    }

    /// The privacy flag of `owner`; off if never set.
    pub fn get_privacy(env: &Ledger, owner: &AccountId) -> (enabled: bool)
        ensures
            enabled == env@.privacy_enabled(owner@),
    {
        PrivacyStorage::get_privacy_state(env, owner)
    }
}

/// The stand-alone privacy contract.
pub struct QuickSilverContract;

impl QuickSilverContract {
    /// Sets the privacy flag of `owner` to `enabled`.
    ///
    /// Asks `owner` to authorize. Then fails with `PrivacyAlreadySet` if the
    /// flag has that value already, and leaves it as it is.
    pub fn set_privacy(env: &mut Ledger, owner: &AccountId, enabled: bool) -> (result: Result<
        (),
        QuickexError,
    >)
        ensures
            result == set_privacy_outcome(old(env)@, owner@, enabled),
            final(env)@ == if result is Ok {
                with_flag(old(env)@, owner@, enabled)
            } else {
                old(env)@.with_auth(owner@)
            },
    {
        PrivacyContract::set_privacy(env, owner, enabled)
    }

    /// The privacy flag of `owner`; off if never set.
    pub fn get_privacy(env: &Ledger, owner: &AccountId) -> (enabled: bool)
        ensures
            enabled == env@.privacy_enabled(owner@),
    {
        PrivacyContract::get_privacy(env, owner)
    }

    /// Sets the numeric privacy level of `account` and puts it in front of
    /// the account's history. Always returns `true`.
    pub fn enable_privacy(env: &mut Ledger, account: &AccountId, privacy_level: u32) -> (done: bool)
        ensures
            done,
            final(env)@ == (LedgerState {
                privacy_levels: old(env)@.privacy_levels.insert(account@, privacy_level),
                privacy_history: old(env)@.privacy_history.insert(
                    account@,
                    seq![privacy_level] + old(env)@.history_of(account@),
                ),
                ..old(env)@
            }),
    {
        crate::storage::set_privacy_level(env, account, privacy_level);
        crate::storage::add_privacy_history(env, account, privacy_level);
        true
    }

    /// The numeric privacy level of `account`, if one was set.
    pub fn privacy_status(env: &Ledger, account: &AccountId) -> (level: Option<u32>)
        ensures
            match level {
                Some(l) => env@.privacy_levels.contains_key(account@) && l == env@.privacy_levels[account@],
                None => !env@.privacy_levels.contains_key(account@),
            },
    {
        crate::storage::get_privacy_level(env, account)
    }

    /// The numeric privacy levels that `account` has had, newest first.
    pub fn privacy_history(env: &Ledger, account: &AccountId) -> (history: Vec<u32>)
        ensures
            history@ == env@.history_of(account@),
    {
        crate::storage::get_privacy_history(env, account)
    }

    /// Numbers a new escrow by the ledger time, stores its sender and its
    /// recipient under that number, and returns the number. The amount is
    /// not recorded. Two escrows created at the same time share a number,
    /// and the later one replaces the earlier.
    pub fn create_escrow(env: &mut Ledger, from: &AccountId, to: &AccountId, _amount: u64) -> (escrow_id: u64)
        ensures
            escrow_id == old(env)@.timestamp,
            final(env)@ == (LedgerState {
                escrow_parties: old(env)@.escrow_parties.insert(escrow_id, (from@, to@)),
                ..old(env)@
            }),
    {
        let escrow_id = env.timestamp();
        crate::storage::set_escrow_parties(env, escrow_id, from, to);
        escrow_id
    }

    /// Always `true`: the contract is there and can be called.
    pub fn health_check() -> (healthy: bool)
        ensures
            healthy,
    {
        true
    }
}

} // verus!
