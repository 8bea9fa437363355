//! The contract's entry points.
//!
//! Each takes the [`Ledger`] that it reads or changes. Deposits,
//! withdrawals and privacy changes are refused while the contract is paused,
//! before anyone is asked to authorize; refunds are not, so that funds can
//! always be recovered.

use crate::commitment::{commitment_for, yields};
use crate::errors::QuickexError;
use crate::escrow::{
    after_deposit,
    after_refund,
    after_release,
    claimable,
    deposit_outcome,
    refund_outcome,
    salted_deposit_outcome,
    settled,
    withdraw_outcome,
};
use crate::events::{publish_contract_upgraded, with_event, EventRecord};
use crate::privacy::{set_privacy_outcome, with_privacy};
use crate::storage::{Ledger, LedgerState};
use crate::types::{AccountId, EscrowDisclosure, EscrowStatus, PrivacyAwareEscrowView};
use vstd::prelude::*;

verus! {

/// `outcome`, unless the contract is paused.
pub open spec fn unless_paused<T>(state: LedgerState, outcome: Result<T, QuickexError>) -> Result<T, QuickexError> {
    if state.paused {
        Err(QuickexError::ContractPaused)
    } else {
        outcome
    }
}

/// Whether `caller` is the administrator.
pub open spec fn is_admin(state: LedgerState, caller: Seq<u8>) -> bool {
    state.admin == Some(caller)
}

/// `Ok` for the administrator, `Unauthorized` for anyone else.
pub open spec fn admin_only(state: LedgerState, caller: Seq<u8>) -> Result<(), QuickexError> {
    if is_admin(state, caller) {
        Ok(())
    } else {
        Err(QuickexError::Unauthorized)
    }
}

/// What `caller` is shown of the escrow under `commitment`: nothing if
/// there is none; all but amount and owner if the owner's privacy flag is
/// set and the caller is someone else; else everything.
pub open spec fn disclosure(state: LedgerState, commitment: Seq<u8>, caller: Seq<u8>) -> Option<
    EscrowDisclosure,
> {
    if !state.escrows.contains_key(commitment) {
        None
    } else {
        let entry = state.escrows[commitment];
        let withheld = state.privacy_enabled(entry.owner) && caller != entry.owner;
        Some(
            EscrowDisclosure {
                token: entry.token,
                amount: if withheld {
                    None
                } else {
                    Some(entry.amount)
                },
                owner: if withheld {
                    None
                } else {
                    Some(entry.owner)
                },
                status: entry.status,
                created_at: entry.created_at,
                expires_at: entry.expires_at,
            },
        )
    }
}

/// The escrow and privacy contract.
pub struct QuickexContract;

impl QuickexContract {
    /// Withdraws the escrow that (to, amount, salt) opens, paying it to `to`.
    ///
    /// `_token` and `_commitment` are not consulted: the token is the stored
    /// one, and the commitment is recomputed. Fails with `ContractPaused`
    /// while paused, else as [`crate::escrow::withdraw`] does.
    pub fn withdraw(
        env: &mut Ledger,
        _token: &AccountId,
        amount: i128,
        _commitment: &[u8; 32],
        to: &AccountId,
        salt: &[u8],
    ) -> (result: Result<bool, QuickexError>)
        ensures
            result == unless_paused(old(env)@, withdraw_outcome(old(env)@, amount, to@, salt@)),
            final(env)@ == settled(
                old(env)@,
                to@,
                result,
                after_release(old(env)@.with_auth(to@), commitment_for(to@, amount, salt@)->Ok_0, to@),
            ),
    {
        if crate::storage::is_paused(env) {
            return Err(QuickexError::ContractPaused);
        }
        crate::escrow::withdraw(env, amount, to, salt)
    }

    /// Sets the numeric privacy level of `account` and puts it in front of
    /// the account's history. Always returns `true`.
    pub fn enable_privacy(env: &mut Ledger, account: &AccountId, privacy_level: u32) -> (done: bool)
        ensures
            done,
            final(env)@ == (LedgerState {
                privacy_levels: old(env)@.privacy_levels.insert(account@, privacy_level),
                privacy_history: old(env)@.privacy_history.insert(
                    account@,
                    seq![privacy_level] + old(env)@.history_of(account@),
                ),
                ..old(env)@
            }),
    {
        crate::storage::set_privacy_level(env, account, privacy_level);
        crate::storage::add_privacy_history(env, account, privacy_level);
        true
    }

    /// The numeric privacy level of `account`, if one was set.
    pub fn privacy_status(env: &Ledger, account: &AccountId) -> (level: Option<u32>)
        ensures
            match level {
                Some(l) => env@.privacy_levels.contains_key(account@) && l == env@.privacy_levels[account@],
                None => !env@.privacy_levels.contains_key(account@),
            },
    {
        crate::storage::get_privacy_level(env, account)
    }

    /// The numeric privacy levels that `account` has had, newest first.
    pub fn privacy_history(env: &Ledger, account: &AccountId) -> (history: Vec<u32>)
        ensures
            history@ == env@.history_of(account@),
    {
        crate::storage::get_privacy_history(env, account)
    }

    /// Sets the privacy flag of `owner` to `enabled`.
    ///
    /// Fails with `ContractPaused` while paused, else with
    /// `PrivacyAlreadySet` if the flag has that value already.
    pub fn set_privacy(env: &mut Ledger, owner: &AccountId, enabled: bool) -> (result: Result<
        (),
        QuickexError,
    >)
        ensures
            result == unless_paused(old(env)@, set_privacy_outcome(old(env)@, owner@, enabled)),
            final(env)@ == settled(
                old(env)@,
                owner@,
                result,
                with_privacy(old(env)@.with_auth(owner@), owner@, enabled),
            ),
    {
        if crate::storage::is_paused(env) {
            return Err(QuickexError::ContractPaused);
        }
        crate::privacy::set_privacy(env, owner, enabled)
    }

    /// The privacy flag of `owner`; off if never set.
    pub fn get_privacy(env: &Ledger, owner: &AccountId) -> (enabled: bool)
        ensures
            enabled == env@.privacy_enabled(owner@),
    {
        crate::privacy::get_privacy(env, owner)
    }

    /// Deposits `amount` of `token` from `owner` under the commitment to
    /// (owner, amount, salt), and returns that commitment.
    ///
    /// Fails with `ContractPaused` while paused, else as
    /// [`crate::escrow::deposit`] does.
    pub fn deposit(
        env: &mut Ledger,
        token: &AccountId,
        amount: i128,
        owner: &AccountId,
        salt: &[u8],
        timeout_secs: u64,
    ) -> (result: Result<[u8; 32], QuickexError>)
        ensures
            yields(
                result,
                unless_paused(old(env)@, salted_deposit_outcome(old(env)@, amount, owner@, salt@)),
            ),
            final(env)@ == settled(
                old(env)@,
                owner@,
                unless_paused(old(env)@, salted_deposit_outcome(old(env)@, amount, owner@, salt@)),
                after_deposit(
                    old(env)@.with_auth(owner@),
                    owner@,
                    token@,
                    amount,
                    salted_deposit_outcome(old(env)@, amount, owner@, salt@)->Ok_0,
                    timeout_secs,
                ),
            ),
    {
        if crate::storage::is_paused(env) {
            return Err(QuickexError::ContractPaused);
        }
        crate::escrow::deposit(env, token, amount, owner, salt, timeout_secs)
    }

    /// Computes the commitment to (owner, amount, salt).
    pub fn create_amount_commitment(owner: &AccountId, amount: i128, salt: &[u8]) -> (result: Result<
        [u8; 32],
        QuickexError,
    >)
        ensures
            yields(result, commitment_for(owner@, amount, salt@)),
    {
        crate::commitment::create_amount_commitment(owner, amount, salt)
    }

    /// Whether (owner, amount, salt) opens `commitment`.
    pub fn verify_amount_commitment(
        commitment: &[u8; 32],
        owner: &AccountId,
        amount: i128,
        salt: &[u8],
    ) -> (opens: bool)
        ensures
            opens == (commitment_for(owner@, amount, salt@) == Ok::<Seq<u8>, QuickexError>(commitment@)),
    {
        crate::commitment::verify_amount_commitment(commitment, owner, amount, salt)
    }

    /// Adds one to the escrow counter and returns the new value. The
    /// parties and the amount are not recorded.
    pub fn create_escrow(env: &mut Ledger, _from: &AccountId, _to: &AccountId, _amount: u64) -> (count: u64)
        requires
            old(env)@.escrow_counter < u64::MAX,
        ensures
            count == old(env)@.escrow_counter + 1,
            final(env)@ == (LedgerState { escrow_counter: count, ..old(env)@ }),
    {
        crate::storage::increment_escrow_counter(env)
    }

    /// Always `true`: the contract is there and can be called.
    pub fn health_check() -> (healthy: bool)
        ensures
            healthy,
    {
        true
    }

    /// Deposits `amount` of `token` from `from` under a commitment that the
    /// caller supplies.
    ///
    /// Fails with `ContractPaused` while paused, else as
    /// [`crate::escrow::deposit_with_commitment`] does.
    pub fn deposit_with_commitment(
        env: &mut Ledger,
        from: &AccountId,
        token: &AccountId,
        amount: i128,
        commitment: &[u8; 32],
        timeout_secs: u64,
    ) -> (result: Result<(), QuickexError>)
        ensures
            result == unless_paused(old(env)@, deposit_outcome(old(env)@, amount, commitment@)),
            final(env)@ == settled(
                old(env)@,
                from@,
                result,
                after_deposit(old(env)@.with_auth(from@), from@, token@, amount, commitment@, timeout_secs),
            ),
    {
        if crate::storage::is_paused(env) {
            return Err(QuickexError::ContractPaused);
        }
        crate::escrow::deposit_with_commitment(env, from, token, amount, commitment, timeout_secs)
    }

    /// Returns the expired escrow under `commitment` to its owner, who must
    /// be `caller`. Works while the contract is paused, too.
    pub fn refund(env: &mut Ledger, commitment: &[u8; 32], caller: &AccountId) -> (result: Result<
        (),
        QuickexError,
    >)
        ensures
            result == refund_outcome(old(env)@, commitment@, caller@),
            final(env)@ == if result is Ok {
                after_refund(old(env)@.with_auth(caller@), commitment@)
            } else {
                old(env)@.with_auth(caller@)
            },
    {
        crate::escrow::refund(env, commitment, caller)
    }

    /// Makes `admin` the administrator, once.
    ///
    /// Fails with `AlreadyInitialized` if there is an administrator.
    pub fn initialize(env: &mut Ledger, admin: &AccountId) -> (result: Result<(), QuickexError>)
        ensures
            result == if old(env)@.admin is Some {
                Err::<(), QuickexError>(QuickexError::AlreadyInitialized)
            } else {
                Ok(())
            },
            final(env)@ == if result is Ok {
                LedgerState { admin: Some(admin@), ..old(env)@ }
            } else {
                old(env)@
            },
    {
        if crate::storage::get_admin(env).is_some() {
            return Err(QuickexError::AlreadyInitialized);
        }
        crate::storage::set_admin(env, admin);
        Ok(())
    }

    /// Pauses or resumes the contract, for the administrator.
    ///
    /// Fails with `Unauthorized` unless `caller` is the administrator.
    pub fn set_paused(env: &mut Ledger, caller: &AccountId, new_state: bool) -> (result: Result<
        (),
        QuickexError,
    >)
        ensures
            result == admin_only(old(env)@, caller@),
            final(env)@ == if result is Ok {
                LedgerState { paused: new_state, ..old(env)@ }
            } else {
                old(env)@
            },
    {
        let admin = match crate::storage::get_admin(env) {
            Some(admin) => admin,
            None => {
                return Err(QuickexError::Unauthorized);
            },
        };
        if *caller != admin {
            return Err(QuickexError::Unauthorized);
        }
        crate::storage::set_paused(env, new_state);
        Ok(())
    }

    /// Hands the administration over to `new_admin`, for the administrator.
    ///
    /// Fails with `Unauthorized` unless `caller` is the administrator.
    pub fn set_admin(env: &mut Ledger, caller: &AccountId, new_admin: &AccountId) -> (result: Result<
        (),
        QuickexError,
    >)
        ensures
            result == admin_only(old(env)@, caller@),
            final(env)@ == if result is Ok {
                LedgerState { admin: Some(new_admin@), ..old(env)@ }
            } else {
                old(env)@
            },
    {
        let admin = match crate::storage::get_admin(env) {
            Some(admin) => admin,
            None => {
                return Err(QuickexError::Unauthorized);
            },
        };
        if *caller != admin {
            return Err(QuickexError::Unauthorized);
        }
        crate::storage::set_admin(env, new_admin);
        Ok(())
    }

    /// Whether the contract is paused.
    pub fn is_paused(env: &Ledger) -> (paused: bool)
        ensures
            paused == env@.paused,
    {
        crate::storage::is_paused(env)
    }

    /// The administrator, if the contract was initialised.
    pub fn get_admin(env: &Ledger) -> (admin: Option<AccountId>)
        ensures
            match admin {
                Some(a) => env@.admin == Some(a@),
                None => env@.admin is None,
            },
    {
        crate::storage::get_admin(env)
    }

    /// The state of the escrow under `commitment`, if there is one.
    pub fn get_commitment_state(env: &Ledger, commitment: &[u8; 32]) -> (status: Option<EscrowStatus>)
        ensures
            status == if env@.escrows.contains_key(commitment@) {
                Some(env@.escrows[commitment@].status)
            } else {
                None
            },
    {
        match crate::storage::get_escrow(env, commitment) {
            Some(entry) => Some(entry.status),
            None => None,
        }
    }

    /// Whether a withdrawal by (owner, amount, salt) would find a pending,
    /// unexpired escrow of that amount. Changes nothing.
    pub fn verify_proof_view(env: &Ledger, amount: i128, salt: &[u8], owner: &AccountId) -> (valid: bool)
        ensures
            valid == match commitment_for(owner@, amount, salt@) {
                Ok(commitment) => claimable(env@, commitment, amount),
                Err(_) => false,
            },
    {
        match crate::commitment::create_amount_commitment(owner, amount, salt) {
            Ok(commitment) => crate::escrow::is_claimable(env, &commitment, amount),
            Err(_) => false,
        }
    }

    /// What `caller` is shown of the escrow under `commitment`.
    ///
    /// While the owner's privacy flag is set, a caller other than the owner
    /// gets neither the amount nor the owner. Nothing checks that the caller
    /// is who they say: this is a courtesy to users, not access control.
    pub fn get_escrow_details(env: &Ledger, commitment: &[u8; 32], caller: &AccountId) -> (view: Option<
        PrivacyAwareEscrowView,
    >)
        ensures
            match view {
                Some(v) => disclosure(env@, commitment@, caller@) == Some(v@),
                None => disclosure(env@, commitment@, caller@) is None,
            },
    {
        let entry = match crate::storage::get_escrow(env, commitment) {
            Some(entry) => entry,
            None => {
                return None;
            },
        };
        let privacy_on = crate::privacy::get_privacy(env, &entry.owner);
        let is_owner = *caller == entry.owner;
        if privacy_on && !is_owner {
            Some(
                PrivacyAwareEscrowView {
                    token: entry.token,
                    amount: None,
                    owner: None,
                    status: entry.status,
                    created_at: entry.created_at,
                    expires_at: entry.expires_at,
                },
            )
        } else {
            Some(
                PrivacyAwareEscrowView {
                    token: entry.token,
                    amount: Some(entry.amount),
                    owner: Some(entry.owner),
                    status: entry.status,
                    created_at: entry.created_at,
                    expires_at: entry.expires_at,
                },
            )
        }
    }

    /// Approves, for the administrator, the replacement of the contract's
    /// code by the code with hash `new_wasm_hash`, and publishes that. The
    /// replacement itself is the host's.
    ///
    /// Fails with `Unauthorized` unless `caller` is the administrator; then
    /// asks `caller` to authorize.
    pub fn upgrade(env: &mut Ledger, caller: &AccountId, new_wasm_hash: &[u8; 32]) -> (result: Result<
        (),
        QuickexError,
    >)
        ensures
            result == admin_only(old(env)@, caller@),
            final(env)@ == if result is Ok {
                with_event(
                    old(env)@.with_auth(caller@),
                    EventRecord::ContractUpgraded {
                        new_wasm_hash: new_wasm_hash@,
                        admin: caller@,
                        timestamp: old(env)@.timestamp,
                    },
                )
            } else {
                old(env)@
            },
    {
        let admin = match crate::storage::get_admin(env) {
            Some(admin) => admin,
            None => {
                return Err(QuickexError::Unauthorized);
            },
        };
        if *caller != admin {
            return Err(QuickexError::Unauthorized);
        }
        crate::storage::require_auth(env, caller);
        let timestamp = env.timestamp();
        publish_contract_upgraded(env, new_wasm_hash, &admin, timestamp);
        Ok(())
    }
}

} // verus!
