//! The escrow state machine: deposit, withdraw and refund.
//!
//! ```text
//!          deposit                 withdraw  [not expired]
//! [start] --------> Pending ----------------------------> Spent
//!                      |
//!                      | refund  [expired, caller is the owner]
//!                      v
//!                   Refunded
//! ```
//!
//! Expiry is a condition on the ledger time, not a stored state: an entry
//! past its expiry stays `Pending` until a refund moves it. An entry with
//! `expires_at == 0` never expires, so it can only be withdrawn.
//!
//! Each operation acts for one account and asks it to authorize the call,
//! once the amount has been found acceptable. An operation that fails
//! changes nothing else. One that succeeds changes one entry, orders one
//! token transfer and publishes one event.

use crate::commitment::{commitment_for, create_amount_commitment, yields};
use crate::errors::QuickexError;
use crate::events::{publish_deposit, publish_refunded, publish_withdraw_toggled, with_event, EventRecord};
use crate::storage::{
    get_escrow,
    has_escrow,
    put_escrow,
    record_transfer,
    require_auth,
    Ledger,
    LedgerState,
};
use crate::types::{
    AccountId,
    EscrowEntry,
    EscrowRecord,
    EscrowStatus,
    Party,
    PartyRecord,
    Transfer,
    TransferRecord,
};
use vstd::prelude::*;

verus! {

/// The expiry time of an escrow created at `now` with `timeout_secs`:
/// `now + timeout_secs`, capped at the largest time, or 0 for no timeout.
pub open spec fn expiry_time(now: u64, timeout_secs: u64) -> u64 {
    if timeout_secs == 0 {
        0
    } else if now + timeout_secs > u64::MAX {
        u64::MAX
    } else {
        (now + timeout_secs) as u64
    }
}

/// Whether `entry` has expired at time `now`.
pub open spec fn expired_at(now: u64, entry: EscrowRecord) -> bool {
    entry.expires_at > 0 && now >= entry.expires_at
}

/// The entry that a deposit creates.
pub open spec fn fresh_entry(state: LedgerState, token: Seq<u8>, amount: i128, owner: Seq<u8>, timeout_secs: u64)
    -> EscrowRecord {
    EscrowRecord {
        token,
        amount,
        owner,
        status: EscrowStatus::Pending,
        created_at: state.timestamp,
        expires_at: expiry_time(state.timestamp, timeout_secs),
    }
}

/// `state` with the entry under `commitment` moved to `status`.
pub open spec fn with_status(state: LedgerState, commitment: Seq<u8>, status: EscrowStatus) -> LedgerState {
    LedgerState {
        escrows: state.escrows.insert(
            commitment,
            EscrowRecord { status, ..state.escrows[commitment] },
        ),
        ..state
    }
}

/// `state` with one more transfer ordered.
pub open spec fn with_transfer(state: LedgerState, order: TransferRecord) -> LedgerState {
    LedgerState { transfers: state.transfers.push(order), ..state }
}

/// The state that an operation for `account` leaves behind: `success` if it
/// succeeded, the state it found if it failed before asking the account to
/// authorize the call, and else the state it found with the account asked.
pub open spec fn settled<T>(
    state: LedgerState,
    account: Seq<u8>,
    outcome: Result<T, QuickexError>,
    success: LedgerState,
) -> LedgerState {
    match outcome {
        Ok(_) => success,
        Err(error) => if error.spec_precedes_authorization() {
            state
        } else {
            state.with_auth(account)
        },
    }
}

/// What a deposit under a given commitment returns.
pub open spec fn deposit_outcome(state: LedgerState, amount: i128, commitment: Seq<u8>) -> Result<
    (),
    QuickexError,
> {
    if amount <= 0 {
        Err(QuickexError::InvalidAmount)
    } else if state.escrows.contains_key(commitment) {
        Err(QuickexError::CommitmentAlreadyExists)
    } else {
        Ok(())
    }
}

/// The state that a successful deposit leaves: a new pending entry under
/// `commitment`, the order to move `amount` from the depositor into
/// custody, and the event that says so.
pub open spec fn after_deposit(
    state: LedgerState,
    from: Seq<u8>,
    token: Seq<u8>,
    amount: i128,
    commitment: Seq<u8>,
    timeout_secs: u64,
) -> LedgerState {
    with_event(
        with_transfer(
            LedgerState {
                escrows: state.escrows.insert(
                    commitment,
                    fresh_entry(state, token, amount, from, timeout_secs),
                ),
                ..state
            },
            TransferRecord {
                token,
                from: PartyRecord::Account(from),
                to: PartyRecord::Custody,
                amount,
            },
        ),
        EventRecord::Deposit { commitment, token, amount },
    )
}

/// What a withdrawal of `amount` from the escrow under `commitment` returns.
pub open spec fn release_outcome(state: LedgerState, commitment: Seq<u8>, amount: i128) -> Result<
    bool,
    QuickexError,
> {
    if amount <= 0 {
        Err(QuickexError::InvalidAmount)
    } else if !state.escrows.contains_key(commitment) {
        Err(QuickexError::CommitmentNotFound)
    } else if state.escrows[commitment].status != EscrowStatus::Pending {
        Err(QuickexError::AlreadySpent)
    } else if expired_at(state.timestamp, state.escrows[commitment]) {
        Err(QuickexError::EscrowExpired)
    } else if state.escrows[commitment].amount != amount {
        Err(QuickexError::InvalidCommitment)
    } else {
        Ok(true)
    }
}

/// The state that a successful withdrawal leaves: the entry is spent, its
/// amount is ordered out of custody to `to`, and an event says so.
pub open spec fn after_release(state: LedgerState, commitment: Seq<u8>, to: Seq<u8>) -> LedgerState {
    with_event(
        with_transfer(
            with_status(state, commitment, EscrowStatus::Spent),
            TransferRecord {
                token: state.escrows[commitment].token,
                from: PartyRecord::Custody,
                to: PartyRecord::Account(to),
                amount: state.escrows[commitment].amount,
            },
        ),
        EventRecord::WithdrawToggled { to, commitment, timestamp: state.timestamp },
    )
}

/// What a refund of the escrow under `commitment` to `caller` returns.
pub open spec fn refund_outcome(state: LedgerState, commitment: Seq<u8>, caller: Seq<u8>) -> Result<
    (),
    QuickexError,
> {
    if !state.escrows.contains_key(commitment) {
        Err(QuickexError::CommitmentNotFound)
    } else if state.escrows[commitment].status != EscrowStatus::Pending {
        Err(QuickexError::AlreadySpent)
    } else if !expired_at(state.timestamp, state.escrows[commitment]) {
        Err(QuickexError::EscrowNotExpired)
    } else if caller != state.escrows[commitment].owner {
        Err(QuickexError::InvalidOwner)
    } else {
        Ok(())
    }
}

/// The state that a successful refund leaves: the entry is refunded, its
/// amount is ordered out of custody to its owner, and an event says so.
pub open spec fn after_refund(state: LedgerState, commitment: Seq<u8>) -> LedgerState {
    with_event(
        with_transfer(
            with_status(state, commitment, EscrowStatus::Refunded),
            TransferRecord {
                token: state.escrows[commitment].token,
                from: PartyRecord::Custody,
                to: PartyRecord::Account(state.escrows[commitment].owner),
                amount: state.escrows[commitment].amount,
            },
        ),
        EventRecord::Refunded {
            owner: state.escrows[commitment].owner,
            commitment,
            amount: state.escrows[commitment].amount,
            timestamp: state.timestamp,
        },
    )
}

/// What a deposit by (owner, amount, salt) returns: the commitment under
/// which the escrow is stored, or why there is none.
pub open spec fn salted_deposit_outcome(state: LedgerState, amount: i128, owner: Seq<u8>, salt: Seq<u8>) -> Result<
    Seq<u8>,
    QuickexError,
> {
    if amount <= 0 {
        Err(QuickexError::InvalidAmount)
    } else {
        match commitment_for(owner, amount, salt) {
            Err(error) => Err(error),
            Ok(commitment) => match deposit_outcome(state, amount, commitment) {
                Err(error) => Err(error),
                Ok(_) => Ok(commitment),
            },
        }
    }
}

/// What a withdrawal by (to, amount, salt) returns.
pub open spec fn withdraw_outcome(state: LedgerState, amount: i128, to: Seq<u8>, salt: Seq<u8>) -> Result<
    bool,
    QuickexError,
> {
    if amount <= 0 {
        Err(QuickexError::InvalidAmount)
    } else {
        match commitment_for(to, amount, salt) {
            Err(error) => Err(error),
            Ok(commitment) => release_outcome(state, commitment, amount),
        }
    }
}

/// Whether a claim of `amount` on the escrow under `commitment` would be
/// honoured now: the entry is there, pending, not expired, and of that
/// amount.
pub open spec fn claimable(state: LedgerState, commitment: Seq<u8>, amount: i128) -> bool {
    &&& state.escrows.contains_key(commitment)
    &&& state.escrows[commitment].status == EscrowStatus::Pending
    &&& !expired_at(state.timestamp, state.escrows[commitment])
    &&& state.escrows[commitment].amount == amount
}

/// The expiry time of an escrow created at `now` with `timeout_secs`.
pub fn expires_at(now: u64, timeout_secs: u64) -> (time: u64)
    ensures
        time == expiry_time(now, timeout_secs),
{
    if timeout_secs > 0 {
        now.saturating_add(timeout_secs)
    } else {
        0
    }
}

/// Whether `entry` has expired at the ledger's time. An entry with
/// `expires_at == 0` never expires.
pub fn is_expired(env: &Ledger, entry: &EscrowEntry) -> (expired: bool)
    ensures
        expired == expired_at(env@.timestamp, entry@),
{
    entry.expires_at > 0 && env.timestamp() >= entry.expires_at
}

/// Whether a claim of `amount` on the escrow under `commitment` would be
/// honoured now.
pub fn is_claimable(env: &Ledger, commitment: &[u8; 32], amount: i128) -> (valid: bool)
    ensures
        valid == claimable(env@, commitment@, amount),
{
    match get_escrow(env, commitment) {
        Some(entry) => {
            if entry.status != EscrowStatus::Pending {
                return false;
            }
            if is_expired(env, &entry) {
                return false;
            }
            entry.amount == amount
        },
        None => false,
    }
}

/// Stores the escrow of a deposit of `amount` of `token` from `from` under
/// `commitment`, and orders the transfer into custody. This is the part of
/// a deposit that follows authorization.
///
/// Fails with `InvalidAmount` unless the amount is positive, else with
/// `CommitmentAlreadyExists` if an escrow is stored under the commitment.
pub fn record_deposit(
    env: &mut Ledger,
    from: &AccountId,
    token: &AccountId,
    amount: i128,
    commitment: &[u8; 32],
    timeout_secs: u64,
) -> (result: Result<(), QuickexError>)
    ensures
        result == deposit_outcome(old(env)@, amount, commitment@),
        final(env)@ == if result is Ok {
            after_deposit(old(env)@, from@, token@, amount, commitment@, timeout_secs)
        } else {
            old(env)@
        },
{
    if amount <= 0 {
        return Err(QuickexError::InvalidAmount);
    }
    if has_escrow(env, commitment) {
        return Err(QuickexError::CommitmentAlreadyExists);
    }
    let now = env.timestamp();
    let entry = EscrowEntry {
        token: token.clone(),
        amount,
        owner: from.clone(),
        status: EscrowStatus::Pending,
        created_at: now,
        expires_at: expires_at(now, timeout_secs),
    };
    put_escrow(env, commitment, &entry);
    record_transfer(
        env,
        Transfer { token: token.clone(), from: Party::Account(from.clone()), to: Party::Custody, amount },
    );
    publish_deposit(env, commitment, token, amount);
    Ok(())
}

/// Deposits `amount` of `token` from `from` under a commitment that the
/// caller supplies.
///
/// Fails with `InvalidAmount` unless the amount is positive. Then asks
/// `from` to authorize, and fails with `CommitmentAlreadyExists` if an
/// escrow is stored under the commitment. A timeout of 0 makes an escrow
/// that never expires.
pub fn deposit_with_commitment(
    env: &mut Ledger,
    from: &AccountId,
    token: &AccountId,
    amount: i128,
    commitment: &[u8; 32],
    timeout_secs: u64,
) -> (result: Result<(), QuickexError>)
    ensures
        result == deposit_outcome(old(env)@, amount, commitment@),
        final(env)@ == settled(
            old(env)@,
            from@,
            result,
            after_deposit(old(env)@.with_auth(from@), from@, token@, amount, commitment@, timeout_secs),
        ),
{
    if amount <= 0 {
        return Err(QuickexError::InvalidAmount);
    }
    require_auth(env, from);
    record_deposit(env, from, token, amount, commitment, timeout_secs)
}

/// Deposits `amount` of `token` from `owner` under the commitment to
/// (owner, amount, salt), and returns that commitment.
///
/// Fails with `InvalidAmount` unless the amount is positive. Then asks
/// `owner` to authorize, and fails with `InvalidSalt` for a salt of more
/// than 1024 bytes, and with `CommitmentAlreadyExists` if an escrow is
/// stored under the commitment.
pub fn deposit(
    env: &mut Ledger,
    token: &AccountId,
    amount: i128,
    owner: &AccountId,
    salt: &[u8],
    timeout_secs: u64,
) -> (result: Result<[u8; 32], QuickexError>)
    ensures
        yields(result, salted_deposit_outcome(old(env)@, amount, owner@, salt@)),
        final(env)@ == settled(
            old(env)@,
            owner@,
            salted_deposit_outcome(old(env)@, amount, owner@, salt@),
            after_deposit(
                old(env)@.with_auth(owner@),
                owner@,
                token@,
                amount,
                salted_deposit_outcome(old(env)@, amount, owner@, salt@)->Ok_0,
                timeout_secs,
            ),
        ),
{
    if amount <= 0 {
        return Err(QuickexError::InvalidAmount);
    }
    require_auth(env, owner);
    let commitment = match create_amount_commitment(owner, amount, salt) {
        Ok(commitment) => commitment,
        Err(error) => {
            return Err(error);
        },
    };
    match record_deposit(env, owner, token, amount, &commitment, timeout_secs) {
        Ok(_) => Ok(commitment),
        Err(error) => Err(error),
    }
}

/// Pays the escrow under `commitment` out to `to`, who asks for `amount`.
/// This is the part of a withdrawal that follows authorization.
///
/// Fails, in this order, with `InvalidAmount` unless the amount is positive,
/// `CommitmentNotFound`, `AlreadySpent` unless the entry is pending,
/// `EscrowExpired`, and `InvalidCommitment` if the stored amount differs.
pub fn release(env: &mut Ledger, commitment: &[u8; 32], amount: i128, to: &AccountId) -> (result: Result<
    bool,
    QuickexError,
>)
    ensures
        result == release_outcome(old(env)@, commitment@, amount),
        final(env)@ == if result is Ok {
            after_release(old(env)@, commitment@, to@)
        } else {
            old(env)@
        },
{
    if amount <= 0 {
        return Err(QuickexError::InvalidAmount);
    }
    let entry = match get_escrow(env, commitment) {
        Some(entry) => entry,
        None => {
            return Err(QuickexError::CommitmentNotFound);
        },
    };
    if entry.status != EscrowStatus::Pending {
        return Err(QuickexError::AlreadySpent);
    }
    if is_expired(env, &entry) {
        return Err(QuickexError::EscrowExpired);
    }
    if entry.amount != amount {
        return Err(QuickexError::InvalidCommitment);
    }
    let order = Transfer {
        token: entry.token.clone(),
        from: Party::Custody,
        to: Party::Account(to.clone()),
        amount,
    };
    let mut updated = entry;
    updated.status = EscrowStatus::Spent;
    put_escrow(env, commitment, &updated);
    record_transfer(env, order);
    publish_withdraw_toggled(env, to, commitment);
    Ok(true)
}

/// Withdraws the escrow that (to, amount, salt) opens, paying it to `to`.
///
/// Fails with `InvalidAmount` unless the amount is positive. Then asks `to`
/// to authorize, and fails with `InvalidSalt` for a salt of more than 1024
/// bytes, and else as [`release`] does for the commitment to
/// (to, amount, salt).
pub fn withdraw(env: &mut Ledger, amount: i128, to: &AccountId, salt: &[u8]) -> (result: Result<
    bool,
    QuickexError,
>)
    ensures
        result == withdraw_outcome(old(env)@, amount, to@, salt@),
        final(env)@ == settled(
            old(env)@,
            to@,
            result,
            after_release(old(env)@.with_auth(to@), commitment_for(to@, amount, salt@)->Ok_0, to@),
        ),
{
    if amount <= 0 {
        return Err(QuickexError::InvalidAmount);
    }
    require_auth(env, to);
    let commitment = match create_amount_commitment(to, amount, salt) {
        Ok(commitment) => commitment,
        Err(error) => {
            return Err(error);
        },
    };
    release(env, &commitment, amount, to)
}

/// Returns the expired escrow under `commitment` to its owner, who must be
/// `caller`.
///
/// Asks `caller` to authorize. Then fails, in this order, with
/// `CommitmentNotFound`, `AlreadySpent` unless the entry is pending,
/// `EscrowNotExpired` if it has no expiry or has not reached it, and
/// `InvalidOwner` if `caller` is not the owner.
pub fn refund(env: &mut Ledger, commitment: &[u8; 32], caller: &AccountId) -> (result: Result<
    (),
    QuickexError,
>)
    ensures
        result == refund_outcome(old(env)@, commitment@, caller@),
        final(env)@ == if result is Ok {
            after_refund(old(env)@.with_auth(caller@), commitment@)
        } else {
            old(env)@.with_auth(caller@)
        },
{
    require_auth(env, caller);
    let entry = match get_escrow(env, commitment) {
        Some(entry) => entry,
        None => {
            return Err(QuickexError::CommitmentNotFound);
        },
    };
    if entry.status != EscrowStatus::Pending {
        return Err(QuickexError::AlreadySpent);
    }
    if !is_expired(env, &entry) {
        return Err(QuickexError::EscrowNotExpired);
    }
    if *caller != entry.owner {
        return Err(QuickexError::InvalidOwner);
    }
    let order = Transfer {
        token: entry.token.clone(),
        from: Party::Custody,
        to: Party::Account(entry.owner.clone()),
        amount: entry.amount,
    };
    let mut updated = entry;
    updated.status = EscrowStatus::Refunded;
    put_escrow(env, commitment, &updated);
    record_transfer(env, order);
    publish_refunded(env, &updated.owner, commitment, updated.amount);
    Ok(())
}

} // verus!
