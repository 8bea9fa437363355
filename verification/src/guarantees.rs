//! What holds of the escrow whatever is asked of it.
//!
//! The operations are gathered into one step function, [`apply`], built from
//! the same outcome and successor functions that the contracts of the
//! executable operations use. The lemmas here are about every state and every
//! operation, or about chosen sequences of operations.

use crate::commitment::commitment_for;
use crate::contract::disclosure;
use crate::errors::QuickexError;
use crate::escrow::{
    after_deposit,
    after_refund,
    after_release,
    claimable,
    deposit_outcome,
    expiry_time,
    refund_outcome,
    release_outcome,
    salted_deposit_outcome,
    settled,
    withdraw_outcome,
};
use crate::privacy::{set_privacy_outcome, with_privacy};
use crate::storage::LedgerState;
use crate::types::{EscrowRecord, EscrowStatus, PartyRecord, TransferRecord};
use vstd::prelude::*;

verus! {

/// A request that changes escrows or privacy flags, or the passing of time.
pub enum Operation {
    /// A deposit under `commitment`, supplied or derived from a salt.
    Deposit { from: Seq<u8>, token: Seq<u8>, amount: i128, commitment: Seq<u8>, timeout_secs: u64 },
    /// A withdrawal of the escrow under `commitment` to `to`.
    Release { commitment: Seq<u8>, amount: i128, to: Seq<u8> },
    /// A refund of the escrow under `commitment`, asked for by `caller`.
    Refund { commitment: Seq<u8>, caller: Seq<u8> },
    /// A change of the privacy flag of `owner`.
    SetPrivacy { owner: Seq<u8>, enabled: bool },
    /// The ledger time moves to `now`.
    Tick { now: u64 },
}

/// The state after `operation` was asked of `state` while the contract was
/// not paused.
pub open spec fn apply(state: LedgerState, operation: Operation) -> LedgerState {
    match operation {
        Operation::Deposit { from, token, amount, commitment, timeout_secs } => settled(
            state,
            from,
            deposit_outcome(state, amount, commitment),
            after_deposit(state.with_auth(from), from, token, amount, commitment, timeout_secs),
        ),
        Operation::Release { commitment, amount, to } => settled(
            state,
            to,
            release_outcome(state, commitment, amount),
            after_release(state.with_auth(to), commitment, to),
        ),
        Operation::Refund { commitment, caller } => settled(
            state,
            caller,
            refund_outcome(state, commitment, caller),
            after_refund(state.with_auth(caller), commitment),
        ),
        Operation::SetPrivacy { owner, enabled } => settled(
            state,
            owner,
            set_privacy_outcome(state, owner, enabled),
            with_privacy(state.with_auth(owner), owner, enabled),
        ),
        Operation::Tick { now } => LedgerState { timestamp: now, ..state },
    }
}

/// The state after each of `operations` was asked in turn.
pub open spec fn apply_all(state: LedgerState, operations: Seq<Operation>) -> LedgerState
    decreases operations.len(),
{
    if operations.len() == 0 {
        state
    } else {
        apply(apply_all(state, operations.drop_last()), operations.last())
    }
}

/// Whether the escrow could move from `before` to `after` in one step:
/// everything but the status is kept, and the status stays or goes from
/// `Pending` to `Spent` or `Refunded`.
pub open spec fn moves_forward(before: EscrowRecord, after: EscrowRecord) -> bool {
    &&& after.token == before.token
    &&& after.amount == before.amount
    &&& after.owner == before.owner
    &&& after.created_at == before.created_at
    &&& after.expires_at == before.expires_at
    &&& (after.status == before.status || (before.status == EscrowStatus::Pending && (after.status
        == EscrowStatus::Spent || after.status == EscrowStatus::Refunded)))
}

/// Whether every escrow in `state` holds a positive amount.
pub open spec fn amounts_positive(state: LedgerState) -> bool {
    forall|commitment: Seq<u8>| #[trigger]
        state.escrows.contains_key(commitment) ==> state.escrows[commitment].amount > 0
}

/// Whether no escrow in `state` carries the status `Expired`.
pub open spec fn none_marked_expired(state: LedgerState) -> bool {
    forall|commitment: Seq<u8>| #[trigger]
        state.escrows.contains_key(commitment) ==> state.escrows[commitment].status != EscrowStatus::Expired
}

/// An escrow is never removed, and one step changes at most its status, and
/// that only from `Pending` to `Spent` or `Refunded`.
pub proof fn lemma_escrow_moves_forward(state: LedgerState, operation: Operation, commitment: Seq<u8>)
    requires
        state.escrows.contains_key(commitment),
    ensures
        apply(state, operation).escrows.contains_key(commitment),
        moves_forward(state.escrows[commitment], apply(state, operation).escrows[commitment]),
{
}

/// An escrow is never removed, and over any number of steps it changes at
/// most its status, and that only from `Pending` to `Spent` or `Refunded`.
pub proof fn lemma_escrow_moves_forward_always(state: LedgerState, operations: Seq<Operation>, commitment: Seq<u8>)
    requires
        state.escrows.contains_key(commitment),
    ensures
        apply_all(state, operations).escrows.contains_key(commitment),
        moves_forward(state.escrows[commitment], apply_all(state, operations).escrows[commitment]),
    decreases operations.len(),
{
    if operations.len() > 0 {
        lemma_escrow_moves_forward_always(state, operations.drop_last(), commitment);
        lemma_escrow_moves_forward(apply_all(state, operations.drop_last()), operations.last(), commitment);
    }
}

/// An escrow that is spent or refunded stays exactly as it is, whatever
/// follows.
pub proof fn lemma_terminal_is_final(state: LedgerState, operations: Seq<Operation>, commitment: Seq<u8>)
    requires
        state.escrows.contains_key(commitment),
        state.escrows[commitment].status == EscrowStatus::Spent || state.escrows[commitment].status
            == EscrowStatus::Refunded,
    ensures
        apply_all(state, operations).escrows.contains_key(commitment),
        apply_all(state, operations).escrows[commitment] == state.escrows[commitment],
{
    lemma_escrow_moves_forward_always(state, operations, commitment);
}

/// A step creates no escrow but the one that a successful deposit stores.
pub proof fn lemma_only_deposit_creates(state: LedgerState, operation: Operation, commitment: Seq<u8>)
    requires
        !state.escrows.contains_key(commitment),
        apply(state, operation).escrows.contains_key(commitment),
    ensures
        operation matches Operation::Deposit { from, token, amount, commitment: stored, timeout_secs }
            && stored == commitment && amount > 0 && apply(state, operation).escrows[commitment]
            == (EscrowRecord {
            token,
            amount,
            owner: from,
            status: EscrowStatus::Pending,
            created_at: state.timestamp,
            expires_at: expiry_time(state.timestamp, timeout_secs),
        }),
{
}

/// If every stored amount is positive, it is so after any step.
pub proof fn lemma_amounts_stay_positive(state: LedgerState, operation: Operation)
    requires
        amounts_positive(state),
    ensures
        amounts_positive(apply(state, operation)),
{
    let next = apply(state, operation);
    assert forall|commitment: Seq<u8>| #[trigger] next.escrows.contains_key(commitment) implies next.escrows[commitment].amount
        > 0 by {
        if state.escrows.contains_key(commitment) {
            lemma_escrow_moves_forward(state, operation, commitment);
        } else {
            lemma_only_deposit_creates(state, operation, commitment);
        }
    }
}

/// No step writes the status `Expired`.
pub proof fn lemma_expired_is_never_written(state: LedgerState, operation: Operation)
    requires
        none_marked_expired(state),
    ensures
        none_marked_expired(apply(state, operation)),
{
    let next = apply(state, operation);
    assert forall|commitment: Seq<u8>| #[trigger] next.escrows.contains_key(commitment) implies next.escrows[commitment].status
        != EscrowStatus::Expired by {
        if state.escrows.contains_key(commitment) {
            lemma_escrow_moves_forward(state, operation, commitment);
        } else {
            lemma_only_deposit_creates(state, operation, commitment);
        }
    }
}

/// A step that fails orders no transfer; one that succeeds orders exactly
/// one, except that privacy changes and the passing of time order none.
pub proof fn lemma_transfers_follow_success(state: LedgerState, operation: Operation)
    ensures
        match operation {
            Operation::Deposit { from, token, amount, commitment, timeout_secs } => apply(
                state,
                operation,
            ).transfers == if deposit_outcome(state, amount, commitment) is Ok {
                state.transfers.push(
                    TransferRecord {
                        token,
                        from: PartyRecord::Account(from),
                        to: PartyRecord::Custody,
                        amount,
                    },
                )
            } else {
                state.transfers
            },
            Operation::Release { commitment, amount, to } => apply(state, operation).transfers
                == if release_outcome(state, commitment, amount) is Ok {
                state.transfers.push(
                    TransferRecord {
                        token: state.escrows[commitment].token,
                        from: PartyRecord::Custody,
                        to: PartyRecord::Account(to),
                        amount,
                    },
                )
            } else {
                state.transfers
            },
            Operation::Refund { commitment, caller } => apply(state, operation).transfers
                == if refund_outcome(state, commitment, caller) is Ok {
                state.transfers.push(
                    TransferRecord {
                        token: state.escrows[commitment].token,
                        from: PartyRecord::Custody,
                        to: PartyRecord::Account(caller),
                        amount: state.escrows[commitment].amount,
                    },
                )
            } else {
                state.transfers
            },
            _ => apply(state, operation).transfers == state.transfers,
        },
{
}

/// Whoever an operation acts for is asked to authorize it, unless it fails
/// on its amount; nobody else is asked, and the passing of time asks nobody.
pub proof fn lemma_operations_ask_for_authorization(state: LedgerState, operation: Operation)
    ensures
        match operation {
            Operation::Deposit { from, token, amount, commitment, timeout_secs } => apply(
                state,
                operation,
            ).required_auths == if amount <= 0 {
                state.required_auths
            } else {
                state.required_auths.push(from)
            },
            Operation::Release { commitment, amount, to } => apply(state, operation).required_auths
                == if amount <= 0 {
                state.required_auths
            } else {
                state.required_auths.push(to)
            },
            Operation::Refund { commitment, caller } => apply(state, operation).required_auths
                == state.required_auths.push(caller),
            Operation::SetPrivacy { owner, enabled } => apply(state, operation).required_auths
                == state.required_auths.push(owner),
            Operation::Tick { now } => apply(state, operation).required_auths == state.required_auths,
        },
{
}

/// After a deposit by (owner, amount, salt) that never expires, a withdrawal
/// by the same three succeeds at any later time, returns `true` and orders
/// the amount to the owner; a second one fails with `AlreadySpent`, whenever
/// it is made.
pub proof fn lemma_deposit_withdraw_round_trip(
    state: LedgerState,
    token: Seq<u8>,
    amount: i128,
    owner: Seq<u8>,
    salt: Seq<u8>,
    first_time: u64,
    second_time: u64,
)
    requires
        salted_deposit_outcome(state, amount, owner, salt) is Ok,
    ensures
        ({
            let commitment = salted_deposit_outcome(state, amount, owner, salt)->Ok_0;
            let deposited = apply(
                state,
                Operation::Deposit { from: owner, token, amount, commitment, timeout_secs: 0 },
            );
            let at_first = apply(deposited, Operation::Tick { now: first_time });
            let withdrawn = apply(at_first, Operation::Release { commitment, amount, to: owner });
            let at_second = apply(withdrawn, Operation::Tick { now: second_time });
            &&& commitment_for(owner, amount, salt) == Ok::<Seq<u8>, QuickexError>(commitment)
            &&& withdraw_outcome(at_first, amount, owner, salt) == Ok::<bool, QuickexError>(true)
            &&& withdrawn.transfers.last() == (TransferRecord {
                token,
                from: PartyRecord::Custody,
                to: PartyRecord::Account(owner),
                amount,
            })
            &&& withdrawn.escrows[commitment].status == EscrowStatus::Spent
            &&& withdraw_outcome(at_second, amount, owner, salt) == Err::<bool, QuickexError>(
                QuickexError::AlreadySpent,
            )
        }),
{
}

/// Once an escrow has been withdrawn, every later withdrawal under its
/// commitment fails with `AlreadySpent`, whatever happened in between.
pub proof fn lemma_no_second_withdrawal(
    state: LedgerState,
    commitment: Seq<u8>,
    amount: i128,
    to: Seq<u8>,
    between: Seq<Operation>,
    later_amount: i128,
)
    requires
        release_outcome(state, commitment, amount) is Ok,
        later_amount > 0,
    ensures
        release_outcome(
            apply_all(apply(state, Operation::Release { commitment, amount, to }), between),
            commitment,
            later_amount,
        ) == Err::<bool, QuickexError>(QuickexError::AlreadySpent),
{
    lemma_terminal_is_final(
        apply(state, Operation::Release { commitment, amount, to }),
        between,
        commitment,
    );
}

/// A pending escrow of the amount asked for is paid out before its expiry,
/// and refused with `EscrowExpired` from its expiry on. One without expiry
/// is paid out at any time.
pub proof fn lemma_expiry_gates_withdrawal(state: LedgerState, commitment: Seq<u8>, amount: i128)
    requires
        amount > 0,
        state.escrows.contains_key(commitment),
        state.escrows[commitment].status == EscrowStatus::Pending,
        state.escrows[commitment].amount == amount,
    ensures
        release_outcome(state, commitment, amount) == if state.escrows[commitment].expires_at == 0
            || state.timestamp < state.escrows[commitment].expires_at {
            Ok::<bool, QuickexError>(true)
        } else {
            Err::<bool, QuickexError>(QuickexError::EscrowExpired)
        },
{
}

/// After a deposit at time `t` with a timeout, the escrow is paid out at
/// every time before `t + timeout` and refused with `EscrowExpired` at every
/// time from then on.
pub proof fn lemma_withdrawal_within_timeout(
    state: LedgerState,
    from: Seq<u8>,
    token: Seq<u8>,
    amount: i128,
    commitment: Seq<u8>,
    timeout_secs: u64,
    now: u64,
)
    requires
        deposit_outcome(state, amount, commitment) is Ok,
        timeout_secs > 0,
        state.timestamp + timeout_secs <= u64::MAX,
    ensures
        ({
            let deposited = apply(
                state,
                Operation::Deposit { from, token, amount, commitment, timeout_secs },
            );
            let later = apply(deposited, Operation::Tick { now });
            release_outcome(later, commitment, amount) == if now < state.timestamp + timeout_secs {
                Ok::<bool, QuickexError>(true)
            } else {
                Err::<bool, QuickexError>(QuickexError::EscrowExpired)
            }
        }),
{
}

/// A pending escrow is not refunded before its expiry, whoever asks, nor
/// ever if it has none. From its expiry on it is refunded to its owner and
/// to nobody else.
pub proof fn lemma_expiry_gates_refund(state: LedgerState, commitment: Seq<u8>, caller: Seq<u8>)
    requires
        state.escrows.contains_key(commitment),
        state.escrows[commitment].status == EscrowStatus::Pending,
    ensures
        refund_outcome(state, commitment, caller) == if state.escrows[commitment].expires_at == 0
            || state.timestamp < state.escrows[commitment].expires_at {
            Err::<(), QuickexError>(QuickexError::EscrowNotExpired)
        } else if caller != state.escrows[commitment].owner {
            Err::<(), QuickexError>(QuickexError::InvalidOwner)
        } else {
            Ok::<(), QuickexError>(())
        },
{
}

/// After a deposit at time `t` with a timeout, a refund fails with
/// `EscrowNotExpired` at every time before `t + timeout`, whoever asks. From
/// then on it succeeds for the depositor and fails with `InvalidOwner` for
/// anyone else.
pub proof fn lemma_refund_after_timeout(
    state: LedgerState,
    from: Seq<u8>,
    token: Seq<u8>,
    amount: i128,
    commitment: Seq<u8>,
    timeout_secs: u64,
    now: u64,
    caller: Seq<u8>,
)
    requires
        deposit_outcome(state, amount, commitment) is Ok,
        timeout_secs > 0,
        state.timestamp + timeout_secs <= u64::MAX,
    ensures
        ({
            let deposited = apply(
                state,
                Operation::Deposit { from, token, amount, commitment, timeout_secs },
            );
            let later = apply(deposited, Operation::Tick { now });
            refund_outcome(later, commitment, caller) == if now < state.timestamp + timeout_secs {
                Err::<(), QuickexError>(QuickexError::EscrowNotExpired)
            } else if caller != from {
                Err::<(), QuickexError>(QuickexError::InvalidOwner)
            } else {
                Ok::<(), QuickexError>(())
            }
        }),
{
}

/// A refund orders the escrow's amount of the escrow's token out of custody
/// to the owner, who is the caller, and every later refund under the
/// commitment fails with `AlreadySpent`, whatever happened in between.
pub proof fn lemma_refund_pays_owner_once(
    state: LedgerState,
    commitment: Seq<u8>,
    caller: Seq<u8>,
    between: Seq<Operation>,
    later_caller: Seq<u8>,
)
    requires
        refund_outcome(state, commitment, caller) is Ok,
    ensures
        apply(state, Operation::Refund { commitment, caller }).transfers == state.transfers.push(
            TransferRecord {
                token: state.escrows[commitment].token,
                from: PartyRecord::Custody,
                to: PartyRecord::Account(state.escrows[commitment].owner),
                amount: state.escrows[commitment].amount,
            },
        ),
        caller == state.escrows[commitment].owner,
        apply(state, Operation::Refund { commitment, caller }).escrows[commitment].status
            == EscrowStatus::Refunded,
        refund_outcome(
            apply_all(apply(state, Operation::Refund { commitment, caller }), between),
            commitment,
            later_caller,
        ) == Err::<(), QuickexError>(QuickexError::AlreadySpent),
{
    lemma_terminal_is_final(apply(state, Operation::Refund { commitment, caller }), between, commitment);
}

/// An escrow is either withdrawn or refunded, never both: after a
/// withdrawal every refund fails, and after a refund every withdrawal.
pub proof fn lemma_withdrawal_excludes_refund(
    state: LedgerState,
    commitment: Seq<u8>,
    to: Seq<u8>,
    between: Seq<Operation>,
    caller: Seq<u8>,
    amount: i128,
)
    requires
        state.escrows.contains_key(commitment),
        amount > 0,
    ensures
        release_outcome(state, commitment, amount) is Ok ==> refund_outcome(
            apply_all(apply(state, Operation::Release { commitment, amount, to }), between),
            commitment,
            caller,
        ) == Err::<(), QuickexError>(QuickexError::AlreadySpent),
        refund_outcome(state, commitment, caller) is Ok ==> release_outcome(
            apply_all(apply(state, Operation::Refund { commitment, caller }), between),
            commitment,
            amount,
        ) == Err::<bool, QuickexError>(QuickexError::AlreadySpent),
{
    if release_outcome(state, commitment, amount) is Ok {
        lemma_terminal_is_final(
            apply(state, Operation::Release { commitment, amount, to }),
            between,
            commitment,
        );
    }
    if refund_outcome(state, commitment, caller) is Ok {
        lemma_terminal_is_final(
            apply(state, Operation::Refund { commitment, caller }),
            between,
            commitment,
        );
    }
}

/// Setting the privacy flag to the value that it has fails with
/// `PrivacyAlreadySet`; setting it to the other value succeeds, and the flag
/// then has that value. After a success, setting the same value again fails
/// and setting the other one succeeds.
pub proof fn lemma_privacy_toggle(state: LedgerState, owner: Seq<u8>, enabled: bool)
    ensures
        set_privacy_outcome(state, owner, enabled) == if state.privacy_enabled(owner) == enabled {
            Err::<(), QuickexError>(QuickexError::PrivacyAlreadySet)
        } else {
            Ok::<(), QuickexError>(())
        },
        apply(state, Operation::SetPrivacy { owner, enabled }).privacy_enabled(owner) == enabled,
        set_privacy_outcome(
            apply(state, Operation::SetPrivacy { owner, enabled }),
            owner,
            enabled,
        ) == Err::<(), QuickexError>(QuickexError::PrivacyAlreadySet),
        set_privacy_outcome(
            apply(state, Operation::SetPrivacy { owner, enabled }),
            owner,
            !enabled,
        ) == Ok::<(), QuickexError>(()),
{
}

/// Changing the privacy flag of one account leaves that of every other
/// account as it was.
pub proof fn lemma_privacy_is_per_account(state: LedgerState, owner: Seq<u8>, enabled: bool, other: Seq<u8>)
    requires
        other != owner,
    ensures
        apply(state, Operation::SetPrivacy { owner, enabled }).privacy_enabled(other)
            == state.privacy_enabled(other),
{
}

/// From a flag that is off, setting it on, off and on again succeeds each
/// time.
pub proof fn lemma_privacy_alternation(state: LedgerState, owner: Seq<u8>)
    requires
        !state.privacy_enabled(owner),
    ensures
        ({
            let on = apply(state, Operation::SetPrivacy { owner, enabled: true });
            let off = apply(on, Operation::SetPrivacy { owner, enabled: false });
            &&& set_privacy_outcome(state, owner, true) is Ok
            &&& set_privacy_outcome(on, owner, false) is Ok
            &&& set_privacy_outcome(off, owner, true) is Ok
        }),
{
}

/// Of a stored escrow, a caller is shown the token, the status and the two
/// times in any case; the amount and the owner unless the owner's privacy
/// flag is set and the caller is someone else.
pub proof fn lemma_disclosure_by_privacy(state: LedgerState, commitment: Seq<u8>, caller: Seq<u8>)
    requires
        state.escrows.contains_key(commitment),
    ensures
        ({
            let entry = state.escrows[commitment];
            let shown = disclosure(state, commitment, caller);
            let withheld = state.privacy_enabled(entry.owner) && caller != entry.owner;
            &&& shown is Some
            &&& shown->Some_0.token == entry.token
            &&& shown->Some_0.status == entry.status
            &&& shown->Some_0.created_at == entry.created_at
            &&& shown->Some_0.expires_at == entry.expires_at
            &&& withheld ==> shown->Some_0.amount is None && shown->Some_0.owner is None
            &&& !withheld ==> shown->Some_0.amount == Some(entry.amount) && shown->Some_0.owner == Some(
                entry.owner,
            )
        }),
{
}

/// Once an escrow is stored under a commitment, every deposit under that
/// commitment fails, with `CommitmentAlreadyExists` if its amount is
/// positive, and changes no entry, orders no transfer and publishes no
/// event.
pub proof fn lemma_no_deposit_on_used_commitment(
    state: LedgerState,
    commitment: Seq<u8>,
    between: Seq<Operation>,
    from: Seq<u8>,
    token: Seq<u8>,
    amount: i128,
    timeout_secs: u64,
)
    requires
        state.escrows.contains_key(commitment),
    ensures
        ({
            let later = apply_all(state, between);
            let after = apply(later, Operation::Deposit { from, token, amount, commitment, timeout_secs });
            &&& deposit_outcome(later, amount, commitment) == if amount <= 0 {
                Err::<(), QuickexError>(QuickexError::InvalidAmount)
            } else {
                Err::<(), QuickexError>(QuickexError::CommitmentAlreadyExists)
            }
            &&& after.escrows == later.escrows
            &&& after.transfers == later.transfers
            &&& after.events == later.events
        }),
{
    lemma_escrow_moves_forward_always(state, between, commitment);
}

/// A claim is honoured exactly when a withdrawal of a positive amount would
/// succeed.
pub proof fn lemma_claimable_means_withdrawable(state: LedgerState, commitment: Seq<u8>, amount: i128)
    requires
        amount > 0,
    ensures
        claimable(state, commitment, amount) <==> release_outcome(state, commitment, amount) is Ok,
{
}

} // verus!
