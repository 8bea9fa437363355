//! The notifications that the contract sends.
//!
//! Publishing appends the event to the ledger's list of events. Nothing in
//! the contract reads that list back; whoever runs the contract hands its
//! events on.

use crate::storage::{record_event, Ledger, LedgerState};
use crate::types::AccountId;
use vstd::prelude::*;

verus! {

/// An account's privacy flag changed.
#[derive(Debug, PartialEq, Eq)]
pub struct PrivacyToggledEvent {
    pub owner: AccountId,
    pub enabled: bool,
    pub timestamp: u64,
}

/// An escrow was withdrawn.
#[derive(Debug, PartialEq, Eq)]
pub struct WithdrawToggledEvent {
    pub to: AccountId,
    pub commitment: [u8; 32],
    pub timestamp: u64,
}

/// An escrow was created.
#[derive(Debug, PartialEq, Eq)]
pub struct DepositToggledEvent {
    pub commitment: [u8; 32],
    pub token: AccountId,
    pub amount: i128,
}

/// The contract was paused or resumed.
#[derive(Debug, PartialEq, Eq)]
pub struct ContractPausedEvent {
    pub paused: bool,
    pub timestamp: u64,
}

/// The administration changed hands.
#[derive(Debug, PartialEq, Eq)]
pub struct AdminChangedEvent {
    pub old_admin: AccountId,
    pub new_admin: AccountId,
    pub timestamp: u64,
}

/// The administrator approved new contract code.
#[derive(Debug, PartialEq, Eq)]
pub struct ContractUpgradedEvent {
    pub new_wasm_hash: [u8; 32],
    pub admin: AccountId,
    pub timestamp: u64,
}

/// An escrow was refunded to its owner.
#[derive(Debug, PartialEq, Eq)]
pub struct RefundedEvent {
    pub owner: AccountId,
    pub commitment: [u8; 32],
    pub amount: i128,
    pub timestamp: u64,
}

/// Any of the contract's notifications.
#[derive(Debug, PartialEq, Eq)]
pub enum Event {
    PrivacyToggled(PrivacyToggledEvent),
    WithdrawToggled(WithdrawToggledEvent),
    Deposit(DepositToggledEvent),
    ContractPaused(ContractPausedEvent),
    AdminChanged(AdminChangedEvent),
    ContractUpgraded(ContractUpgradedEvent),
    Refunded(RefundedEvent),
}

/// What an [`Event`] stands for.
pub enum EventRecord {
    PrivacyToggled { owner: Seq<u8>, enabled: bool, timestamp: u64 },
    WithdrawToggled { to: Seq<u8>, commitment: Seq<u8>, timestamp: u64 },
    Deposit { commitment: Seq<u8>, token: Seq<u8>, amount: i128 },
    ContractPaused { paused: bool, timestamp: u64 },
    AdminChanged { old_admin: Seq<u8>, new_admin: Seq<u8>, timestamp: u64 },
    ContractUpgraded { new_wasm_hash: Seq<u8>, admin: Seq<u8>, timestamp: u64 },
    Refunded { owner: Seq<u8>, commitment: Seq<u8>, amount: i128, timestamp: u64 },
}

impl View for Event {
    type V = EventRecord;

    open spec fn view(&self) -> EventRecord {
        match self {
            Event::PrivacyToggled(e) => EventRecord::PrivacyToggled {
                owner: e.owner@,
                enabled: e.enabled,
                timestamp: e.timestamp,
            },
            Event::WithdrawToggled(e) => EventRecord::WithdrawToggled {
                to: e.to@,
                commitment: e.commitment@,
                timestamp: e.timestamp,
            },
            Event::Deposit(e) => EventRecord::Deposit {
                commitment: e.commitment@,
                token: e.token@,
                amount: e.amount,
            },
            Event::ContractPaused(e) => EventRecord::ContractPaused {
                paused: e.paused,
                timestamp: e.timestamp,
            },
            Event::AdminChanged(e) => EventRecord::AdminChanged {
                old_admin: e.old_admin@,
                new_admin: e.new_admin@,
                timestamp: e.timestamp,
            },
            Event::ContractUpgraded(e) => EventRecord::ContractUpgraded {
                new_wasm_hash: e.new_wasm_hash@,
                admin: e.admin@,
                timestamp: e.timestamp,
            },
            Event::Refunded(e) => EventRecord::Refunded {
                owner: e.owner@,
                commitment: e.commitment@,
                amount: e.amount,
                timestamp: e.timestamp,
            },
        }
    }
}

/// `state` with one more event published.
pub open spec fn with_event(state: LedgerState, event: EventRecord) -> LedgerState {
    LedgerState { events: state.events.push(event), ..state }
}

/// Publishes that the privacy flag of `owner` became `enabled` at `timestamp`.
pub fn publish_privacy_toggled(env: &mut Ledger, owner: &AccountId, enabled: bool, timestamp: u64)
    ensures
        final(env)@ == with_event(
            old(env)@,
            EventRecord::PrivacyToggled { owner: owner@, enabled, timestamp },
        ),
{
    record_event(env, Event::PrivacyToggled(PrivacyToggledEvent { owner: owner.clone(), enabled, timestamp }));
}

/// Publishes that the contract was paused or resumed at `timestamp`.
pub fn publish_contract_paused(env: &mut Ledger, paused: bool, timestamp: u64)
    ensures
        final(env)@ == with_event(old(env)@, EventRecord::ContractPaused { paused, timestamp }),
{
    record_event(env, Event::ContractPaused(ContractPausedEvent { paused, timestamp }));
}

/// Publishes that the administration went from `old_admin` to `new_admin`
/// at `timestamp`.
pub fn publish_admin_changed(env: &mut Ledger, old_admin: &AccountId, new_admin: &AccountId, timestamp: u64)
    ensures
        final(env)@ == with_event(
            old(env)@,
            EventRecord::AdminChanged { old_admin: old_admin@, new_admin: new_admin@, timestamp },
        ),
{
    record_event(
        env,
        Event::AdminChanged(
            AdminChangedEvent { old_admin: old_admin.clone(), new_admin: new_admin.clone(), timestamp },
        ),
    );
}

/// Publishes that `admin` approved the code with hash `new_wasm_hash` at
/// `timestamp`.
pub fn publish_contract_upgraded(env: &mut Ledger, new_wasm_hash: &[u8; 32], admin: &AccountId, timestamp: u64)
    ensures
        final(env)@ == with_event(
            old(env)@,
            EventRecord::ContractUpgraded { new_wasm_hash: new_wasm_hash@, admin: admin@, timestamp },
        ),
{
    record_event(
        env,
        Event::ContractUpgraded(
            ContractUpgradedEvent { new_wasm_hash: *new_wasm_hash, admin: admin.clone(), timestamp },
        ),
    );
}

/// Publishes that the escrow under `commitment` was withdrawn to `to`, at
/// the ledger's time.
pub fn publish_withdraw_toggled(env: &mut Ledger, to: &AccountId, commitment: &[u8; 32])
    ensures
        final(env)@ == with_event(
            old(env)@,
            EventRecord::WithdrawToggled {
                to: to@,
                commitment: commitment@,
                timestamp: old(env)@.timestamp,
            },
        ),
{
    let timestamp = env.timestamp();
    record_event(
        env,
        Event::WithdrawToggled(WithdrawToggledEvent { to: to.clone(), commitment: *commitment, timestamp }),
    );
}

/// Publishes that `amount` of `token` was deposited under `commitment`.
pub fn publish_deposit(env: &mut Ledger, commitment: &[u8; 32], token: &AccountId, amount: i128)
    ensures
        final(env)@ == with_event(
            old(env)@,
            EventRecord::Deposit { commitment: commitment@, token: token@, amount },
        ),
{
    record_event(
        env,
        Event::Deposit(DepositToggledEvent { commitment: *commitment, token: token.clone(), amount }),
    );
}

/// Publishes that the escrow under `commitment` was refunded to `owner`, at
/// the ledger's time.
pub fn publish_refunded(env: &mut Ledger, owner: &AccountId, commitment: &[u8; 32], amount: i128)
    ensures
        final(env)@ == with_event(
            old(env)@,
            EventRecord::Refunded {
                owner: owner@,
                commitment: commitment@,
                amount,
                timestamp: old(env)@.timestamp,
            },
        ),
{
    let timestamp = env.timestamp();
    record_event(
        env,
        Event::Refunded(RefundedEvent { owner: owner.clone(), commitment: *commitment, amount, timestamp }),
    );
}

} // verus!
