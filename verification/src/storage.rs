//! The contract's persistent state and the accessors of its slots.
//!
//! | Slot              | Holds                                                    |
//! |-------------------|----------------------------------------------------------|
//! | escrows           | one [`EscrowEntry`] per commitment                       |
//! | escrow counter    | how many escrows `create_escrow` has numbered            |
//! | admin             | the administrator, once initialised                      |
//! | paused            | the pause flag                                           |
//! | privacy levels    | the numeric privacy level of an account                  |
//! | privacy history   | the levels an account has had, newest first              |
//! | privacy flags     | the boolean privacy flag of an account                   |
//! | escrow parties    | sender and recipient of an escrow numbered by its time   |
//! | required auths    | the accounts asked to authorize the call, not yet checked |
//! | transfers         | the token transfers ordered and not yet carried out      |
//! | events            | the notifications published and not yet handed on        |
//!
//! A [`Ledger`] also carries the ledger time at which the contract runs.
//! The accessors here store and load; the rules of the escrow live in
//! [`crate::escrow`] and [`crate::privacy`].

use crate::encoding::{big_endian, lemma_u64_bytes_injective, u64_bytes};
use crate::events::{Event, EventRecord};
use crate::table::Table;
use crate::types::{AccountId, EscrowEntry, EscrowRecord, Transfer, TransferRecord};
use vstd::prelude::*;

verus! {

/// What a [`Ledger`] stands for.
pub struct LedgerState {
    pub timestamp: u64,
    pub escrows: Map<Seq<u8>, EscrowRecord>,
    pub escrow_counter: u64,
    pub admin: Option<Seq<u8>>,
    pub paused: bool,
    pub privacy_levels: Map<Seq<u8>, u32>,
    pub privacy_history: Map<Seq<u8>, Seq<u32>>,
    pub privacy_flags: Map<Seq<u8>, bool>,
    pub escrow_parties: Map<u64, (Seq<u8>, Seq<u8>)>,
    pub required_auths: Seq<Seq<u8>>,
    pub transfers: Seq<TransferRecord>,
    pub events: Seq<EventRecord>,
}

impl LedgerState {
    /// The state of a contract that nothing has touched, at time 0.
    pub open spec fn initial() -> LedgerState {
        LedgerState {
            timestamp: 0,
            escrows: Map::empty(),
            escrow_counter: 0,
            admin: None,
            paused: false,
            privacy_levels: Map::empty(),
            privacy_history: Map::empty(),
            privacy_flags: Map::empty(),
            escrow_parties: Map::empty(),
            required_auths: Seq::empty(),
            transfers: Seq::empty(),
            events: Seq::empty(),
        }
    }

    /// The privacy flag of `account`; unset counts as off.
    pub open spec fn privacy_enabled(self, account: Seq<u8>) -> bool {
        self.privacy_flags.contains_key(account) && self.privacy_flags[account]
    }

    /// This state with `account` asked to authorize the call.
    pub open spec fn with_auth(self, account: Seq<u8>) -> LedgerState {
        LedgerState { required_auths: self.required_auths.push(account), ..self }
    }

    /// The privacy level history of `account`, newest first; unset counts as
    /// empty.
    pub open spec fn history_of(self, account: Seq<u8>) -> Seq<u32> {
        if self.privacy_history.contains_key(account) {
            self.privacy_history[account]
        } else {
            Seq::empty()
        }
    }
}

/// The contract's persistent state, together with the ledger time.
pub struct Ledger {
    timestamp: u64,
    escrows: Table<EscrowEntry>,
    escrow_counter: u64,
    admin: Option<AccountId>,
    paused: bool,
    privacy_levels: Table<u32>,
    privacy_history: Table<Vec<u32>>,
    privacy_flags: Table<bool>,
    escrow_parties: Table<(AccountId, AccountId)>,
    required_auths: Vec<AccountId>,
    transfers: Vec<Transfer>,
    events: Vec<Event>,
}

impl View for Ledger {
    type V = LedgerState;

    closed spec fn view(&self) -> LedgerState {
        LedgerState {
            timestamp: self.timestamp,
            escrows: self.escrows.entries().map_values(|e: EscrowEntry| e@),
            escrow_counter: self.escrow_counter,
            admin: match self.admin {
                Some(a) => Some(a@),
                None => None,
            },
            paused: self.paused,
            privacy_levels: self.privacy_levels.entries(),
            privacy_history: self.privacy_history.entries().map_values(|h: Vec<u32>| h@),
            privacy_flags: self.privacy_flags.entries(),
            escrow_parties: Map::new(
                |id: u64| self.escrow_parties.entries().contains_key(big_endian(id as nat, 8)),
                |id: u64|
                    {
                        let parties = self.escrow_parties.entries()[big_endian(id as nat, 8)];
                        (parties.0@, parties.1@)
                    },
            ),
            required_auths: self.required_auths@.map_values(|a: AccountId| a@),
            transfers: self.transfers@.map_values(|t: Transfer| t@),
            events: self.events@.map_values(|e: Event| e@),
        }
    }
}

impl Ledger {
    /// The state of a contract that nothing has touched, at time 0.
    pub fn new() -> (env: Ledger)
        ensures
            env@ == LedgerState::initial(),
    {
        let env = Ledger {
            timestamp: 0,
            escrows: Table::new(),
            escrow_counter: 0,
            admin: None,
            paused: false,
            privacy_levels: Table::new(),
            privacy_history: Table::new(),
            privacy_flags: Table::new(),
            escrow_parties: Table::new(),
            required_auths: Vec::new(),
            transfers: Vec::new(),
            events: Vec::new(),
        };
        assert(env@.escrows =~= Map::empty());
        assert(env@.privacy_history =~= Map::empty());
        assert(env@.escrow_parties =~= Map::empty());
        assert(env@.required_auths =~= Seq::empty());
        assert(env@.transfers =~= Seq::empty());
        assert(env@.events =~= Seq::empty());
        env
    }

    /// The ledger time.
    pub fn timestamp(&self) -> (now: u64)
        ensures
            now == self@.timestamp,
    {
        self.timestamp
    }

    /// Moves the ledger time to `now`.
    pub fn set_timestamp(&mut self, now: u64)
        ensures
            final(self)@ == (LedgerState { timestamp: now, ..old(self)@ }),
    {
        self.timestamp = now;
    }

    /// The accounts asked so far to authorize the call, in the order asked.
    pub fn required_auths(&self) -> (accounts: &Vec<AccountId>)
        ensures
            accounts@.map_values(|a: AccountId| a@) == self@.required_auths,
    {
        &self.required_auths
    }

    /// Hands out the accounts asked so far to authorize the call, in the
    /// order asked, and forgets them.
    pub fn take_required_auths(&mut self) -> (accounts: Vec<AccountId>)
        ensures
            accounts@.map_values(|a: AccountId| a@) == old(self)@.required_auths,
            final(self)@ == (LedgerState { required_auths: Seq::empty(), ..old(self)@ }),
    {
        let mut accounts: Vec<AccountId> = Vec::new();
        std::mem::swap(&mut accounts, &mut self.required_auths);
        assert(self@.required_auths =~= Seq::empty());
        accounts
    }

    /// The transfers ordered so far, oldest first.
    pub fn transfers(&self) -> (orders: &Vec<Transfer>)
        ensures
            orders@.map_values(|t: Transfer| t@) == self@.transfers,
    {
        &self.transfers
    }

    /// Hands out the transfers ordered so far, oldest first, and forgets them.
    pub fn take_transfers(&mut self) -> (orders: Vec<Transfer>)
        ensures
            orders@.map_values(|t: Transfer| t@) == old(self)@.transfers,
            final(self)@ == (LedgerState { transfers: Seq::empty(), ..old(self)@ }),
    {
        let mut orders: Vec<Transfer> = Vec::new();
        std::mem::swap(&mut orders, &mut self.transfers);
        assert(self@.transfers =~= Seq::empty());
        orders
    }

    /// The events published so far, oldest first.
    pub fn events(&self) -> (published: &Vec<Event>)
        ensures
            published@.map_values(|e: Event| e@) == self@.events,
    {
        &self.events
    }

    /// Hands out the events published so far, oldest first, and forgets
    /// them.
    pub fn take_events(&mut self) -> (published: Vec<Event>)
        ensures
            published@.map_values(|e: Event| e@) == old(self)@.events,
            final(self)@ == (LedgerState { events: Seq::empty(), ..old(self)@ }),
    {
        let mut published: Vec<Event> = Vec::new();
        std::mem::swap(&mut published, &mut self.events);
        assert(self@.events =~= Seq::empty());
        published
    }
}

/// Asks `account` to authorize the call.
///
/// The call may go through only if the account has proven that it wants it;
/// whoever runs the contract checks that for every account asked, and drops
/// the call with all its effects if one has not.
pub fn require_auth(env: &mut Ledger, account: &AccountId)
    ensures
        final(env)@ == old(env)@.with_auth(account@),
{
    env.required_auths.push(account.clone());
    assert(env@.required_auths =~= old(env)@.required_auths.push(account@));
}

/// Adds `event` to the events published.
pub fn record_event(env: &mut Ledger, event: Event)
    ensures
        final(env)@ == (LedgerState { events: old(env)@.events.push(event@), ..old(env)@ }),
{
    env.events.push(event);
    assert(env@.events =~= old(env)@.events.push(event@));
}

/// Adds `order` to the transfers to carry out.
pub fn record_transfer(env: &mut Ledger, order: Transfer)
    ensures
        final(env)@ == (LedgerState { transfers: old(env)@.transfers.push(order@), ..old(env)@ }),
{
    env.transfers.push(order);
    assert(env@.transfers =~= old(env)@.transfers.push(order@));
}

/// Stores `entry` under `commitment`, in place of any entry that was there.
pub fn put_escrow(env: &mut Ledger, commitment: &[u8; 32], entry: &EscrowEntry)
    ensures
        final(env)@ == (LedgerState {
            escrows: old(env)@.escrows.insert(commitment@, entry@),
            ..old(env)@
        }),
{
    let stored = entry.clone();
    env.escrows.set(commitment.as_slice(), stored);
    assert(env@.escrows =~= old(env)@.escrows.insert(commitment@, entry@));
}

/// The entry stored under `commitment`, if there is one.
pub fn get_escrow(env: &Ledger, commitment: &[u8; 32]) -> (entry: Option<EscrowEntry>)
    ensures
        match entry {
            Some(e) => env@.escrows.contains_key(commitment@) && e@ == env@.escrows[commitment@],
            None => !env@.escrows.contains_key(commitment@),
        },
{
    match env.escrows.get(commitment.as_slice()) {
        Some(e) => Some(e.clone()),
        None => None,
    }
}

/// Whether an entry is stored under `commitment`.
pub fn has_escrow(env: &Ledger, commitment: &[u8; 32]) -> (present: bool)
    ensures
        present == env@.escrows.contains_key(commitment@),
{
    env.escrows.contains(commitment.as_slice())
}

/// The escrow counter; 0 until first incremented.
pub fn get_escrow_counter(env: &Ledger) -> (count: u64)
    ensures
        count == env@.escrow_counter,
{
    env.escrow_counter
}

/// Sets the escrow counter.
pub fn set_escrow_counter(env: &mut Ledger, count: u64)
    ensures
        final(env)@ == (LedgerState { escrow_counter: count, ..old(env)@ }),
{
    env.escrow_counter = count;
}

/// Adds one to the escrow counter and returns the new value.
pub fn increment_escrow_counter(env: &mut Ledger) -> (count: u64)
    requires
        old(env)@.escrow_counter < u64::MAX,
    ensures
        count == old(env)@.escrow_counter + 1,
        final(env)@ == (LedgerState { escrow_counter: count, ..old(env)@ }),
{
    env.escrow_counter = env.escrow_counter + 1;
    env.escrow_counter
}

/// Makes `admin` the administrator.
pub fn set_admin(env: &mut Ledger, admin: &AccountId)
    ensures
        final(env)@ == (LedgerState { admin: Some(admin@), ..old(env)@ }),
{
    env.admin = Some(admin.clone());
}

/// The administrator, if one was set.
pub fn get_admin(env: &Ledger) -> (admin: Option<AccountId>)
    ensures
        match admin {
            Some(a) => env@.admin == Some(a@),
            None => env@.admin is None,
        },
{
    match &env.admin {
        Some(a) => Some(a.clone()),
        None => None,
    }
}

/// Sets the pause flag.
pub fn set_paused(env: &mut Ledger, paused: bool)
    ensures
        final(env)@ == (LedgerState { paused, ..old(env)@ }),
{
    env.paused = paused;
}

/// The pause flag; off until first set.
pub fn is_paused(env: &Ledger) -> (paused: bool)
    ensures
        paused == env@.paused,
{
    env.paused
}

/// Sets the numeric privacy level of `account`.
pub fn set_privacy_level(env: &mut Ledger, account: &AccountId, level: u32)
    ensures
        final(env)@ == (LedgerState {
            privacy_levels: old(env)@.privacy_levels.insert(account@, level),
            ..old(env)@
        }),
{
    env.privacy_levels.set(account.encoding().as_slice(), level);
}

/// The numeric privacy level of `account`, if one was set.
pub fn get_privacy_level(env: &Ledger, account: &AccountId) -> (level: Option<u32>)
    ensures
        match level {
            Some(l) => env@.privacy_levels.contains_key(account@) && l == env@.privacy_levels[account@],
            None => !env@.privacy_levels.contains_key(account@),
        },
{
    match env.privacy_levels.get(account.encoding().as_slice()) {
        Some(l) => Some(*l),
        None => None,
    }
}

/// Puts `level` in front of the privacy level history of `account`.
pub fn add_privacy_history(env: &mut Ledger, account: &AccountId, level: u32)
    ensures
        final(env)@ == (LedgerState {
            privacy_history: old(env)@.privacy_history.insert(
                account@,
                seq![level] + old(env)@.history_of(account@),
            ),
            ..old(env)@
        }),
{
    let mut history = get_privacy_history(env, account);
    history.insert(0, level);
    assert(history@ =~= seq![level] + old(env)@.history_of(account@));
    env.privacy_history.set(account.encoding().as_slice(), history);
    assert(env@.privacy_history =~= old(env)@.privacy_history.insert(
        account@,
        seq![level] + old(env)@.history_of(account@),
    ));
}

/// The privacy level history of `account`, newest first; empty if none was
/// recorded.
pub fn get_privacy_history(env: &Ledger, account: &AccountId) -> (history: Vec<u32>)
    ensures
        history@ == env@.history_of(account@),
{
    match env.privacy_history.get(account.encoding().as_slice()) {
        Some(h) => {
            let history = h.clone();
            assert(history@ =~= h@);
            history
        },
        None => Vec::new(),
    }
}

/// Sets the boolean privacy flag of `account`.
pub fn set_privacy_flag(env: &mut Ledger, account: &AccountId, enabled: bool)
    ensures
        final(env)@ == (LedgerState {
            privacy_flags: old(env)@.privacy_flags.insert(account@, enabled),
            ..old(env)@
        }),
{
    env.privacy_flags.set(account.encoding().as_slice(), enabled);
}

/// The boolean privacy flag of `account`; off until first set.
pub fn get_privacy_flag(env: &Ledger, account: &AccountId) -> (enabled: bool)
    ensures
        enabled == env@.privacy_enabled(account@),
{
    match env.privacy_flags.get(account.encoding().as_slice()) {
        Some(flag) => *flag,
        None => false,
    }
}

/// Stores the sender and the recipient of the escrow numbered `id`, in place
/// of any that were stored under that number.
pub fn set_escrow_parties(env: &mut Ledger, id: u64, from: &AccountId, to: &AccountId)
    ensures
        final(env)@ == (LedgerState {
            escrow_parties: old(env)@.escrow_parties.insert(id, (from@, to@)),
            ..old(env)@
        }),
{
    let key = u64_bytes(id);
    env.escrow_parties.set(key.as_slice(), (from.clone(), to.clone()));
    proof {
        assert forall|other: u64| other != id implies big_endian(other as nat, 8) != big_endian(
            id as nat,
            8,
        ) by {
            if big_endian(other as nat, 8) == big_endian(id as nat, 8) {
                lemma_u64_bytes_injective(other, id);
            }
        }
        assert(env@.escrow_parties =~= old(env)@.escrow_parties.insert(id, (from@, to@)));
    }
}

/// The sender and the recipient of the escrow numbered `id`, if any were
/// stored.
pub fn get_escrow_parties(env: &Ledger, id: u64) -> (parties: Option<(AccountId, AccountId)>)
    ensures
        match parties {
            Some((from, to)) => env@.escrow_parties.contains_key(id) && env@.escrow_parties[id] == (
                from@,
                to@,
            ),
            None => !env@.escrow_parties.contains_key(id),
        },
{
    let key = u64_bytes(id);
    match env.escrow_parties.get(key.as_slice()) {
        Some(parties) => Some((parties.0.clone(), parties.1.clone())),
        None => None,
    }
}

} // verus!
