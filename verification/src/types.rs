//! The values that the contract stores and returns.

use vstd::prelude::*;
use vstd::std_specs::cmp::PartialEqSpecImpl;

verus! {

/// Longest canonical encoding, in bytes, that an [`AccountId`] holds.
///
/// An encoding of this length can still be hashed together with an amount
/// and a salt of maximal length.
pub const MAX_ACCOUNT_ENCODING_LEN: usize = 64496;

/// An account or contract address, held as its canonical serialization.
///
/// Two addresses are the same exactly when their encodings are equal.
#[derive(Debug)]
pub struct AccountId {
    encoding: Vec<u8>,
}

impl View for AccountId {
    type V = Seq<u8>;

    closed spec fn view(&self) -> Seq<u8> {
        self.encoding@
    }
}

impl AccountId {
    #[verifier::type_invariant]
    spec fn bounded(self) -> bool {
        self.encoding@.len() <= MAX_ACCOUNT_ENCODING_LEN
    }

    /// Wraps a canonical encoding, unless it is too long.
    pub fn from_encoding(encoding: Vec<u8>) -> (account: Option<AccountId>)
        ensures
            account is Some <==> encoding@.len() <= MAX_ACCOUNT_ENCODING_LEN,
            account matches Some(a) ==> a@ == encoding@,
    {
        if encoding.len() <= MAX_ACCOUNT_ENCODING_LEN {
            Some(AccountId { encoding })
        } else {
            None
        }
    }

    /// The canonical encoding.
    pub fn encoding(&self) -> (bytes: &Vec<u8>)
        ensures
            bytes@ == self@,
            bytes@.len() <= MAX_ACCOUNT_ENCODING_LEN,
    {
        proof {
            use_type_invariant(self);
        }
        &self.encoding
    }
}

impl Clone for AccountId {
    fn clone(&self) -> (copy: Self)
        ensures
            copy@ == self@,
    {
        proof {
            use_type_invariant(self);
        }
        AccountId { encoding: self.encoding.clone() }
    }
}

impl PartialEq for AccountId {
    fn eq(&self, other: &Self) -> (same: bool) {
        let same = self.encoding == other.encoding;
        proof {
            if same {
                assert(self.encoding@ =~= other.encoding@);
            }
        }
        same
    }
}

impl PartialEqSpecImpl for AccountId {
    open spec fn obeys_eq_spec() -> bool {
        true
    }

    open spec fn eq_spec(&self, other: &Self) -> bool {
        self@ == other@
    }
}

impl Eq for AccountId {

}

/// Where an escrow stands in its life.
///
/// A deposit creates the escrow as `Pending`. A withdrawal moves it to
/// `Spent`, a refund to `Refunded`; nothing leaves those two.
#[derive(Clone, Copy, PartialEq, Eq, Debug, Structural)]
pub enum EscrowStatus {
    /// Funds are held, awaiting withdrawal or refund.
    Pending,
    /// Withdrawn by a claimant.
    Spent,
    /// Kept so that old records stay readable; no operation writes it.
    Expired,
    /// Returned to the owner after the timeout.
    Refunded,
}

/// One escrow, stored under its commitment.
#[derive(Debug, PartialEq, Eq)]
pub struct EscrowEntry {
    /// The asset held.
    pub token: AccountId,
    /// The amount held, in the asset's base units.
    pub amount: i128,
    /// The depositor, who may take a refund after expiry.
    pub owner: AccountId,
    /// The current state.
    pub status: EscrowStatus,
    /// Ledger time of the deposit.
    pub created_at: u64,
    /// Ledger time from which withdrawal is blocked and refund is open;
    /// `0` means that the escrow never expires.
    pub expires_at: u64,
}

/// What an [`EscrowEntry`] stands for.
pub struct EscrowRecord {
    pub token: Seq<u8>,
    pub amount: i128,
    pub owner: Seq<u8>,
    pub status: EscrowStatus,
    pub created_at: u64,
    pub expires_at: u64,
}

impl View for EscrowEntry {
    type V = EscrowRecord;

    open spec fn view(&self) -> EscrowRecord {
        EscrowRecord {
            token: self.token@,
            amount: self.amount,
            owner: self.owner@,
            status: self.status,
            created_at: self.created_at,
            expires_at: self.expires_at,
        }
    }
}

impl Clone for EscrowEntry {
    fn clone(&self) -> (copy: Self)
        ensures
            copy@ == self@,
    {
        EscrowEntry {
            token: self.token.clone(),
            amount: self.amount,
            owner: self.owner.clone(),
            status: self.status,
            created_at: self.created_at,
            expires_at: self.expires_at,
        }
    }
}

/// What a query about an escrow shows to a given caller.
///
/// `amount` and `owner` are withheld from callers other than the owner while
/// the owner's privacy flag is set.
#[derive(Debug, PartialEq, Eq)]
pub struct PrivacyAwareEscrowView {
    /// The asset held (always shown).
    pub token: AccountId,
    /// The amount held, or `None` where it is withheld.
    pub amount: Option<i128>,
    /// The depositor, or `None` where it is withheld.
    pub owner: Option<AccountId>,
    /// The current state (always shown).
    pub status: EscrowStatus,
    /// Ledger time of the deposit (always shown).
    pub created_at: u64,
    /// Expiry time, `0` for none (always shown).
    pub expires_at: u64,
}

/// What a [`PrivacyAwareEscrowView`] stands for.
pub struct EscrowDisclosure {
    pub token: Seq<u8>,
    pub amount: Option<i128>,
    pub owner: Option<Seq<u8>>,
    pub status: EscrowStatus,
    pub created_at: u64,
    pub expires_at: u64,
}

impl View for PrivacyAwareEscrowView {
    type V = EscrowDisclosure;

    open spec fn view(&self) -> EscrowDisclosure {
        EscrowDisclosure {
            token: self.token@,
            amount: self.amount,
            owner: match self.owner {
                Some(o) => Some(o@),
                None => None,
            },
            status: self.status,
            created_at: self.created_at,
            expires_at: self.expires_at,
        }
    }
}

/// One end of a token transfer.
#[derive(Debug, PartialEq, Eq)]
pub enum Party {
    /// The contract's own custody.
    Custody,
    /// An outside account.
    Account(AccountId),
}

/// What a [`Party`] stands for.
pub enum PartyRecord {
    Custody,
    Account(Seq<u8>),
}

impl View for Party {
    type V = PartyRecord;

    open spec fn view(&self) -> PartyRecord {
        match self {
            Party::Custody => PartyRecord::Custody,
            Party::Account(a) => PartyRecord::Account(a@),
        }
    }
}

/// An order to move `amount` of `token` from one party to another.
///
/// The contract decides transfers; the token service carries them out.
#[derive(Debug, PartialEq, Eq)]
pub struct Transfer {
    /// The asset to move.
    pub token: AccountId,
    /// The party that pays.
    pub from: Party,
    /// The party that receives.
    pub to: Party,
    /// The exact amount, in the asset's base units.
    pub amount: i128,
}

/// What a [`Transfer`] stands for.
pub struct TransferRecord {
    pub token: Seq<u8>,
    pub from: PartyRecord,
    pub to: PartyRecord,
    pub amount: i128,
}

impl View for Transfer {
    type V = TransferRecord;

    open spec fn view(&self) -> TransferRecord {
        TransferRecord { token: self.token@, from: self.from@, to: self.to@, amount: self.amount }
    }
}

} // verus!
