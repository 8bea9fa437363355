//! Error codes of the contract.
//!
//! Every error has a stable number. The numbers are grouped in bands:
//! 100-199 validation, 200-299 authorization and administration,
//! 300-399 state, escrow and commitment conflicts, 900-999 internal.

use vstd::prelude::*;

verus! {

/// What went wrong in a contract operation.
#[derive(Copy, Clone, Debug, PartialEq, Eq, PartialOrd, Ord, Structural)]
pub enum QuickexError {
    /// The amount is not acceptable for the operation.
    InvalidAmount,
    /// The salt is longer than the commitment scheme allows.
    InvalidSalt,
    /// The numeric privacy level is not acceptable.
    InvalidPrivacyLevel,
    /// The caller is not the administrator, or there is none.
    Unauthorized,
    /// The contract already has an administrator.
    AlreadyInitialized,
    /// The contract is paused.
    ContractPaused,
    /// The privacy flag already has the requested value.
    PrivacyAlreadySet,
    /// No escrow is stored under the commitment.
    CommitmentNotFound,
    /// An escrow is already stored under the commitment.
    CommitmentAlreadyExists,
    /// The escrow has left the pending state.
    AlreadySpent,
    /// The stored amount differs from the requested one.
    InvalidCommitment,
    /// A supplied commitment does not match its claimed opening.
    CommitmentMismatch,
    /// The escrow has passed its expiry; withdrawal is no longer possible.
    EscrowExpired,
    /// The escrow has not yet expired; refund is not yet available.
    EscrowNotExpired,
    /// The caller is not the original owner of the escrow.
    InvalidOwner,
    /// A condition that normal operation never reaches.
    InternalError,
}

/// The band that an error code falls in.
#[derive(Copy, Clone, Debug, PartialEq, Eq, Structural)]
pub enum ErrorBand {
    /// Codes 100 to 199: the request itself is malformed.
    Validation,
    /// Codes 200 to 299: the caller lacks the right.
    Authorization,
    /// Codes 300 to 399: the request conflicts with the stored state.
    State,
    /// Codes 900 to 999: unexpected conditions.
    Internal,
}

impl QuickexError {
    /// The stable number of this error.
    pub open spec fn spec_code(self) -> u32 {
        match self {
            QuickexError::InvalidAmount => 100,
            QuickexError::InvalidSalt => 101,
            QuickexError::InvalidPrivacyLevel => 102,
            QuickexError::Unauthorized => 200,
            QuickexError::AlreadyInitialized => 201,
            QuickexError::ContractPaused => 300,
            QuickexError::PrivacyAlreadySet => 301,
            QuickexError::CommitmentNotFound => 302,
            QuickexError::CommitmentAlreadyExists => 303,
            QuickexError::AlreadySpent => 304,
            QuickexError::InvalidCommitment => 305,
            QuickexError::CommitmentMismatch => 306,
            QuickexError::EscrowExpired => 307,
            QuickexError::EscrowNotExpired => 308,
            QuickexError::InvalidOwner => 309,
            QuickexError::InternalError => 900,
        }
    }

    /// The band of this error.
    pub open spec fn spec_band(self) -> ErrorBand {
        match self {
            QuickexError::InvalidAmount
            | QuickexError::InvalidSalt
            | QuickexError::InvalidPrivacyLevel => ErrorBand::Validation,
            QuickexError::Unauthorized | QuickexError::AlreadyInitialized => ErrorBand::Authorization,
            QuickexError::InternalError => ErrorBand::Internal,
            _ => ErrorBand::State,
        }
    }

    /// Whether an escrow or privacy operation reports this error before it
    /// asks the account concerned to authorize the call: the pause gate and
    /// the check of the amount come first, everything else after.
    pub open spec fn spec_precedes_authorization(self) -> bool {
        self == QuickexError::ContractPaused || self == QuickexError::InvalidAmount
    }

    /// The stable number of this error.
    pub fn code(self) -> (code: u32)
        ensures
            code == self.spec_code(),
    {
        match self {
            QuickexError::InvalidAmount => 100,
            QuickexError::InvalidSalt => 101,
            QuickexError::InvalidPrivacyLevel => 102,
            QuickexError::Unauthorized => 200,
            QuickexError::AlreadyInitialized => 201,
            QuickexError::ContractPaused => 300,
            QuickexError::PrivacyAlreadySet => 301,
            QuickexError::CommitmentNotFound => 302,
            QuickexError::CommitmentAlreadyExists => 303,
            QuickexError::AlreadySpent => 304,
            QuickexError::InvalidCommitment => 305,
            QuickexError::CommitmentMismatch => 306,
            QuickexError::EscrowExpired => 307,
            QuickexError::EscrowNotExpired => 308,
            QuickexError::InvalidOwner => 309,
            QuickexError::InternalError => 900,
        }
    }

    /// The error that carries `code`, if there is one.
    pub fn from_code(code: u32) -> (error: Option<QuickexError>)
        ensures
            match error {
                Some(e) => e.spec_code() == code,
                None => forall|e: QuickexError| e.spec_code() != code,
            },
    {
        match code {
            100 => Some(QuickexError::InvalidAmount),
            101 => Some(QuickexError::InvalidSalt),
            102 => Some(QuickexError::InvalidPrivacyLevel),
            200 => Some(QuickexError::Unauthorized),
            201 => Some(QuickexError::AlreadyInitialized),
            300 => Some(QuickexError::ContractPaused),
            301 => Some(QuickexError::PrivacyAlreadySet),
            302 => Some(QuickexError::CommitmentNotFound),
            303 => Some(QuickexError::CommitmentAlreadyExists),
            304 => Some(QuickexError::AlreadySpent),
            305 => Some(QuickexError::InvalidCommitment),
            306 => Some(QuickexError::CommitmentMismatch),
            307 => Some(QuickexError::EscrowExpired),
            308 => Some(QuickexError::EscrowNotExpired),
            309 => Some(QuickexError::InvalidOwner),
            900 => Some(QuickexError::InternalError),
            _ => None,
        }
    }

    /// The band of this error.
    pub fn band(self) -> (band: ErrorBand)
        ensures
            band == self.spec_band(),
    {
        match self {
            QuickexError::InvalidAmount
            | QuickexError::InvalidSalt
            | QuickexError::InvalidPrivacyLevel => ErrorBand::Validation,
            QuickexError::Unauthorized | QuickexError::AlreadyInitialized => ErrorBand::Authorization,
            QuickexError::InternalError => ErrorBand::Internal,
            _ => ErrorBand::State,
        }
    }
}

/// Two different errors never share a code.
pub proof fn lemma_codes_are_distinct(a: QuickexError, b: QuickexError)
    ensures
        a.spec_code() == b.spec_code() <==> a == b,
{
}

/// The code of an error lies in the hundred-range of its band.
pub proof fn lemma_code_lies_in_band(e: QuickexError)
    ensures
        e.spec_band() == ErrorBand::Validation <==> 100 <= e.spec_code() <= 199,
        e.spec_band() == ErrorBand::Authorization <==> 200 <= e.spec_code() <= 299,
        e.spec_band() == ErrorBand::State <==> 300 <= e.spec_code() <= 399,
        e.spec_band() == ErrorBand::Internal <==> 900 <= e.spec_code() <= 999,
{
}

} // verus!
