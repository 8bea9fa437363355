//! The commitment scheme.
//!
//! A commitment binds an owner, an amount and a salt:
//!
//! ```text
//! commitment = SHA-256(encoding(owner) || amount as 16 big-endian bytes || salt)
//! ```
//!
//! The same three values always give the same commitment. Whoever presents
//! values that reproduce a commitment has opened it. Finding two openings of
//! one commitment means finding a SHA-256 collision; nothing here proves that
//! to be hard.

use crate::encoding::{
    above_digits,
    big_endian,
    lemma_big_endian_injective,
    lemma_big_endian_len,
    push_big_endian,
};
use crate::errors::QuickexError;
use crate::hash::{sha256, sha256_digest};
use crate::table::bytes_equal;
use crate::types::AccountId;
use vstd::prelude::*;

verus! {

/// Longest salt, in bytes, that a commitment takes.
pub const MAX_SALT_LEN: usize = 1024;

/// Number of bytes that the amount takes in the hashed message.
pub const AMOUNT_LEN: usize = 16;

/// The 16 bytes that stand for a non-negative `amount` in the hashed message.
pub open spec fn amount_bytes(amount: i128) -> Seq<u8> {
    big_endian(amount as nat, AMOUNT_LEN as nat)
}

/// The message that is hashed for (owner, amount, salt).
pub open spec fn commitment_message(owner: Seq<u8>, amount: i128, salt: Seq<u8>) -> Seq<u8> {
    owner + amount_bytes(amount) + salt
}

/// What creating a commitment for (owner, amount, salt) gives: the digest of
/// the message, unless the amount is negative or the salt too long.
pub open spec fn commitment_for(owner: Seq<u8>, amount: i128, salt: Seq<u8>) -> Result<
    Seq<u8>,
    QuickexError,
> {
    if amount < 0 {
        Err(QuickexError::InvalidAmount)
    } else if salt.len() > MAX_SALT_LEN {
        Err(QuickexError::InvalidSalt)
    } else {
        Ok(sha256_digest(commitment_message(owner, amount, salt)))
    }
}

/// Whether `result` holds the bytes, or the error, that `expected` names.
pub open spec fn yields(result: Result<[u8; 32], QuickexError>, expected: Result<Seq<u8>, QuickexError>) -> bool {
    match expected {
        Ok(digest) => result matches Ok(bytes) && bytes@ == digest,
        Err(error) => result == Err::<[u8; 32], QuickexError>(error),
    }
}

/// Computes the commitment to (owner, amount, salt).
///
/// Fails with `InvalidAmount` for a negative amount, else with `InvalidSalt`
/// for a salt of more than 1024 bytes.
pub fn create_amount_commitment(owner: &AccountId, amount: i128, salt: &[u8]) -> (result: Result<
    [u8; 32],
    QuickexError,
>)
    ensures
        yields(result, commitment_for(owner@, amount, salt@)),
{
    if amount < 0 {
        return Err(QuickexError::InvalidAmount);
    }
    if salt.len() > MAX_SALT_LEN {
        return Err(QuickexError::InvalidSalt);
    }
    let mut message: Vec<u8> = Vec::new();
    message.extend_from_slice(owner.encoding().as_slice());
    push_big_endian(&mut message, amount as u128, AMOUNT_LEN);
    message.extend_from_slice(salt);
    proof {
        lemma_big_endian_len(amount as nat, AMOUNT_LEN as nat);
        assert(message@ =~= commitment_message(owner@, amount, salt@));
    }
    Ok(sha256(&message))
}

/// Whether two digests hold the same bytes.
pub fn digests_equal(a: &[u8; 32], b: &[u8; 32]) -> (same: bool)
    ensures
        same == (a@ == b@),
{
    bytes_equal(a.as_slice(), b.as_slice())
}

/// Whether (owner, amount, salt) opens `commitment`.
///
/// Values for which no commitment can be created open nothing.
pub fn verify_amount_commitment(commitment: &[u8; 32], owner: &AccountId, amount: i128, salt: &[u8]) -> (opens:
    bool)
    ensures
        opens == (commitment_for(owner@, amount, salt@) == Ok::<Seq<u8>, QuickexError>(commitment@)),
{
    match create_amount_commitment(owner, amount, salt) {
        Ok(hash) => digests_equal(&hash, commitment),
        Err(_) => false,
    }
}

/// Different non-negative amounts have different bytes in the message.
pub proof fn lemma_amount_bytes_injective(first: i128, second: i128)
    requires
        first >= 0,
        second >= 0,
        amount_bytes(first) == amount_bytes(second),
    ensures
        first == second,
{
    reveal_with_fuel(above_digits, 17);
    assert(above_digits(first as nat, 16) == 0);
    assert(above_digits(second as nat, 16) == 0);
    lemma_big_endian_injective(first as nat, second as nat, 16);
}

/// Among owners with encodings of one length, the message determines the
/// owner, the amount and the salt.
pub proof fn lemma_message_injective(
    owner: Seq<u8>,
    amount: i128,
    salt: Seq<u8>,
    other_owner: Seq<u8>,
    other_amount: i128,
    other_salt: Seq<u8>,
)
    requires
        amount >= 0,
        other_amount >= 0,
        owner.len() == other_owner.len(),
        commitment_message(owner, amount, salt) == commitment_message(other_owner, other_amount, other_salt),
    ensures
        owner == other_owner,
        amount == other_amount,
        salt == other_salt,
{
    let message = commitment_message(owner, amount, salt);
    let other = commitment_message(other_owner, other_amount, other_salt);
    let n = owner.len() as int;
    lemma_big_endian_len(amount as nat, AMOUNT_LEN as nat);
    lemma_big_endian_len(other_amount as nat, AMOUNT_LEN as nat);
    assert(message.subrange(0, n) =~= owner);
    assert(other.subrange(0, n) =~= other_owner);
    assert(message.subrange(n, n + 16) =~= amount_bytes(amount));
    assert(other.subrange(n, n + 16) =~= amount_bytes(other_amount));
    assert(message.subrange(n + 16, message.len() as int) =~= salt);
    assert(other.subrange(n + 16, other.len() as int) =~= other_salt);
    lemma_amount_bytes_injective(amount, other_amount);
}

/// Creating a commitment twice for the same owner, amount and salt gives
/// the same outcome: the same bytes, or the same error.
pub proof fn lemma_commitment_is_deterministic(
    owner: Seq<u8>,
    amount: i128,
    salt: Seq<u8>,
    first: Result<[u8; 32], QuickexError>,
    second: Result<[u8; 32], QuickexError>,
)
    requires
        yields(first, commitment_for(owner, amount, salt)),
        yields(second, commitment_for(owner, amount, salt)),
    ensures
        first == second,
{
    if first is Ok {
        assert(first->Ok_0@ =~= second->Ok_0@);
        assert(first->Ok_0 =~= second->Ok_0);
    }
}

/// A commitment is opened by the values that it was created for.
pub proof fn lemma_commitment_opens(owner: Seq<u8>, amount: i128, salt: Seq<u8>, commitment: [u8; 32])
    requires
        yields(Ok(commitment), commitment_for(owner, amount, salt)),
    ensures
        commitment_for(owner, amount, salt) == Ok::<Seq<u8>, QuickexError>(commitment@),
{
}

/// What opens a commitment has a non-negative amount, a salt of at most
/// 1024 bytes, and a message whose digest is the commitment.
pub proof fn lemma_opening_hashes_to_commitment(owner: Seq<u8>, amount: i128, salt: Seq<u8>, commitment: Seq<u8>)
    requires
        commitment_for(owner, amount, salt) == Ok::<Seq<u8>, QuickexError>(commitment),
    ensures
        amount >= 0,
        salt.len() <= MAX_SALT_LEN,
        sha256_digest(commitment_message(owner, amount, salt)) == commitment,
{
}

/// Values that differ in the owner alone have different messages.
pub proof fn lemma_owner_changes_message(owner: Seq<u8>, other_owner: Seq<u8>, amount: i128, salt: Seq<u8>)
    requires
        owner != other_owner,
    ensures
        commitment_message(owner, amount, salt) != commitment_message(other_owner, amount, salt),
{
    let message = commitment_message(owner, amount, salt);
    let other = commitment_message(other_owner, amount, salt);
    if message == other {
        let rest = amount_bytes(amount) + salt;
        assert(message =~= owner + rest);
        assert(other =~= other_owner + rest);
        assert(message.len() == owner.len() + rest.len());
        assert(other.len() == other_owner.len() + rest.len());
        assert(message.subrange(0, owner.len() as int) =~= owner);
        assert(other.subrange(0, owner.len() as int) =~= other_owner);
    }
}

/// If two different openings open the same commitment, then their messages
/// are two different inputs with the same SHA-256 digest. This holds of
/// openings that differ in one of owner, amount and salt, and of all
/// openings by owners with encodings of one length.
pub proof fn lemma_second_opening_is_collision(
    commitment: Seq<u8>,
    owner: Seq<u8>,
    amount: i128,
    salt: Seq<u8>,
    other_owner: Seq<u8>,
    other_amount: i128,
    other_salt: Seq<u8>,
)
    requires
        commitment_for(owner, amount, salt) == Ok::<Seq<u8>, QuickexError>(commitment),
        commitment_for(other_owner, other_amount, other_salt) == Ok::<Seq<u8>, QuickexError>(commitment),
        owner != other_owner || amount != other_amount || salt != other_salt,
        owner.len() == other_owner.len() || (amount == other_amount && salt == other_salt),
    ensures
        commitment_message(owner, amount, salt) != commitment_message(other_owner, other_amount, other_salt),
        sha256_digest(commitment_message(owner, amount, salt)) == sha256_digest(
            commitment_message(other_owner, other_amount, other_salt),
        ),
{
    if owner.len() == other_owner.len() {
        if commitment_message(owner, amount, salt) == commitment_message(
            other_owner,
            other_amount,
            other_salt,
        ) {
            lemma_message_injective(owner, amount, salt, other_owner, other_amount, other_salt);
        }
    } else {
        lemma_owner_changes_message(owner, other_owner, amount, salt);
    }
}

} // verus!
