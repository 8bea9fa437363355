//! The commitment scheme: determinism, spread, binding and input limits.

use quickex::commitment::{create_amount_commitment, digests_equal, verify_amount_commitment};
use quickex::{AccountId, QuickexContract, QuickexError};
use soroban_sdk::xdr::{FromXdr, ToXdr};
use soroban_sdk::{Address, Bytes, Env};

/// An account address whose key is 32 times the byte `seed`.
fn address(env: &Env, seed: u8) -> Address {
    let mut xdr = vec![0u8, 0, 0, 18, 0, 0, 0, 0, 0, 0, 0, 0];
    xdr.extend_from_slice(&[seed; 32]);
    Address::from_xdr(env, &Bytes::from_slice(env, &xdr)).unwrap()
}

/// The library's value for `address`: its canonical serialization.
fn account(env: &Env, address: &Address) -> AccountId {
    let encoding: Vec<u8> = address.clone().to_xdr(env).iter().collect();
    AccountId::from_encoding(encoding).unwrap()
}

fn generate(env: &Env, seed: u8) -> AccountId {
    account(env, &address(env, seed))
}

/// The commitment as the host's own byte strings and hash give it.
fn host_commitment(env: &Env, owner: &Address, amount: i128, salt: &[u8]) -> [u8; 32] {
    let mut data = Bytes::new(env);
    data.append(&owner.clone().to_xdr(env));
    data.append(&Bytes::from_slice(env, &amount.to_be_bytes()));
    data.append(&Bytes::from_slice(env, salt));
    env.crypto().sha256(&data).to_array()
}

// Determinism: same inputs, same commitment.

#[test]
fn test_commitment_deterministic_hashing() {
    let env = Env::default();
    let owner = generate(&env, 1);
    let amount = 1_000_000i128;
    let salt = b"deterministic_salt";

    let commitment1 = QuickexContract::create_amount_commitment(&owner, amount, salt).unwrap();
    let commitment2 = QuickexContract::create_amount_commitment(&owner, amount, salt).unwrap();

    assert_eq!(commitment1, commitment2);
}

#[test]
fn test_commitment_deterministic_multiple_calls() {
    let env = Env::default();
    let owner = generate(&env, 1);
    let amount = 5_000i128;
    let salt = b"repeat_test";

    let mut commitments = Vec::new();
    for _ in 0..10 {
        commitments.push(QuickexContract::create_amount_commitment(&owner, amount, salt).unwrap());
    }

    for i in 1..commitments.len() {
        assert_eq!(commitments[0], commitments[i]);
    }
}

// Spread: different inputs, different commitments.

#[test]
fn test_commitment_different_amounts_different_hashes() {
    let env = Env::default();
    let owner = generate(&env, 1);
    let salt = b"amount_test";

    let amounts = [1i128, 100, 1_000, 10_000, 100_000, 1_000_000, i128::MAX];
    let mut commitments = Vec::new();

    for &amount in &amounts {
        commitments.push(QuickexContract::create_amount_commitment(&owner, amount, salt).unwrap());
    }

    for i in 0..commitments.len() {
        for j in (i + 1)..commitments.len() {
            assert_ne!(commitments[i], commitments[j]);
        }
    }
}

#[test]
fn test_commitment_different_salts_different_hashes() {
    let env = Env::default();
    let owner = generate(&env, 1);
    let amount = 1_000i128;

    let salts: [&[u8]; 5] = [
        b"salt1",
        b"salt2",
        b"different",
        b"x",
        b"very_long_salt_string_for_testing",
    ];

    let mut commitments = Vec::new();
    for salt in &salts {
        commitments.push(QuickexContract::create_amount_commitment(&owner, amount, salt).unwrap());
    }

    for i in 0..commitments.len() {
        for j in (i + 1)..commitments.len() {
            assert_ne!(commitments[i], commitments[j]);
        }
    }
}

#[test]
fn test_commitment_multiple_owners_different_hashes() {
    let env = Env::default();
    let amount = 1_000i128;
    let salt = b"owner_test";

    let owners = [
        generate(&env, 1),
        generate(&env, 2),
        generate(&env, 3),
        generate(&env, 4),
        generate(&env, 5),
    ];

    let mut commitments = Vec::new();
    for owner in &owners {
        commitments.push(QuickexContract::create_amount_commitment(owner, amount, salt).unwrap());
    }

    for i in 0..commitments.len() {
        for j in (i + 1)..commitments.len() {
            assert_ne!(commitments[i], commitments[j]);
        }
    }
}

// Hiding: the commitment has one size whatever the amount.

#[test]
fn test_commitment_no_amount_leakage() {
    let env = Env::default();
    let owner = generate(&env, 1);
    let salt = b"hiding_test";

    let small_amount = 1i128;
    let large_amount = i128::MAX;

    let commitment_small = QuickexContract::create_amount_commitment(&owner, small_amount, salt).unwrap();
    let commitment_large = QuickexContract::create_amount_commitment(&owner, large_amount, salt).unwrap();

    assert_eq!(commitment_small.len(), 32);
    assert_eq!(commitment_large.len(), 32);
    assert_ne!(commitment_small, commitment_large);
}

#[test]
fn test_commitment_empty_salt() {
    let env = Env::default();
    let owner = generate(&env, 1);
    let amount = 1_000i128;
    let empty_salt: &[u8] = &[];

    let commitment = QuickexContract::create_amount_commitment(&owner, amount, empty_salt).unwrap();
    assert_eq!(commitment.len(), 32);
}

// Binding: verification accepts the opening and nothing else.

#[test]
fn test_create_and_verify_commitment_success() {
    let env = Env::default();
    let owner = generate(&env, 1);
    let amount = 5_000i128;
    let salt = b"binding_test";

    let commitment = QuickexContract::create_amount_commitment(&owner, amount, salt).unwrap();
    let is_valid = QuickexContract::verify_amount_commitment(&commitment, &owner, amount, salt);

    assert!(is_valid);
}

#[test]
fn test_verify_commitment_with_tampered_amount() {
    let env = Env::default();
    let owner = generate(&env, 1);
    let original_amount = 1_000i128;
    let tampered_amount = 1_001i128;
    let salt = b"tamper_amount";

    let commitment = QuickexContract::create_amount_commitment(&owner, original_amount, salt).unwrap();
    let is_valid = QuickexContract::verify_amount_commitment(&commitment, &owner, tampered_amount, salt);

    assert!(!is_valid);
}

#[test]
fn test_verify_commitment_with_tampered_salt() {
    let env = Env::default();
    let owner = generate(&env, 1);
    let amount = 1_000i128;
    let original_salt = b"original";
    let tampered_salt = b"tampered";

    let commitment = QuickexContract::create_amount_commitment(&owner, amount, original_salt).unwrap();
    let is_valid = QuickexContract::verify_amount_commitment(&commitment, &owner, amount, tampered_salt);

    assert!(!is_valid);
}

#[test]
fn test_verify_commitment_with_different_owner() {
    let env = Env::default();
    let original_owner = generate(&env, 1);
    let different_owner = generate(&env, 2);
    let amount = 1_000i128;
    let salt = b"owner_binding";

    let commitment = QuickexContract::create_amount_commitment(&original_owner, amount, salt).unwrap();
    let is_valid = QuickexContract::verify_amount_commitment(&commitment, &different_owner, amount, salt);

    assert!(!is_valid);
}

// Limits on the inputs.

#[test]
fn test_commitment_zero_amount() {
    let env = Env::default();
    let owner = generate(&env, 1);
    let amount = 0i128;
    let salt = b"zero_test";

    let commitment = QuickexContract::create_amount_commitment(&owner, amount, salt).unwrap();
    assert_eq!(commitment.len(), 32);
}

#[test]
fn test_commitment_large_amount() {
    let env = Env::default();
    let owner = generate(&env, 1);
    let amount = i128::MAX;
    let salt = b"max_amount";

    let commitment = QuickexContract::create_amount_commitment(&owner, amount, salt).unwrap();
    assert_eq!(commitment.len(), 32);
}

#[test]
fn negative_amount_is_invalid_amount() {
    let env = Env::default();
    let owner = generate(&env, 1);

    assert_eq!(
        QuickexContract::create_amount_commitment(&owner, -1, b"negative_test"),
        Err(QuickexError::InvalidAmount)
    );
    assert_eq!(
        create_amount_commitment(&owner, i128::MIN, b""),
        Err(QuickexError::InvalidAmount)
    );
}

#[test]
fn salt_of_1025_bytes_is_invalid_salt() {
    let env = Env::default();
    let owner = generate(&env, 1);
    let large_salt = vec![0xFFu8; 1025];

    assert_eq!(
        QuickexContract::create_amount_commitment(&owner, 1_000, &large_salt),
        Err(QuickexError::InvalidSalt)
    );
}

#[test]
fn salt_of_1024_bytes_is_accepted() {
    let env = Env::default();
    let owner = address(&env, 1);
    let salt = vec![0xFFu8; 1024];

    let commitment = QuickexContract::create_amount_commitment(&account(&env, &owner), 1_000, &salt);
    assert_eq!(commitment, Ok(host_commitment(&env, &owner, 1_000, &salt)));
}

#[test]
fn negative_amount_is_reported_before_long_salt() {
    let env = Env::default();
    let owner = generate(&env, 1);
    let large_salt = vec![0u8; 2000];

    assert_eq!(
        create_amount_commitment(&owner, -5, &large_salt),
        Err(QuickexError::InvalidAmount)
    );
}

#[test]
fn verification_of_invalid_values_is_false() {
    let env = Env::default();
    let owner = generate(&env, 1);
    let commitment = create_amount_commitment(&owner, 10, b"s").unwrap();
    let large_salt = vec![0u8; 1025];

    assert!(!verify_amount_commitment(&commitment, &owner, -10, b"s"));
    assert!(!verify_amount_commitment(&commitment, &owner, 10, &large_salt));
}

// Batches.

#[test]
fn test_commitment_property_uniqueness_batch() {
    let env = Env::default();
    let owner = generate(&env, 1);

    let test_cases = [
        (1i128, b"salt_a" as &[u8]),
        (2, b"salt_b"),
        (100, b"salt_c"),
        (1_000, b"salt_a"),
        (1, b"salt_b"),
        (1_000_000, b"unique"),
        (999_999, b"unique"),
        (1_000_000, b"different"),
    ];

    let mut commitments = Vec::new();
    for (amount, salt_bytes) in &test_cases {
        commitments.push((
            *amount,
            salt_bytes,
            QuickexContract::create_amount_commitment(&owner, *amount, salt_bytes).unwrap(),
        ));
    }

    for i in 0..commitments.len() {
        for j in (i + 1)..commitments.len() {
            let (amt_i, salt_i, comm_i) = &commitments[i];
            let (amt_j, salt_j, comm_j) = &commitments[j];

            if amt_i == amt_j && salt_i == salt_j {
                assert_eq!(comm_i, comm_j, "Same inputs must produce same commitment");
            } else {
                assert_ne!(
                    comm_i, comm_j,
                    "Different inputs must produce different commitments"
                );
            }
        }
    }
}

#[test]
fn test_commitment_property_verification_consistency() {
    let env = Env::default();

    let test_vectors = [
        (generate(&env, 1), 100i128, b"test1" as &[u8]),
        (generate(&env, 2), 500, b"test2"),
        (generate(&env, 3), 1_000_000, b"long_salt_string"),
        (generate(&env, 4), 0, b"zero"),
        (generate(&env, 5), i128::MAX - 1, b"near_max"),
    ];

    for (owner, amount, salt) in &test_vectors {
        let commitment = QuickexContract::create_amount_commitment(owner, *amount, salt).unwrap();

        assert!(QuickexContract::verify_amount_commitment(&commitment, owner, *amount, salt));

        if *amount < i128::MAX {
            let wrong_amount = amount + 1;
            assert!(!QuickexContract::verify_amount_commitment(&commitment, owner, wrong_amount, salt));
        }

        assert!(!QuickexContract::verify_amount_commitment(&commitment, owner, *amount, b"wrong"));

        let wrong_owner = generate(&env, 99);
        assert!(!QuickexContract::verify_amount_commitment(&commitment, &wrong_owner, *amount, salt));
    }
}

#[test]
fn test_commitment_cycle() {
    let env = Env::default();
    let owner = generate(&env, 1);
    let amount = 1_000_000i128;
    let salt = b"random_salt";

    let commitment = QuickexContract::create_amount_commitment(&owner, amount, salt).unwrap();

    let is_valid = QuickexContract::verify_amount_commitment(&commitment, &owner, amount, salt);
    assert!(is_valid);

    let is_valid_bad_amount =
        QuickexContract::verify_amount_commitment(&commitment, &owner, 2_000_000i128, salt);
    assert!(!is_valid_bad_amount);

    let is_valid_bad_salt =
        QuickexContract::verify_amount_commitment(&commitment, &owner, amount, b"wrong_salt");
    assert!(!is_valid_bad_salt);
}

// Exact values.

#[test]
fn commitment_is_sha256_of_encoding_amount_and_salt() {
    let env = Env::default();
    let owner = generate(&env, 7);

    let commitment = create_amount_commitment(&owner, 1000, b"test_salt_123").unwrap();

    assert_eq!(
        commitment,
        [
            198, 202, 210, 243, 199, 233, 22, 13, 117, 170, 138, 57, 86, 79, 76, 45, 75, 129, 149,
            111, 18, 67, 210, 222, 14, 179, 124, 108, 195, 77, 21, 86
        ]
    );
}

#[test]
fn commitment_of_largest_amount() {
    let env = Env::default();
    let owner = generate(&env, 2);

    let commitment = create_amount_commitment(&owner, i128::MAX, b"max_amount").unwrap();

    assert_eq!(
        commitment,
        [
            170, 75, 150, 19, 0, 2, 87, 196, 64, 57, 161, 174, 80, 42, 232, 115, 153, 141, 181, 30,
            213, 10, 88, 20, 157, 12, 234, 48, 82, 41, 94, 120
        ]
    );
}

#[test]
fn commitment_of_zero_amount_and_empty_salt() {
    let env = Env::default();
    let owner = generate(&env, 1);

    let commitment = create_amount_commitment(&owner, 0, b"").unwrap();

    assert_eq!(
        commitment,
        [
            158, 204, 112, 13, 159, 79, 191, 238, 246, 42, 79, 251, 186, 15, 66, 146, 206, 158, 26,
            54, 98, 155, 232, 195, 66, 107, 16, 80, 208, 89, 243, 199
        ]
    );
}

#[test]
fn commitment_of_empty_encoding() {
    let owner = AccountId::from_encoding(Vec::new()).unwrap();

    let commitment = create_amount_commitment(&owner, 1, b"").unwrap();

    assert_eq!(
        commitment,
        [
            124, 60, 205, 16, 187, 126, 195, 123, 70, 211, 121, 38, 174, 98, 116, 38, 127, 0, 122,
            52, 174, 175, 21, 200, 130, 167, 21, 167, 243, 48, 5, 41
        ]
    );
}

#[test]
fn commitment_agrees_with_the_host() {
    let env = Env::default();
    for seed in [0u8, 1, 200] {
        let owner = address(&env, seed);
        for amount in [0i128, 1, 255, 256, 65_535, 1_000_000, i128::MAX] {
            for salt in [b"" as &[u8], b"a", b"regression_golden_salt"] {
                assert_eq!(
                    create_amount_commitment(&account(&env, &owner), amount, salt),
                    Ok(host_commitment(&env, &owner, amount, salt))
                );
            }
        }
    }
}

#[test]
fn commitment_of_longest_encoding_and_salt() {
    let encoding = vec![3u8; 64496];
    let salt = vec![4u8; 1024];
    let owner = AccountId::from_encoding(encoding).unwrap();

    let first = create_amount_commitment(&owner, 9, &salt).unwrap();
    let second = create_amount_commitment(&owner, 9, &salt).unwrap();

    assert_eq!(first, second);
    assert!(verify_amount_commitment(&first, &owner, 9, &salt));
}

#[test]
fn digests_equal_compares_all_bytes() {
    let a = [5u8; 32];
    let mut b = [5u8; 32];
    assert!(digests_equal(&a, &b));
    b[31] = 6;
    assert!(!digests_equal(&a, &b));
    b[31] = 5;
    b[0] = 6;
    assert!(!digests_equal(&a, &b));
}

// Account identifiers.

#[test]
fn account_id_keeps_its_encoding() {
    let env = Env::default();
    let address = address(&env, 9);
    let id = account(&env, &address);

    assert_eq!(id.encoding().len(), 44);
    assert_eq!(&id.encoding()[..12], &[0u8, 0, 0, 18, 0, 0, 0, 0, 0, 0, 0, 0]);
    assert_eq!(&id.encoding()[12..], &[9u8; 32]);
    assert_eq!(id.clone(), id);
    assert_ne!(id, generate(&env, 10));
}

#[test]
fn account_id_refuses_an_encoding_that_is_too_long() {
    assert!(AccountId::from_encoding(vec![0u8; 64496]).is_some());
    assert!(AccountId::from_encoding(vec![0u8; 64497]).is_none());
}
