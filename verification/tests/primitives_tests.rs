//! Checked arithmetic and address derivation.

use challenger::address::{
    address_to_bytes, derive_challenge_address, derive_crux_authority, derive_submission_address,
    derive_treasury_address, derive_user_profile_address, Address,
};
use challenger::errors::ErrorCode;
use challenger::math::{try_add, try_sub};

use anchor_lang::solana_program::pubkey::Pubkey;

fn addr(n: u64) -> Address {
    Address {
        w0: n,
        w1: n.wrapping_mul(31),
        w2: n.wrapping_add(7),
        w3: n ^ 0x5a5a,
    }
}

#[test]
fn try_add_exact() {
    assert_eq!(try_add(3, 4), Ok(7));
    assert_eq!(try_add(0, 0), Ok(0));
    assert_eq!(try_add(u64::MAX - 1, 1), Ok(u64::MAX));
}

#[test]
fn try_add_overflow_fails() {
    assert_eq!(try_add(u64::MAX, 1), Err(ErrorCode::Overflow));
    assert_eq!(try_add(u64::MAX / 2 + 1, u64::MAX / 2 + 1), Err(ErrorCode::Overflow));
}

#[test]
fn try_sub_exact() {
    assert_eq!(try_sub(7, 4), Ok(3));
    assert_eq!(try_sub(5, 5), Ok(0));
    assert_eq!(try_sub(u64::MAX, 0), Ok(u64::MAX));
}

#[test]
fn try_sub_underflow_fails() {
    assert_eq!(try_sub(3, 4), Err(ErrorCode::Underflow));
    assert_eq!(try_sub(0, 1), Err(ErrorCode::Underflow));
}

#[test]
fn derivation_is_deterministic() {
    let crux = addr(1);
    let program = addr(2);
    let a = derive_treasury_address(&crux, &program);
    let b = derive_treasury_address(&crux, &program);
    assert_eq!(a, b);
    let (t, bump) = a.expect("a treasury address derives for these inputs");
    let (t2, bump2) = b.unwrap();
    assert_eq!(t, t2);
    assert_eq!(bump, bump2);
}

#[test]
fn derivation_depends_on_role_and_inputs() {
    let crux = addr(1);
    let owner = addr(3);
    let program = addr(2);
    let treasury = derive_treasury_address(&crux, &program).unwrap().0;
    let authority = derive_crux_authority(&crux, &program).unwrap().0;
    let profile = derive_user_profile_address(&crux, &owner, &program).unwrap().0;
    let challenge = derive_challenge_address(&crux, &owner, &program).unwrap().0;
    let submission = derive_submission_address(&crux, &owner, &program).unwrap().0;
    assert_ne!(treasury, crux);
    assert_ne!(treasury, authority);
    assert_ne!(profile, treasury);
    assert_ne!(challenge, profile);
    assert_ne!(submission, challenge);
    let other_owner = addr(4);
    let other_profile = derive_user_profile_address(&crux, &other_owner, &program).unwrap().0;
    assert_ne!(profile, other_profile);
}

#[test]
fn derivation_matches_host_search() {
    // The same search, made directly against the host primitive over the
    // same seed bytes, must land on the same address and bump.
    let crux = addr(9);
    let program = addr(10);
    let crux_bytes = address_to_bytes(&crux);
    let program_key = Pubkey::new_from_array(address_to_bytes(&program).try_into().unwrap());
    let expected =
        Pubkey::try_find_program_address(&[b"treasury".as_slice(), crux_bytes.as_slice()], &program_key)
            .expect("a treasury address derives for these inputs");
    let (derived, bump) = derive_treasury_address(&crux, &program).unwrap();
    assert_eq!(address_to_bytes(&derived), expected.0.to_bytes().to_vec());
    assert_eq!(bump, expected.1);
}

#[test]
fn authority_derivation_matches_host_search() {
    let crux = addr(11);
    let program = addr(12);
    let crux_bytes = address_to_bytes(&crux);
    let program_key = Pubkey::new_from_array(address_to_bytes(&program).try_into().unwrap());
    let expected = Pubkey::try_find_program_address(&[b"".as_slice(), crux_bytes.as_slice()], &program_key)
        .expect("an authority address derives for these inputs");
    let (derived, bump) = derive_crux_authority(&crux, &program).unwrap();
    assert_eq!(address_to_bytes(&derived), expected.0.to_bytes().to_vec());
    assert_eq!(bump, expected.1);
}

#[test]
fn address_bytes_are_little_endian_words() {
    let a = Address { w0: 1, w1: 2, w2: 3, w3: 0x0102030405060708 };
    let b = address_to_bytes(&a);
    assert_eq!(b.len(), 32);
    assert_eq!(b[0], 1);
    assert_eq!(&b[1..8], &[0; 7]);
    assert_eq!(b[8], 2);
    assert_eq!(b[16], 3);
    assert_eq!(&b[24..32], &[8, 7, 6, 5, 4, 3, 2, 1]);
}
