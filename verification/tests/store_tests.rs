//! The tenant store: lifecycle scenario, authorization and error paths.

use challenger::address::{
    derive_challenge_address, derive_crux_authority, derive_submission_address,
    derive_treasury_address, derive_user_profile_address, Address,
};
use challenger::errors::ErrorCode;
use challenger::sizes::challenge_footprint;
use challenger::state::{CruxFees, SubmissionState, Tags};
use challenger::store::{close_account, Operation, Store, PROFILE_FOOTPRINT};

fn addr(n: u64) -> Address {
    Address {
        w0: n,
        w1: n.wrapping_mul(131),
        w2: n.wrapping_add(17),
        w3: n ^ 0xbeef,
    }
}

const PROGRAM: u64 = 1000;
const CRUX: u64 = 1001;
const MANAGER: u64 = 1002;
const OWNER: u64 = 1003;
const SEED: u64 = 1004;

struct World {
    store: Store,
    program_id: Address,
    crux_address: Address,
    manager: Address,
    treasury: Address,
}

fn setup(fees: CruxFees) -> World {
    let program_id = addr(PROGRAM);
    let crux_address = addr(CRUX);
    let manager = addr(MANAGER);
    let authority = derive_crux_authority(&crux_address, &program_id).unwrap().0;
    let treasury = derive_treasury_address(&crux_address, &program_id).unwrap().0;
    let mut manager_wallet: u64 = 100_000;
    let store = Store::init_crux(
        program_id,
        crux_address,
        manager,
        fees,
        authority,
        treasury,
        1_000,
        50,
        &mut manager_wallet,
    )
    .expect("tenant setup succeeds with matching addresses and funds");
    assert_eq!(manager_wallet, 100_000 - 1_000 - 50);
    World { store, program_id, crux_address, manager, treasury }
}

fn profile_addr(w: &World, owner: Address) -> Address {
    derive_user_profile_address(&w.crux_address, &owner, &w.program_id).unwrap().0
}

fn challenge_addr(w: &World, seed: Address) -> Address {
    derive_challenge_address(&w.crux_address, &seed, &w.program_id).unwrap().0
}

#[test]
fn init_crux_rejects_wrong_authority() {
    let program_id = addr(PROGRAM);
    let crux_address = addr(CRUX);
    let treasury = derive_treasury_address(&crux_address, &program_id).unwrap().0;
    let mut wallet: u64 = 100_000;
    let r = Store::init_crux(
        program_id,
        crux_address,
        addr(MANAGER),
        CruxFees { profile_fee: 0, submission_fee: 0 },
        addr(4242),
        treasury,
        1_000,
        50,
        &mut wallet,
    );
    assert!(matches!(r, Err(ErrorCode::AddressMismatch)));
    assert_eq!(wallet, 100_000);
}

#[test]
fn init_crux_rejects_poor_manager() {
    let program_id = addr(PROGRAM);
    let crux_address = addr(CRUX);
    let authority = derive_crux_authority(&crux_address, &program_id).unwrap().0;
    let treasury = derive_treasury_address(&crux_address, &program_id).unwrap().0;
    let mut wallet: u64 = 10;
    let r = Store::init_crux(
        program_id,
        crux_address,
        addr(MANAGER),
        CruxFees { profile_fee: 0, submission_fee: 0 },
        authority,
        treasury,
        1_000,
        50,
        &mut wallet,
    );
    assert!(matches!(r, Err(ErrorCode::InsufficientFunds)));
    assert_eq!(wallet, 10);
}

#[test]
fn update_fees_is_manager_only() {
    let mut w = setup(CruxFees { profile_fee: 0, submission_fee: 0 });
    let new_fees = CruxFees { profile_fee: 5, submission_fee: 6 };
    let r = w.store.update_crux_params(addr(OWNER), new_fees);
    assert!(matches!(r, Err(ErrorCode::AddressMismatch)));
    let r = w.store.update_crux_params(w.manager, new_fees);
    assert!(r.is_ok());
    assert_eq!(w.store.crux.crux_fees, new_fees);
}

#[test]
fn payout_leaves_exactly_the_reserve() {
    let mut w = setup(CruxFees { profile_fee: 0, submission_fee: 0 });
    // Treasury started at its record reserve of 50.
    w.store.treasury_balance = 500;
    let mut receiver: u64 = 7;
    let r = w.store.payout_from_treasury(w.manager, w.treasury, 50, &mut receiver);
    assert!(r.is_ok());
    assert_eq!(w.store.treasury_balance, 50);
    assert_eq!(receiver, 7 + 450);
}

#[test]
fn payout_at_or_below_reserve_underflows() {
    let mut w = setup(CruxFees { profile_fee: 0, submission_fee: 0 });
    let mut receiver: u64 = 0;
    let r = w.store.payout_from_treasury(w.manager, w.treasury, 50, &mut receiver);
    assert!(matches!(r, Err(ErrorCode::Underflow)));
    let r = w.store.payout_from_treasury(w.manager, w.treasury, 60, &mut receiver);
    assert!(matches!(r, Err(ErrorCode::Underflow)));
    assert_eq!(receiver, 0);
}

#[test]
fn profile_fee_flows_into_treasury() {
    let mut w = setup(CruxFees { profile_fee: 100, submission_fee: 0 });
    let owner = addr(OWNER);
    let profile = profile_addr(&w, owner);
    let mut wallet: u64 = 1_000;
    let r = w.store.create_user_profile(owner, w.treasury, profile, 200, &mut wallet, 11);
    assert!(r.is_ok());
    assert_eq!(wallet, 1_000 - 200 - 100);
    assert_eq!(w.store.treasury_balance, 50 + 100);
    assert_eq!(w.store.crux.crux_counts.profile_count, 1);
    assert_eq!(w.store.profiles.len(), 1);
    let rec = &w.store.profiles[0];
    assert_eq!(rec.address, profile);
    assert_eq!(rec.balance, 200);
    assert_eq!(rec.footprint, PROFILE_FOOTPRINT);
    assert_eq!(rec.data.profile_owner, owner);
    assert_eq!(rec.data.crux, w.crux_address);
    assert_eq!(rec.data.profile_created_ts, 11);
    assert!(!rec.data.is_moderator);
}

#[test]
fn create_profile_twice_fails() {
    let mut w = setup(CruxFees { profile_fee: 0, submission_fee: 0 });
    let owner = addr(OWNER);
    let profile = profile_addr(&w, owner);
    let mut wallet: u64 = 1_000;
    assert!(w.store.create_user_profile(owner, w.treasury, profile, 200, &mut wallet, 1).is_ok());
    let r = w.store.create_user_profile(owner, w.treasury, profile, 200, &mut wallet, 2);
    assert!(matches!(r, Err(ErrorCode::AccountAlreadyExists)));
}

#[test]
fn create_profile_rejects_wrong_address() {
    let mut w = setup(CruxFees { profile_fee: 0, submission_fee: 0 });
    let owner = addr(OWNER);
    let mut wallet: u64 = 1_000;
    let r = w.store.create_user_profile(owner, w.treasury, addr(4711), 200, &mut wallet, 1);
    assert!(matches!(r, Err(ErrorCode::AddressMismatch)));
    assert_eq!(wallet, 1_000);
    assert_eq!(w.store.profiles.len(), 0);
}

#[test]
fn edit_profile_updates_media_and_engagement() {
    let mut w = setup(CruxFees { profile_fee: 0, submission_fee: 0 });
    let owner = addr(OWNER);
    let profile = profile_addr(&w, owner);
    let mut wallet: u64 = 1_000;
    assert!(w.store.create_user_profile(owner, w.treasury, profile, 200, &mut wallet, 1).is_ok());
    let mint = addr(777);
    let r = w.store.edit_user_profile(owner, profile, mint, 99);
    assert!(r.is_ok());
    assert_eq!(w.store.profiles[0].data.nft_pfp_token_mint, mint);
    assert_eq!(w.store.profiles[0].data.most_recent_engagement_ts, 99);
    let r = w.store.edit_user_profile(addr(4711), profile, mint, 100);
    assert!(matches!(r, Err(ErrorCode::AddressMismatch)));
}

#[test]
fn delete_profile_refunds_reserve() {
    let mut w = setup(CruxFees { profile_fee: 0, submission_fee: 0 });
    let owner = addr(OWNER);
    let profile = profile_addr(&w, owner);
    let mut wallet: u64 = 1_000;
    assert!(w.store.create_user_profile(owner, w.treasury, profile, 200, &mut wallet, 1).is_ok());
    let mut receiver: u64 = 3;
    let r = w.store.delete_user_profile(owner, profile, &mut receiver);
    assert!(r.is_ok());
    assert_eq!(receiver, 203);
    assert_eq!(w.store.crux.crux_counts.profile_count, 0);
    assert_eq!(w.store.profiles.len(), 0);
}

#[test]
fn moderator_flag_round_trip() {
    let mut w = setup(CruxFees { profile_fee: 0, submission_fee: 0 });
    let owner = addr(OWNER);
    let profile = profile_addr(&w, owner);
    let mut wallet: u64 = 1_000;
    assert!(w.store.create_user_profile(owner, w.treasury, profile, 200, &mut wallet, 1).is_ok());
    // Only the manager may grant or revoke.
    let r = w.store.add_moderator(owner, owner, profile);
    assert!(matches!(r, Err(ErrorCode::AddressMismatch)));
    assert!(w.store.add_moderator(w.manager, owner, profile).is_ok());
    assert!(w.store.profiles[0].data.is_moderator);
    assert!(w.store.remove_moderator(w.manager, owner, profile).is_ok());
    assert!(!w.store.profiles[0].data.is_moderator);
}

#[test]
fn challenge_validation_order() {
    let mut w = setup(CruxFees { profile_fee: 0, submission_fee: 0 });
    let owner = addr(OWNER);
    let profile = profile_addr(&w, owner);
    let mut wallet: u64 = 10_000;
    assert!(w.store.create_user_profile(owner, w.treasury, profile, 200, &mut wallet, 1).is_ok());
    assert!(w.store.add_moderator(w.manager, owner, profile).is_ok());
    let seed = addr(SEED);
    let challenge = challenge_addr(&w, seed);
    // Empty title is reported as an invalid string.
    let r = w.store.create_challenge(
        owner,
        profile,
        challenge,
        seed,
        300,
        vec![Tags::Development],
        String::new(),
        "https://content".to_string(),
        addr(42),
        1_000,
        10,
        &mut wallet,
        500,
    );
    assert!(matches!(r, Err(ErrorCode::InvalidStringInput)));
    // An over-long title is reported as too long.
    let r = w.store.create_challenge(
        owner,
        profile,
        challenge,
        seed,
        300,
        vec![Tags::Development],
        "t".repeat(257),
        "https://content".to_string(),
        addr(42),
        1_000,
        10,
        &mut wallet,
        500,
    );
    assert!(matches!(r, Err(ErrorCode::TitleOrUrlTooLong)));
    // An expiry that does not lie in the future is rejected.
    let r = w.store.create_challenge(
        owner,
        profile,
        challenge,
        seed,
        300,
        vec![Tags::Development],
        "title".to_string(),
        "https://content".to_string(),
        addr(42),
        500,
        10,
        &mut wallet,
        500,
    );
    assert!(matches!(r, Err(ErrorCode::InvalidExpiryTs)));
}

#[test]
fn edit_challenge_growth_charges_exactly_the_difference() {
    let mut w = setup(CruxFees { profile_fee: 0, submission_fee: 0 });
    let owner = addr(OWNER);
    let profile = profile_addr(&w, owner);
    let mut wallet: u64 = 100_000;
    assert!(w.store.create_user_profile(owner, w.treasury, profile, 200, &mut wallet, 1).is_ok());
    assert!(w.store.add_moderator(w.manager, owner, profile).is_ok());
    let seed = addr(SEED);
    let challenge = challenge_addr(&w, seed);
    let r = w.store.create_challenge(
        owner,
        profile,
        challenge,
        seed,
        300,
        vec![Tags::Development],
        "title".to_string(),
        "url".to_string(),
        addr(42),
        1_000,
        10,
        &mut wallet,
        500,
    );
    assert!(r.is_ok());
    let small = challenge_footprint(1, 5, 3);
    assert_eq!(w.store.challenges[0].footprint, small);
    assert_eq!(w.store.challenges[0].balance, 300);
    // Grow the title; the new reserve must be met exactly from the wallet.
    let wallet_before = wallet;
    let new_reserve = 900;
    let r = w.store.edit_challenge(
        owner,
        profile,
        challenge,
        seed,
        new_reserve,
        vec![Tags::Development, Tags::Ideas],
        "a much longer title than before".to_string(),
        "url".to_string(),
        addr(43),
        2_000,
        11,
        &mut wallet,
        600,
    );
    assert!(r.is_ok());
    let paid = new_reserve - 300;
    assert_eq!(wallet_before - wallet, paid);
    assert_eq!(w.store.challenges[0].balance, new_reserve);
    assert_eq!(w.store.challenges[0].footprint, challenge_footprint(2, 31, 3));
    assert_eq!(w.store.challenges[0].data.title, "a much longer title than before");
    assert_eq!(w.store.challenges[0].data.challenge_expires_ts, 2_000);
    // A shrinking edit pays nothing.
    let wallet_before = wallet;
    let r = w.store.edit_challenge(
        owner,
        profile,
        challenge,
        seed,
        12_345,
        vec![Tags::Development],
        "short".to_string(),
        "url".to_string(),
        addr(44),
        2_000,
        11,
        &mut wallet,
        600,
    );
    assert!(r.is_ok());
    assert_eq!(wallet, wallet_before);
    assert_eq!(w.store.challenges[0].balance, new_reserve);
}

#[test]
fn delete_challenge_is_moderator_only() {
    let mut w = setup(CruxFees { profile_fee: 0, submission_fee: 0 });
    let owner = addr(OWNER);
    let profile = profile_addr(&w, owner);
    let mut wallet: u64 = 10_000;
    assert!(w.store.create_user_profile(owner, w.treasury, profile, 200, &mut wallet, 1).is_ok());
    assert!(w.store.add_moderator(w.manager, owner, profile).is_ok());
    let seed = addr(SEED);
    let challenge = challenge_addr(&w, seed);
    assert!(w
        .store
        .create_challenge(
            owner,
            profile,
            challenge,
            seed,
            300,
            vec![Tags::Development],
            "title".to_string(),
            "url".to_string(),
            addr(42),
            1_000,
            10,
            &mut wallet,
            500,
        )
        .is_ok());
    assert!(w.store.remove_moderator(w.manager, owner, profile).is_ok());
    let mut receiver: u64 = 0;
    let r = w.store.delete_challenge(owner, profile, challenge, seed, &mut receiver, 700);
    assert!(matches!(r, Err(ErrorCode::ProfileIsNotModerator)));
    assert!(w.store.add_moderator(w.manager, owner, profile).is_ok());
    let r = w.store.delete_challenge(owner, profile, challenge, seed, &mut receiver, 700);
    assert!(r.is_ok());
    assert_eq!(receiver, 300);
    assert_eq!(w.store.crux.crux_counts.challenge_count, 0);
}

#[test]
fn scenario_full_lifecycle() {
    // A tenant with a profile fee of 100 and no submission fee, driven
    // through the whole lifecycle by its operations.
    let mut w = setup(CruxFees { profile_fee: 100, submission_fee: 0 });
    let owner = addr(OWNER);
    let profile = profile_addr(&w, owner);
    let mut wallet: u64 = 10_000;
    let mut receiver: u64 = 0;

    // Creating the profile moves the fee into the treasury.
    let treasury_before = w.store.treasury_balance;
    let r = w.store.create_user_profile(owner, w.treasury, profile, 200, &mut wallet, 100);
    assert!(r.is_ok());
    assert_eq!(wallet, 10_000 - 200 - 100);
    assert_eq!(w.store.treasury_balance, treasury_before + 100);
    assert_eq!(w.store.crux.crux_counts.profile_count, 1);

    // A plain profile may not create challenges.
    let seed = addr(SEED);
    let challenge = challenge_addr(&w, seed);
    let r = w.store.create_challenge(
        owner,
        profile,
        challenge,
        seed,
        300,
        vec![Tags::Ideas],
        "title".to_string(),
        "https://content".to_string(),
        addr(42),
        2_000,
        25,
        &mut wallet,
        1_000,
    );
    assert!(matches!(r, Err(ErrorCode::ProfileIsNotModerator)));

    // After the manager grants the flag, it may.
    assert!(w.store.add_moderator(w.manager, owner, profile).is_ok());
    let r = w.store.create_challenge(
        owner,
        profile,
        challenge,
        seed,
        300,
        vec![Tags::Ideas],
        "title".to_string(),
        "https://content".to_string(),
        addr(42),
        2_000,
        25,
        &mut wallet,
        1_000,
    );
    assert!(r.is_ok());
    assert_eq!(w.store.crux.crux_counts.challenge_count, 1);

    // A submission against the challenge once expired is rejected...
    let submission = derive_submission_address(&challenge, &profile, &w.program_id).unwrap().0;
    let r = w.store.create_submission(
        owner,
        w.treasury,
        profile,
        challenge,
        seed,
        submission,
        150,
        &mut wallet,
        3_000,
    );
    assert!(matches!(r, Err(ErrorCode::ChallengeExpired)));

    // ...and accepted while the challenge lives.
    let r = w.store.create_submission(
        owner,
        w.treasury,
        profile,
        challenge,
        seed,
        submission,
        150,
        &mut wallet,
        1_500,
    );
    assert!(r.is_ok());
    assert_eq!(w.store.crux.crux_counts.submission_count, 1);
    assert_eq!(w.store.profiles[0].data.challenges_submitted, 1);
    assert_eq!(w.store.submissions[0].data.submission_state, SubmissionState::Pending);

    // The owner deletes the pending submission.
    let r = w.store.delete_submission(
        owner,
        profile,
        challenge,
        seed,
        submission,
        &mut receiver,
        1_600,
    );
    assert!(r.is_ok());
    assert_eq!(w.store.crux.crux_counts.submission_count, 0);
    assert_eq!(w.store.profiles[0].data.challenges_submitted, 0);
    assert_eq!(receiver, 150);

    // Closing the tenant is refused while children live.
    let r = w.store.close_crux(w.manager, w.treasury, &mut receiver);
    assert!(matches!(r, Err(ErrorCode::NotAllChildrenClosed)));
    assert!(w.store.live);

    // Tear the rest down, then closing succeeds and refunds both records.
    assert!(w
        .store
        .delete_challenge(owner, profile, challenge, seed, &mut receiver, 1_700)
        .is_ok());
    assert!(w.store.delete_user_profile(owner, profile, &mut receiver).is_ok());
    let receiver_before = receiver;
    let refund = w.store.treasury_balance + w.store.crux_balance;
    let r = w.store.close_crux(w.manager, w.treasury, &mut receiver);
    assert!(r.is_ok());
    assert!(!w.store.live);
    assert_eq!(receiver, receiver_before + refund);
}

#[test]
fn evaluate_is_moderation_gated() {
    let mut w = setup(CruxFees { profile_fee: 0, submission_fee: 25 });
    let owner = addr(OWNER);
    let moderator = addr(2000);
    let owner_profile = profile_addr(&w, owner);
    let moderator_profile = profile_addr(&w, moderator);
    let mut owner_wallet: u64 = 10_000;
    let mut moderator_wallet: u64 = 10_000;
    assert!(w
        .store
        .create_user_profile(owner, w.treasury, owner_profile, 200, &mut owner_wallet, 1)
        .is_ok());
    assert!(w
        .store
        .create_user_profile(
            moderator,
            w.treasury,
            moderator_profile,
            200,
            &mut moderator_wallet,
            2
        )
        .is_ok());
    assert!(w.store.add_moderator(w.manager, moderator, moderator_profile).is_ok());
    let seed = addr(SEED);
    let challenge = challenge_addr(&w, seed);
    assert!(w
        .store
        .create_challenge(
            moderator,
            moderator_profile,
            challenge,
            seed,
            300,
            vec![Tags::Social],
            "title".to_string(),
            "url".to_string(),
            addr(42),
            2_000,
            40,
            &mut moderator_wallet,
            100,
        )
        .is_ok());
    let submission = derive_submission_address(&challenge, &owner_profile, &w.program_id)
        .unwrap()
        .0;
    let treasury_before = w.store.treasury_balance;
    assert!(w
        .store
        .create_submission(
            owner,
            w.treasury,
            owner_profile,
            challenge,
            seed,
            submission,
            150,
            &mut owner_wallet,
            500,
        )
        .is_ok());
    // The submission fee of 25 was collected.
    assert_eq!(w.store.treasury_balance, treasury_before + 25);

    // Evaluation by the plain owner profile is refused.
    let r = w.store.evaluate_submission(
        owner,
        owner_profile,
        owner_profile,
        challenge,
        seed,
        submission,
        SubmissionState::Completed,
        600,
    );
    assert!(matches!(r, Err(ErrorCode::ProfileIsNotModerator)));
    assert_eq!(w.store.submissions[0].data.submission_state, SubmissionState::Pending);

    // The moderator completes it; the owner is credited the award.
    let r = w.store.evaluate_submission(
        moderator,
        moderator_profile,
        owner_profile,
        challenge,
        seed,
        submission,
        SubmissionState::Completed,
        700,
    );
    assert!(r.is_ok());
    assert_eq!(w.store.submissions[0].data.submission_state, SubmissionState::Completed);
    assert_eq!(w.store.profiles[0].data.challenges_completed, 1);
    assert_eq!(w.store.profiles[0].data.reputation_score, 40);

    // A completed submission cannot be deleted by its owner...
    let mut receiver: u64 = 0;
    let r = w.store.delete_submission(
        owner,
        owner_profile,
        challenge,
        seed,
        submission,
        &mut receiver,
        800,
    );
    assert!(matches!(r, Err(ErrorCode::AccountCannotBeEdited)));

    // ...but a moderator may remove it regardless of state.
    let r = w.store.delete_submission_moderator(
        moderator,
        moderator_profile,
        owner_profile,
        challenge,
        seed,
        submission,
        &mut receiver,
        900,
    );
    assert!(r.is_ok());
    assert_eq!(receiver, 150);
    assert_eq!(w.store.profiles[0].data.challenges_submitted, 0);
    assert_eq!(w.store.crux.crux_counts.submission_count, 0);
}

#[test]
fn edit_submission_resets_state_to_pending() {
    let mut w = setup(CruxFees { profile_fee: 0, submission_fee: 0 });
    let owner = addr(OWNER);
    let moderator = addr(2000);
    let owner_profile = profile_addr(&w, owner);
    let moderator_profile = profile_addr(&w, moderator);
    let mut owner_wallet: u64 = 10_000;
    let mut moderator_wallet: u64 = 10_000;
    assert!(w
        .store
        .create_user_profile(owner, w.treasury, owner_profile, 200, &mut owner_wallet, 1)
        .is_ok());
    assert!(w
        .store
        .create_user_profile(
            moderator,
            w.treasury,
            moderator_profile,
            200,
            &mut moderator_wallet,
            2
        )
        .is_ok());
    assert!(w.store.add_moderator(w.manager, moderator, moderator_profile).is_ok());
    let seed = addr(SEED);
    let challenge = challenge_addr(&w, seed);
    assert!(w
        .store
        .create_challenge(
            moderator,
            moderator_profile,
            challenge,
            seed,
            300,
            vec![Tags::Nfts],
            "title".to_string(),
            "url".to_string(),
            addr(42),
            2_000,
            10,
            &mut moderator_wallet,
            100,
        )
        .is_ok());
    let submission = derive_submission_address(&challenge, &owner_profile, &w.program_id)
        .unwrap()
        .0;
    assert!(w
        .store
        .create_submission(
            owner,
            w.treasury,
            owner_profile,
            challenge,
            seed,
            submission,
            150,
            &mut owner_wallet,
            500,
        )
        .is_ok());
    assert!(w
        .store
        .evaluate_submission(
            moderator,
            moderator_profile,
            owner_profile,
            challenge,
            seed,
            submission,
            SubmissionState::Rejected,
            600,
        )
        .is_ok());
    assert_eq!(w.store.submissions[0].data.submission_state, SubmissionState::Rejected);
    // Re-submitting resets the state and grows the record for the locator.
    let wallet_before = owner_wallet;
    let new_reserve = 400;
    let r = w.store.edit_submission(
        owner,
        owner_profile,
        challenge,
        seed,
        submission,
        new_reserve,
        "https://my-new-answer".to_string(),
        addr(77),
        &mut owner_wallet,
        700,
    );
    assert!(r.is_ok());
    assert_eq!(w.store.submissions[0].data.submission_state, SubmissionState::Pending);
    assert_eq!(w.store.submissions[0].data.content_data_url, "https://my-new-answer");
    assert_eq!(w.store.submissions[0].balance, new_reserve);
    assert_eq!(wallet_before - owner_wallet, new_reserve - 150);
    // An empty locator is refused.
    let r = w.store.edit_submission(
        owner,
        owner_profile,
        challenge,
        seed,
        submission,
        new_reserve,
        String::new(),
        addr(78),
        &mut owner_wallet,
        800,
    );
    assert!(matches!(r, Err(ErrorCode::InvalidStringInput)));
}

#[test]
fn delete_profile_with_live_submissions_is_refused() {
    let mut w = setup(CruxFees { profile_fee: 0, submission_fee: 0 });
    let owner = addr(OWNER);
    let profile = profile_addr(&w, owner);
    let mut wallet: u64 = 10_000;
    assert!(w.store.create_user_profile(owner, w.treasury, profile, 200, &mut wallet, 1).is_ok());
    assert!(w.store.add_moderator(w.manager, owner, profile).is_ok());
    let seed = addr(SEED);
    let challenge = challenge_addr(&w, seed);
    assert!(w
        .store
        .create_challenge(
            owner,
            profile,
            challenge,
            seed,
            300,
            vec![Tags::Ideas],
            "title".to_string(),
            "url".to_string(),
            addr(42),
            2_000,
            10,
            &mut wallet,
            100,
        )
        .is_ok());
    let submission = derive_submission_address(&challenge, &profile, &w.program_id).unwrap().0;
    assert!(w
        .store
        .create_submission(
            owner,
            w.treasury,
            profile,
            challenge,
            seed,
            submission,
            150,
            &mut wallet,
            500,
        )
        .is_ok());
    let mut receiver: u64 = 0;
    let r = w.store.delete_user_profile(owner, profile, &mut receiver);
    assert!(matches!(r, Err(ErrorCode::NotAllChildrenClosed)));
    assert_eq!(w.store.crux.crux_counts.profile_count, 1);
}

#[test]
fn apply_dispatches_operations() {
    let mut w = setup(CruxFees { profile_fee: 100, submission_fee: 0 });
    let owner = addr(OWNER);
    let profile = profile_addr(&w, owner);
    let mut wallet: u64 = 10_000;
    let mut receiver: u64 = 0;
    let r = w.store.apply(
        Operation::CreateUserProfile {
            treasury: w.treasury,
            user_profile: profile,
            record_reserve: 200,
        },
        owner,
        &mut wallet,
        &mut receiver,
        100,
    );
    assert!(r.is_ok());
    assert_eq!(wallet, 10_000 - 300);
    assert_eq!(w.store.crux.crux_counts.profile_count, 1);
    let r = w.store.apply(
        Operation::CloseCrux { treasury: w.treasury },
        w.manager,
        &mut wallet,
        &mut receiver,
        200,
    );
    assert!(matches!(r, Err(ErrorCode::NotAllChildrenClosed)));
    assert!(w.store.live);
}

#[test]
fn editing_a_missing_profile_is_not_found() {
    let mut w = setup(CruxFees { profile_fee: 0, submission_fee: 0 });
    let owner = addr(OWNER);
    let profile = profile_addr(&w, owner);
    let r = w.store.edit_user_profile(owner, profile, addr(777), 50);
    assert!(matches!(r, Err(ErrorCode::AccountNotFound)));
}

#[test]
fn crux_seeds_returns_the_authority_seed() {
    let w = setup(CruxFees { profile_fee: 0, submission_fee: 0 });
    let (seed, bump) = w.store.crux.crux_seeds();
    assert_eq!(seed, w.crux_address);
    assert_eq!(bump, w.store.crux.crux_authority_bump_seed);
}

#[test]
fn moderator_deletes_their_own_submission() {
    let mut w = setup(CruxFees { profile_fee: 0, submission_fee: 0 });
    let owner = addr(OWNER);
    let profile = profile_addr(&w, owner);
    let mut wallet: u64 = 10_000;
    assert!(w.store.create_user_profile(owner, w.treasury, profile, 200, &mut wallet, 1).is_ok());
    assert!(w.store.add_moderator(w.manager, owner, profile).is_ok());
    let seed = addr(SEED);
    let challenge = challenge_addr(&w, seed);
    assert!(w
        .store
        .create_challenge(
            owner,
            profile,
            challenge,
            seed,
            300,
            vec![Tags::Ideas],
            "title".to_string(),
            "url".to_string(),
            addr(42),
            2_000,
            10,
            &mut wallet,
            100,
        )
        .is_ok());
    let submission = derive_submission_address(&challenge, &profile, &w.program_id).unwrap().0;
    assert!(w
        .store
        .create_submission(
            owner,
            w.treasury,
            profile,
            challenge,
            seed,
            submission,
            150,
            &mut wallet,
            500,
        )
        .is_ok());
    // The acting moderator profile and the owning profile are the same
    // record here: the counter falls and the engagement timestamp moves.
    let mut receiver: u64 = 0;
    let r = w.store.delete_submission_moderator(
        owner,
        profile,
        profile,
        challenge,
        seed,
        submission,
        &mut receiver,
        900,
    );
    assert!(r.is_ok());
    assert_eq!(receiver, 150);
    assert_eq!(w.store.profiles[0].data.challenges_submitted, 0);
    assert_eq!(w.store.profiles[0].data.most_recent_engagement_ts, 900);
    assert_eq!(w.store.crux.crux_counts.submission_count, 0);
}

#[test]
fn reevaluation_credits_the_owner_once() {
    let mut w = setup(CruxFees { profile_fee: 0, submission_fee: 0 });
    let owner = addr(OWNER);
    let moderator = addr(2000);
    let owner_profile = profile_addr(&w, owner);
    let moderator_profile = profile_addr(&w, moderator);
    let mut owner_wallet: u64 = 10_000;
    let mut moderator_wallet: u64 = 10_000;
    assert!(w
        .store
        .create_user_profile(owner, w.treasury, owner_profile, 200, &mut owner_wallet, 1)
        .is_ok());
    assert!(w
        .store
        .create_user_profile(
            moderator,
            w.treasury,
            moderator_profile,
            200,
            &mut moderator_wallet,
            2
        )
        .is_ok());
    assert!(w.store.add_moderator(w.manager, moderator, moderator_profile).is_ok());
    let seed = addr(SEED);
    let challenge = challenge_addr(&w, seed);
    assert!(w
        .store
        .create_challenge(
            moderator,
            moderator_profile,
            challenge,
            seed,
            300,
            vec![Tags::Social],
            "title".to_string(),
            "url".to_string(),
            addr(42),
            2_000,
            40,
            &mut moderator_wallet,
            100,
        )
        .is_ok());
    let submission = derive_submission_address(&challenge, &owner_profile, &w.program_id)
        .unwrap()
        .0;
    assert!(w
        .store
        .create_submission(
            owner,
            w.treasury,
            owner_profile,
            challenge,
            seed,
            submission,
            150,
            &mut owner_wallet,
            500,
        )
        .is_ok());
    // Rejected first: no credit.
    assert!(w
        .store
        .evaluate_submission(
            moderator,
            moderator_profile,
            owner_profile,
            challenge,
            seed,
            submission,
            SubmissionState::Rejected,
            600,
        )
        .is_ok());
    assert_eq!(w.store.profiles[0].data.challenges_completed, 0);
    assert_eq!(w.store.profiles[0].data.reputation_score, 0);
    // Completing it credits the owner.
    assert!(w
        .store
        .evaluate_submission(
            moderator,
            moderator_profile,
            owner_profile,
            challenge,
            seed,
            submission,
            SubmissionState::Completed,
            700,
        )
        .is_ok());
    assert_eq!(w.store.profiles[0].data.challenges_completed, 1);
    assert_eq!(w.store.profiles[0].data.reputation_score, 40);
    // Completing a completed submission again credits nothing more.
    assert!(w
        .store
        .evaluate_submission(
            moderator,
            moderator_profile,
            owner_profile,
            challenge,
            seed,
            submission,
            SubmissionState::Completed,
            800,
        )
        .is_ok());
    assert_eq!(w.store.profiles[0].data.challenges_completed, 1);
    assert_eq!(w.store.profiles[0].data.reputation_score, 40);
}

#[test]
fn close_account_moves_the_whole_balance() {
    let mut receiver: u64 = 10;
    assert!(close_account(25, &mut receiver).is_ok());
    assert_eq!(receiver, 35);
    let r = close_account(u64::MAX, &mut receiver);
    assert!(matches!(r, Err(ErrorCode::Overflow)));
    assert_eq!(receiver, 35);
}
