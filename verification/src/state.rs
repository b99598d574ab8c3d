//! The record types the engine manages.
//!
//! A tenant (the "crux") owns a treasury and three kinds of sub-records:
//! user profiles, challenges and submissions.  Each record type here holds
//! exactly the data the engine reads and writes; the host's storage cells
//! around them are modelled by [`Record`], which pairs a record's data with
//! its address, its balance and its byte footprint.

use vstd::prelude::*;

use crate::address::Address;

verus! {

/// The schema version written into newly created tenants.
pub const LATEST_CRUX_VERSION: u16 = 0;

/// The fee schedule of a tenant, in balance units.
#[derive(Clone, Copy, Debug, PartialEq, Eq, Structural)]
pub struct CruxFees {
    /// Paid into the treasury when a user profile is created; zero means
    /// profile creation is free.
    pub profile_fee: u64,
    /// Paid into the treasury when a submission is created; zero means
    /// submission creation is free.
    pub submission_fee: u64,
}

/// The live sub-record counters of a tenant.
#[derive(Clone, Copy, Debug, PartialEq, Eq, Structural)]
pub struct CruxCounts {
    pub profile_count: u64,
    pub challenge_count: u64,
    pub submission_count: u64,
}

/// The root tenant record.
#[derive(Clone, Copy, Debug, PartialEq, Eq, Structural)]
pub struct Crux {
    pub version: u16,
    /// The identity allowed to change fees, appoint moderators, pay out the
    /// treasury and close the tenant.
    pub crux_manager: Address,
    /// The derived signing identity used for the tenant's own fund
    /// movements.
    pub crux_authority: Address,
    /// The seed the authority was derived from: the tenant's own address.
    pub crux_authority_seed: Address,
    /// The bump seed the authority was derived with.
    pub crux_authority_bump_seed: u8,
    /// The address of the tenant's treasury record.
    pub crux_treasury: Address,
    pub crux_fees: CruxFees,
    pub crux_counts: CruxCounts,
}

impl Crux {
    /// The seed and bump with which the tenant's signing authority was
    /// derived, as needed to sign fund movements on its behalf.
    pub fn crux_seeds(&self) -> (r: (Address, u8))
        ensures
            r == (self.crux_authority_seed, self.crux_authority_bump_seed),
    {
        (self.crux_authority_seed, self.crux_authority_bump_seed)
    }
}

/// A user's profile under one tenant.
#[derive(Clone, Copy, Debug, PartialEq, Eq, Structural)]
pub struct UserProfile {
    /// The identity that owns the profile and signs its actions.
    pub profile_owner: Address,
    /// The tenant the profile belongs to.
    pub crux: Address,
    pub profile_created_ts: u64,
    pub most_recent_engagement_ts: u64,
    /// Number of live submissions owned by this profile.
    pub challenges_submitted: u64,
    /// Number of submissions of this profile evaluated as completed.
    pub challenges_completed: u64,
    pub reputation_score: u64,
    /// The displayed-media token reference shown on the profile.
    pub nft_pfp_token_mint: Address,
    /// Whether the profile may manage content and evaluate submissions.
    pub is_moderator: bool,
}

/// The closed set of category tags a challenge can carry.
#[derive(Clone, Copy, Debug, PartialEq, Eq, Structural)]
pub enum Tags {
    ArtificialIntelligence,
    CryptoInfrastructure,
    DaosAndNetworkStates,
    DataAndAnalytics,
    Development,
    FinanceAndPayments,
    GamingAndEntertainment,
    Ideas,
    MobileConsumerApps,
    Nfts,
    PhysicalInfrastructureNetworks,
    Social,
}

/// A content record, owned by its tenant and keyed by a caller-supplied
/// seed address.
#[derive(Clone, Debug)]
pub struct Challenge {
    /// The tenant the challenge belongs to.
    pub crux: Address,
    /// The seed address the challenge's own address was derived from.
    pub challenge_seed: Address,
    pub challenge_posted_ts: u64,
    pub challenge_expires_ts: u64,
    pub tags: Vec<Tags>,
    pub title: String,
    /// Locator of the external content the challenge points at.
    pub content_data_url: String,
    /// Reference to a hash of that content.
    pub content_data_hash: Address,
    /// The reputation awarded for a completed submission.
    pub reputation: u64,
}

/// The evaluation state of a submission.
#[derive(Clone, Copy, Debug, PartialEq, Eq, Structural)]
pub enum SubmissionState {
    /// Awaiting evaluation; the state every submission is created and
    /// re-submitted in.
    Pending,
    /// Accepted by a moderator; terminal for the owner.
    Completed,
    /// Declined by a moderator.
    Rejected,
}

/// A submission a profile made to a challenge.
#[derive(Clone, Debug)]
pub struct Submission {
    /// The challenge the submission answers.
    pub challenge: Address,
    /// The profile that made the submission.
    pub user_profile: Address,
    /// Locator of the submitted content.
    pub content_data_url: String,
    /// Reference to a hash of that content.
    pub content_data_hash: Address,
    pub submission_state: SubmissionState,
    pub most_recent_engagement_ts: u64,
}

/// A stored record: its address, the balance backing its persistence, the
/// byte footprint it was last (re)allocated with, and its data.
#[derive(Clone, Debug)]
pub struct Record<T> {
    pub address: Address,
    pub balance: u64,
    pub footprint: u64,
    pub data: T,
}

} // verus!
