//! The record store of one tenant, and every operation on it.
//!
//! [`Store`] models the host's key-value record store as seen by a single
//! tenant: the tenant record itself, its treasury's balance, and the live
//! profile, challenge and submission records.  [`Store::wf`] is the
//! cross-record invariant every operation preserves: each counter of the
//! tenant equals the number of live records it counts, and each profile's
//! submission counter equals the number of live submissions it owns.
//!
//! Every operation validates addresses first, then authorization, then its
//! inputs, then performs all checked arithmetic, and only then mutates
//! anything: a failed operation returns its error and changes nothing.

use vstd::prelude::*;
use vstd::string::StrSliceExecFns;

use crate::address::{
    derive_challenge_address, derive_submission_address, derive_treasury_address,
    derive_user_profile_address, pda_of, Address,
};
use crate::errors::ErrorCode;
use crate::math::{try_add, try_sub};
use crate::sizes::{
    challenge_footprint, check_texts, spec_challenge_footprint, spec_submission_footprint,
    submission_footprint, MAX_TEXT_LEN,
};
use crate::state::{
    Challenge, Crux, CruxCounts, CruxFees, Record, Submission, SubmissionState, Tags, UserProfile,
    LATEST_CRUX_VERSION,
};

verus! {

/// The byte footprint of a user profile record.
pub const PROFILE_FOOTPRINT: u64 = 152;

/// No two records of one kind share an address.
pub open spec fn distinct_addresses<T>(v: Seq<Record<T>>) -> bool {
    forall|i: int, j: int| 0 <= i < j < v.len() ==> v[i].address != v[j].address
}

/// Whether a record lives at address `a`.
pub open spec fn has_record_at<T>(v: Seq<Record<T>>, a: Address) -> bool {
    exists|i: int| 0 <= i < v.len() && v[i].address == a
}

/// The index of the record at address `a` — meaningful when
/// [`has_record_at`] holds, and unique when the addresses are distinct.
pub open spec fn record_index<T>(v: Seq<Record<T>>, a: Address) -> int {
    choose|i: int| 0 <= i < v.len() && v[i].address == a
}

/// The record at address `a` — meaningful when [`has_record_at`] holds.
pub open spec fn record_at<T>(v: Seq<Record<T>>, a: Address) -> Record<T> {
    v[record_index(v, a)]
}

/// Whether a profile record lives at address `a`.
pub open spec fn has_profile_at(ps: Seq<Record<UserProfile>>, a: Address) -> bool {
    has_record_at(ps, a)
}

/// How many of the submissions are owned by the profile at address `owner`.
pub open spec fn count_owned(subs: Seq<Record<Submission>>, owner: Address) -> nat
    decreases subs.len(),
{
    if subs.len() == 0 {
        0
    } else {
        count_owned(subs.drop_last(), owner) + (if subs.last().data.user_profile == owner {
            1nat
        } else {
            0nat
        })
    }
}

/// Appending a submission raises exactly its owner's count by one.
pub proof fn lemma_count_owned_push(subs: Seq<Record<Submission>>, s: Record<Submission>, owner: Address)
    ensures
        count_owned(subs.push(s), owner) == count_owned(subs, owner) + (if s.data.user_profile
            == owner {
            1nat
        } else {
            0nat
        }),
{
    assert(subs.push(s).drop_last() =~= subs);
}

/// Removing a submission lowers exactly its owner's count by one.
pub proof fn lemma_count_owned_remove(subs: Seq<Record<Submission>>, i: int, owner: Address)
    requires
        0 <= i < subs.len(),
    ensures
        count_owned(subs.remove(i), owner) == count_owned(subs, owner) - (
        if subs[i].data.user_profile == owner {
            1nat
        } else {
            0nat
        }),
    decreases subs.len(),
{
    if i == subs.len() - 1 {
        assert(subs.remove(i) =~= subs.drop_last());
    } else {
        lemma_count_owned_remove(subs.drop_last(), i, owner);
        assert(subs.remove(i).drop_last() =~= subs.drop_last().remove(i));
        assert(subs.remove(i).last() == subs.last());
    }
}

/// A count is zero exactly when no submission is owned by that address.
pub proof fn lemma_count_owned_zero(subs: Seq<Record<Submission>>, owner: Address)
    ensures
        count_owned(subs, owner) == 0 <==> (forall|k: int|
            0 <= k < subs.len() ==> (#[trigger] subs[k]).data.user_profile != owner),
    decreases subs.len(),
{
    if subs.len() > 0 {
        lemma_count_owned_zero(subs.drop_last(), owner);
        assert(forall|k: int|
            0 <= k < subs.len() - 1 ==> subs.drop_last()[k] == (#[trigger] subs[k]));
    }
}

/// Two submission lists with the same owners pointwise have the same counts.
pub proof fn lemma_count_owned_same_owners(
    s1: Seq<Record<Submission>>,
    s2: Seq<Record<Submission>>,
    owner: Address,
)
    requires
        s1.len() == s2.len(),
        forall|k: int|
            0 <= k < s1.len() ==> (#[trigger] s1[k]).data.user_profile
                == s2[k].data.user_profile,
    ensures
        count_owned(s1, owner) == count_owned(s2, owner),
    decreases s1.len(),
{
    if s1.len() > 0 {
        lemma_count_owned_same_owners(s1.drop_last(), s2.drop_last(), owner);
    }
}

/// Whether the submission at address `a` is in the completed state.
pub open spec fn submission_completed_at(subs: Seq<Record<Submission>>, a: Address) -> bool {
    exists|i: int|
        0 <= i < subs.len() && (#[trigger] subs[i]).address == a && subs[i].data.submission_state
            == SubmissionState::Completed
}

/// Whether some live profile owned by `owner` carries the moderator flag.
pub open spec fn has_moderator_owned_by(ps: Seq<Record<UserProfile>>, owner: Address) -> bool {
    exists|i: int|
        0 <= i < ps.len() && (#[trigger] ps[i]).data.profile_owner == owner
            && ps[i].data.is_moderator
}

/// The record store of one tenant: the tenant record, its treasury's
/// balance, and its live sub-records.
pub struct Store {
    /// The program all sub-record addresses are derived under.
    pub program_id: Address,
    /// False once the tenant has been closed and its records destroyed.
    pub live: bool,
    /// The address of the tenant record.
    pub crux_address: Address,
    /// The tenant record itself.
    pub crux: Crux,
    /// The balance backing the tenant record.
    pub crux_balance: u64,
    /// The balance of the treasury record.
    pub treasury_balance: u64,
    pub profiles: Vec<Record<UserProfile>>,
    pub challenges: Vec<Record<Challenge>>,
    pub submissions: Vec<Record<Submission>>,
}

/// Looks a record up by address.
fn find_record<T>(v: &Vec<Record<T>>, a: Address) -> (r: Option<usize>)
    ensures
        match r {
            Some(i) => i < v@.len() && v@[i as int].address == a,
            None => forall|j: int| 0 <= j < v@.len() ==> (#[trigger] v@[j]).address != a,
        },
{
    let mut i: usize = 0;
    while i < v.len()
        invariant
            i <= v@.len(),
            forall|j: int| 0 <= j < i ==> (#[trigger] v@[j]).address != a,
        decreases v@.len() - i,
    {
        if v[i].address == a {
            return Some(i);
        }
        i = i + 1;
    }
    None
}

impl Store {
    /// The cross-record invariant: every tenant counter equals the number of
    /// live records it counts, every sub-record names this tenant, records
    /// of one kind live at distinct addresses, every profile's submission
    /// counter equals the number of live submissions it owns, and every
    /// live submission is owned by a live profile.
    pub open spec fn wf(self) -> bool {
        &&& self.crux.crux_counts.profile_count == self.profiles@.len()
        &&& self.crux.crux_counts.challenge_count == self.challenges@.len()
        &&& self.crux.crux_counts.submission_count == self.submissions@.len()
        &&& forall|i: int|
            0 <= i < self.profiles@.len() ==> (#[trigger] self.profiles@[i]).data.crux
                == self.crux_address
        &&& forall|i: int|
            0 <= i < self.challenges@.len() ==> (#[trigger] self.challenges@[i]).data.crux
                == self.crux_address
        &&& distinct_addresses(self.profiles@)
        &&& distinct_addresses(self.challenges@)
        &&& distinct_addresses(self.submissions@)
        &&& forall|i: int|
            0 <= i < self.profiles@.len() ==> (#[trigger] self.profiles@[i]).data.challenges_submitted
                == count_owned(self.submissions@, self.profiles@[i].address)
        &&& forall|k: int|
            0 <= k < self.submissions@.len() ==> has_profile_at(
                self.profiles@,
                (#[trigger] self.submissions@[k]).data.user_profile,
            )
    }

    /// The number of live profile records referencing this tenant.
    pub open spec fn live_profile_count(self) -> nat {
        self.profiles@.len()
    }

    /// The number of live challenge records referencing this tenant.
    pub open spec fn live_challenge_count(self) -> nat {
        self.challenges@.len()
    }

    /// The number of live submission records referencing this tenant.
    pub open spec fn live_submission_count(self) -> nat {
        self.submissions@.len()
    }

    /// In a well-formed store each tenant counter equals the number of live
    /// records referencing the tenant — after every operation, since every
    /// operation requires and ensures well-formedness.
    pub proof fn lemma_counters_match_live_records(self)
        requires
            self.wf(),
        ensures
            self.crux.crux_counts.profile_count == self.live_profile_count(),
            self.crux.crux_counts.challenge_count == self.live_challenge_count(),
            self.crux.crux_counts.submission_count == self.live_submission_count(),
    {
    }
}

/// What can go wrong when a tenant is set up.
pub open spec fn init_crux_error(
    program_id: Address,
    crux_address: Address,
    crux_authority: Address,
    crux_treasury: Address,
    crux_record_reserve: u64,
    treasury_record_reserve: u64,
    manager_wallet: u64,
) -> Option<ErrorCode> {
    let authority = pda_of(""@, seq![crux_address], program_id);
    let treasury = pda_of("treasury"@, seq![crux_address], program_id);
    if authority is None || (authority matches Some(d) && d.0 != crux_authority) {
        Some(ErrorCode::AddressMismatch)
    } else if treasury is None || (treasury matches Some(d) && d.0 != crux_treasury) {
        Some(ErrorCode::AddressMismatch)
    } else if crux_record_reserve + treasury_record_reserve > u64::MAX {
        Some(ErrorCode::Overflow)
    } else if manager_wallet < crux_record_reserve + treasury_record_reserve {
        Some(ErrorCode::InsufficientFunds)
    } else {
        None
    }
}

impl Store {
    /// Sets a tenant up: verifies that the supplied authority and treasury
    /// addresses re-derive from the tenant's address, charges the manager
    /// the two records' reserves, and returns the store of the new tenant
    /// with its fee schedule stored and all three counters zero.
    pub fn init_crux(
        program_id: Address,
        crux_address: Address,
        crux_manager: Address,
        crux_fees: CruxFees,
        crux_authority: Address,
        crux_treasury: Address,
        crux_record_reserve: u64,
        treasury_record_reserve: u64,
        manager_wallet: &mut u64,
    ) -> (r: Result<Store, ErrorCode>)
        ensures
            ({
                let err = init_crux_error(
                    program_id,
                    crux_address,
                    crux_authority,
                    crux_treasury,
                    crux_record_reserve,
                    treasury_record_reserve,
                    *old(manager_wallet),
                );
                match r {
                    Ok(store) => {
                        &&& err is None
                        &&& store.wf()
                        &&& store.live
                        &&& store.program_id == program_id
                        &&& store.crux_address == crux_address
                        &&& store.crux_balance == crux_record_reserve
                        &&& store.treasury_balance == treasury_record_reserve
                        &&& store.profiles@.len() == 0
                        &&& store.challenges@.len() == 0
                        &&& store.submissions@.len() == 0
                        &&& store.crux == (Crux {
                            version: LATEST_CRUX_VERSION,
                            crux_manager,
                            crux_authority,
                            crux_authority_seed: crux_address,
                            crux_authority_bump_seed: pda_of(
                                ""@,
                                seq![crux_address],
                                program_id,
                            )->Some_0.1,
                            crux_treasury,
                            crux_fees,
                            crux_counts: CruxCounts {
                                profile_count: 0,
                                challenge_count: 0,
                                submission_count: 0,
                            },
                        })
                        &&& *final(manager_wallet) == *old(manager_wallet) - crux_record_reserve
                            - treasury_record_reserve
                    },
                    Err(e) => {
                        &&& err == Some(e)
                        &&& *final(manager_wallet) == *old(manager_wallet)
                    },
                }
            }),
    {
        let authority = match crate::address::derive_crux_authority(&crux_address, &program_id) {
            Some(d) => d,
            None => { return Err(ErrorCode::AddressMismatch) },
        };
        if authority.0 != crux_authority {
            return Err(ErrorCode::AddressMismatch);
        }
        let treasury = match derive_treasury_address(&crux_address, &program_id) {
            Some(d) => d,
            None => { return Err(ErrorCode::AddressMismatch) },
        };
        if treasury.0 != crux_treasury {
            return Err(ErrorCode::AddressMismatch);
        }
        let rent_total = try_add(crux_record_reserve, treasury_record_reserve)?;
        let new_wallet = match try_sub(*manager_wallet, rent_total) {
            Ok(v) => v,
            Err(_) => { return Err(ErrorCode::InsufficientFunds) },
        };
        *manager_wallet = new_wallet;
        Ok(
            Store {
                program_id,
                live: true,
                crux_address,
                crux: Crux {
                    version: LATEST_CRUX_VERSION,
                    crux_manager,
                    crux_authority,
                    crux_authority_seed: crux_address,
                    crux_authority_bump_seed: authority.1,
                    crux_treasury,
                    crux_fees,
                    crux_counts: CruxCounts {
                        profile_count: 0,
                        challenge_count: 0,
                        submission_count: 0,
                    },
                },
                crux_balance: crux_record_reserve,
                treasury_balance: treasury_record_reserve,
                profiles: Vec::new(),
                challenges: Vec::new(),
                submissions: Vec::new(),
            },
        )
    }

    /// Overwrites the tenant's fee schedule.  Manager-only; no other effect.
    pub fn update_crux_params(&mut self, caller: Address, new_crux_fees: CruxFees) -> (r: Result<
        (),
        ErrorCode,
    >)
        requires
            old(self).wf(),
            old(self).live,
        ensures
            final(self).wf(),
            final(self).live,
            caller != old(self).crux.crux_manager ==> r == Err::<(), ErrorCode>(
                ErrorCode::AddressMismatch,
            ) && *final(self) == *old(self),
            caller == old(self).crux.crux_manager ==> r == Ok::<(), ErrorCode>(()) && *final(self)
                == (Store {
                crux: (Crux { crux_fees: new_crux_fees, ..old(self).crux }),
                ..*old(self)
            }),
    {
        if caller != self.crux.crux_manager {
            return Err(ErrorCode::AddressMismatch);
        }
        self.crux.crux_fees = new_crux_fees;
        Ok(())
    }
}

/// What can go wrong when the treasury is paid out.
pub open spec fn payout_error(
    pre: Store,
    caller: Address,
    treasury: Address,
    treasury_reserve: u64,
    receiver_wallet: u64,
) -> Option<ErrorCode> {
    if caller != pre.crux.crux_manager {
        Some(ErrorCode::AddressMismatch)
    } else if treasury != pre.crux.crux_treasury {
        Some(ErrorCode::AddressMismatch)
    } else if pre.treasury_balance <= treasury_reserve {
        Some(ErrorCode::Underflow)
    } else if receiver_wallet + (pre.treasury_balance - treasury_reserve) > u64::MAX {
        Some(ErrorCode::Overflow)
    } else {
        None
    }
}

/// What can go wrong when a tenant is closed.
pub open spec fn close_crux_error(
    pre: Store,
    caller: Address,
    treasury: Address,
    receiver_wallet: u64,
) -> Option<ErrorCode> {
    if caller != pre.crux.crux_manager {
        Some(ErrorCode::AddressMismatch)
    } else if treasury != pre.crux.crux_treasury {
        Some(ErrorCode::AddressMismatch)
    } else if pre.crux.crux_counts.profile_count > 0 || pre.crux.crux_counts.challenge_count > 0
        || pre.crux.crux_counts.submission_count > 0 {
        Some(ErrorCode::NotAllChildrenClosed)
    } else if receiver_wallet + pre.treasury_balance > u64::MAX || receiver_wallet
        + pre.treasury_balance + pre.crux_balance > u64::MAX {
        Some(ErrorCode::Overflow)
    } else {
        None
    }
}

impl Store {
    /// Pays the treasury's balance above the reserve out to the receiver.
    /// Manager-only.  `treasury_reserve` is the host's minimum balance for
    /// the treasury record's footprint; a treasury at or below it has
    /// nothing to pay and the operation fails with `Underflow`.
    pub fn payout_from_treasury(
        &mut self,
        caller: Address,
        treasury: Address,
        treasury_reserve: u64,
        receiver_wallet: &mut u64,
    ) -> (r: Result<(), ErrorCode>)
        requires
            old(self).wf(),
            old(self).live,
        ensures
            final(self).wf(),
            final(self).live,
            ({
                let err = payout_error(
                    *old(self),
                    caller,
                    treasury,
                    treasury_reserve,
                    *old(receiver_wallet),
                );
                match r {
                    Ok(()) => {
                        &&& err is None
                        &&& *final(self) == (Store {
                            treasury_balance: treasury_reserve,
                            ..*old(self)
                        })
                        &&& *final(receiver_wallet) == *old(receiver_wallet) + (old(
                            self,
                        ).treasury_balance - treasury_reserve)
                    },
                    Err(e) => {
                        &&& err == Some(e)
                        &&& *final(self) == *old(self)
                        &&& *final(receiver_wallet) == *old(receiver_wallet)
                    },
                }
            }),
    {
        if caller != self.crux.crux_manager {
            return Err(ErrorCode::AddressMismatch);
        }
        if treasury != self.crux.crux_treasury {
            return Err(ErrorCode::AddressMismatch);
        }
        let amount = try_sub(self.treasury_balance, treasury_reserve)?;
        if amount == 0 {
            return Err(ErrorCode::Underflow);
        }
        let new_receiver = try_add(*receiver_wallet, amount)?;
        *receiver_wallet = new_receiver;
        self.treasury_balance = treasury_reserve;
        Ok(())
    }

    /// Closes the tenant: destroys the treasury and the tenant record and
    /// refunds both their balances to the receiver.  Manager-only, and only
    /// once all three counters are zero.
    pub fn close_crux(
        &mut self,
        caller: Address,
        treasury: Address,
        receiver_wallet: &mut u64,
    ) -> (r: Result<(), ErrorCode>)
        requires
            old(self).wf(),
            old(self).live,
        ensures
            final(self).wf(),
            ({
                let err = close_crux_error(*old(self), caller, treasury, *old(receiver_wallet));
                match r {
                    Ok(()) => {
                        &&& err is None
                        &&& old(self).crux.crux_counts.profile_count == 0
                        &&& old(self).crux.crux_counts.challenge_count == 0
                        &&& old(self).crux.crux_counts.submission_count == 0
                        &&& !final(self).live
                        &&& *final(self) == (Store {
                            live: false,
                            crux_balance: 0,
                            treasury_balance: 0,
                            ..*old(self)
                        })
                        &&& *final(receiver_wallet) == *old(receiver_wallet) + old(
                            self,
                        ).treasury_balance + old(self).crux_balance
                    },
                    Err(e) => {
                        &&& err == Some(e)
                        &&& *final(self) == *old(self)
                        &&& final(self).live
                        &&& *final(receiver_wallet) == *old(receiver_wallet)
                    },
                }
            }),
            caller == old(self).crux.crux_manager && treasury == old(self).crux.crux_treasury
                && (old(self).crux.crux_counts.profile_count > 0 || old(
                self,
            ).crux.crux_counts.challenge_count > 0 || old(self).crux.crux_counts.submission_count
                > 0) ==> r == Err::<(), ErrorCode>(ErrorCode::NotAllChildrenClosed),
    {
        if caller != self.crux.crux_manager {
            return Err(ErrorCode::AddressMismatch);
        }
        if treasury != self.crux.crux_treasury {
            return Err(ErrorCode::AddressMismatch);
        }
        let counts = self.crux.crux_counts;
        if counts.profile_count > 0 || counts.challenge_count > 0 || counts.submission_count > 0 {
            return Err(ErrorCode::NotAllChildrenClosed);
        }
        let with_treasury = try_add(*receiver_wallet, self.treasury_balance)?;
        let with_crux = try_add(with_treasury, self.crux_balance)?;
        *receiver_wallet = with_crux;
        self.treasury_balance = 0;
        self.crux_balance = 0;
        self.live = false;
        Ok(())
    }
}

/// The state of a freshly created user profile.
pub open spec fn fresh_profile(owner: Address, crux: Address, now_ts: u64) -> UserProfile {
    UserProfile {
        profile_owner: owner,
        crux,
        profile_created_ts: now_ts,
        most_recent_engagement_ts: now_ts,
        challenges_submitted: 0,
        challenges_completed: 0,
        reputation_score: 0,
        nft_pfp_token_mint: Address { w0: 0, w1: 0, w2: 0, w3: 0 },
        is_moderator: false,
    }
}

/// What can go wrong when a user profile is created.
pub open spec fn create_user_profile_error(
    pre: Store,
    caller: Address,
    treasury: Address,
    user_profile: Address,
    record_reserve: u64,
    wallet: u64,
) -> Option<ErrorCode> {
    let derived = pda_of("user_profile"@, seq![pre.crux_address, caller], pre.program_id);
    let fee = pre.crux.crux_fees.profile_fee;
    if treasury != pre.crux.crux_treasury {
        Some(ErrorCode::AddressMismatch)
    } else if derived is None || derived->Some_0.0 != user_profile {
        Some(ErrorCode::AddressMismatch)
    } else if has_profile_at(pre.profiles@, user_profile) {
        Some(ErrorCode::AccountAlreadyExists)
    } else if wallet < record_reserve {
        Some(ErrorCode::InsufficientFunds)
    } else if wallet - record_reserve < fee {
        Some(ErrorCode::InsufficientFunds)
    } else if pre.treasury_balance + fee > u64::MAX {
        Some(ErrorCode::Overflow)
    } else if pre.crux.crux_counts.profile_count + 1 > u64::MAX {
        Some(ErrorCode::Overflow)
    } else {
        None
    }
}

impl Store {
    /// Creates the profile owned by the caller: verifies that the supplied
    /// profile address re-derives from the tenant and the caller, charges
    /// the caller the record's reserve and — if the tenant's profile fee is
    /// non-zero — pays that fee from the caller's wallet into the treasury,
    /// and raises the tenant's profile counter by one.
    pub fn create_user_profile(
        &mut self,
        caller: Address,
        treasury: Address,
        user_profile: Address,
        record_reserve: u64,
        caller_wallet: &mut u64,
        now_ts: u64,
    ) -> (r: Result<(), ErrorCode>)
        requires
            old(self).wf(),
            old(self).live,
        ensures
            final(self).wf(),
            final(self).live,
            ({
                let err = create_user_profile_error(
                    *old(self),
                    caller,
                    treasury,
                    user_profile,
                    record_reserve,
                    *old(caller_wallet),
                );
                let fee = old(self).crux.crux_fees.profile_fee;
                match r {
                    Ok(()) => {
                        &&& err is None
                        &&& final(self).profiles@ == old(self).profiles@.push(
                            (Record {
                                address: user_profile,
                                balance: record_reserve,
                                footprint: PROFILE_FOOTPRINT,
                                data: fresh_profile(caller, old(self).crux_address, now_ts),
                            }),
                        )
                        &&& final(self).crux == (Crux {
                            crux_counts: (CruxCounts {
                                profile_count: (old(self).crux.crux_counts.profile_count
                                    + 1) as u64,
                                ..old(self).crux.crux_counts
                            }),
                            ..old(self).crux
                        })
                        &&& final(self).treasury_balance == old(self).treasury_balance + fee
                        &&& final(self).challenges@ == old(self).challenges@
                        &&& final(self).submissions@ == old(self).submissions@
                        &&& final(self).crux_balance == old(self).crux_balance
                        &&& final(self).crux_address == old(self).crux_address
                        &&& final(self).program_id == old(self).program_id
                        &&& *final(caller_wallet) == *old(caller_wallet) - record_reserve - fee
                    },
                    Err(e) => {
                        &&& err == Some(e)
                        &&& *final(self) == *old(self)
                        &&& *final(caller_wallet) == *old(caller_wallet)
                    },
                }
            }),
    {
        if treasury != self.crux.crux_treasury {
            return Err(ErrorCode::AddressMismatch);
        }
        let derived = match derive_user_profile_address(
            &self.crux_address,
            &caller,
            &self.program_id,
        ) {
            Some(d) => d,
            None => { return Err(ErrorCode::AddressMismatch) },
        };
        if derived.0 != user_profile {
            return Err(ErrorCode::AddressMismatch);
        }
        match find_record(&self.profiles, user_profile) {
            Some(_) => { return Err(ErrorCode::AccountAlreadyExists) },
            None => {},
        }
        let after_rent = match try_sub(*caller_wallet, record_reserve) {
            Ok(v) => v,
            Err(_) => { return Err(ErrorCode::InsufficientFunds) },
        };
        let fee = self.crux.crux_fees.profile_fee;
        let after_fee = match try_sub(after_rent, fee) {
            Ok(v) => v,
            Err(_) => { return Err(ErrorCode::InsufficientFunds) },
        };
        let new_treasury = try_add(self.treasury_balance, fee)?;
        let new_count = try_add(self.crux.crux_counts.profile_count, 1)?;
        *caller_wallet = after_fee;
        self.treasury_balance = new_treasury;
        self.crux.crux_counts.profile_count = new_count;
        self.profiles.push(
            Record {
                address: user_profile,
                balance: record_reserve,
                footprint: PROFILE_FOOTPRINT,
                data: UserProfile {
                    profile_owner: caller,
                    crux: self.crux_address,
                    profile_created_ts: now_ts,
                    most_recent_engagement_ts: now_ts,
                    challenges_submitted: 0,
                    challenges_completed: 0,
                    reputation_score: 0,
                    nft_pfp_token_mint: Address { w0: 0, w1: 0, w2: 0, w3: 0 },
                    is_moderator: false,
                },
            },
        );
        proof {
            let ps_old = old(self).profiles@;
            let ps_new = self.profiles@;
            let subs = self.submissions@;
            assert forall|i: int| 0 <= i < ps_new.len() implies {
                &&& (#[trigger] ps_new[i]).data.crux == self.crux_address
                &&& ps_new[i].data.challenges_submitted == count_owned(subs, ps_new[i].address)
            } by {
                if i < ps_old.len() {
                    assert(ps_new[i] == ps_old[i]);
                } else {
                    lemma_count_owned_zero(subs, user_profile);
                    assert forall|k: int|
                        0 <= k < subs.len() implies (#[trigger] subs[k]).data.user_profile
                        != user_profile by {
                        assert(has_profile_at(ps_old, subs[k].data.user_profile));
                    }
                }
            }
            assert forall|k: int| 0 <= k < subs.len() implies has_profile_at(
                ps_new,
                (#[trigger] subs[k]).data.user_profile,
            ) by {
                let i = choose|i: int|
                    0 <= i < ps_old.len() && ps_old[i].address == subs[k].data.user_profile;
                assert(ps_new[i].address == subs[k].data.user_profile);
            }
        }
        Ok(())
    }
}

/// When the addresses in `v` are distinct and `v[i]` lives at `a`, then `i`
/// is the index the lookup specs name.
proof fn lemma_found_index<T>(v: Seq<Record<T>>, a: Address, i: int)
    requires
        distinct_addresses(v),
        0 <= i < v.len(),
        v[i].address == a,
    ensures
        has_record_at(v, a),
        record_index(v, a) == i,
        record_at(v, a) == v[i],
{
    assert(has_record_at(v, a));
    let j = record_index(v, a);
    if j < i {
        assert(v[j].address != v[i].address);
    } else if i < j {
        assert(v[i].address != v[j].address);
    }
}

/// Replacing one profile record — address, tenant reference and submission
/// counter kept — preserves the store invariant, provided nothing else
/// changed.
proof fn lemma_wf_update_profile(pre: Store, post: Store, i: int)
    requires
        pre.wf(),
        0 <= i < pre.profiles@.len(),
        post.profiles@ == pre.profiles@.update(i, post.profiles@[i]),
        post.profiles@[i].address == pre.profiles@[i].address,
        post.profiles@[i].data.crux == pre.profiles@[i].data.crux,
        post.profiles@[i].data.challenges_submitted == pre.profiles@[
            i
        ].data.challenges_submitted,
        post.crux == pre.crux,
        post.crux_address == pre.crux_address,
        post.challenges@ == pre.challenges@,
        post.submissions@ == pre.submissions@,
    ensures
        post.wf(),
{
    let ps_old = pre.profiles@;
    let ps_new = post.profiles@;
    assert(ps_new.len() == ps_old.len());
    assert forall|k: int| 0 <= k < ps_new.len() implies (#[trigger] ps_new[k]).address
        == ps_old[k].address && ps_new[k].data.crux == ps_old[k].data.crux
        && ps_new[k].data.challenges_submitted == ps_old[k].data.challenges_submitted by {
        if k != i {
            assert(ps_new[k] == ps_old[k]);
        }
    }
    assert forall|k: int| 0 <= k < post.submissions@.len() implies has_profile_at(
        ps_new,
        (#[trigger] post.submissions@[k]).data.user_profile,
    ) by {
        let w = choose|w: int|
            0 <= w < ps_old.len() && ps_old[w].address == post.submissions@[k].data.user_profile;
        assert(ps_new[w].address == post.submissions@[k].data.user_profile);
    }
}

/// What can go wrong when a profile's displayed media is edited.
pub open spec fn edit_user_profile_error(
    pre: Store,
    caller: Address,
    user_profile: Address,
) -> Option<ErrorCode> {
    let derived = pda_of("user_profile"@, seq![pre.crux_address, caller], pre.program_id);
    if derived is None || derived->Some_0.0 != user_profile {
        Some(ErrorCode::AddressMismatch)
    } else if !has_record_at(pre.profiles@, user_profile) {
        Some(ErrorCode::AccountNotFound)
    } else if record_at(pre.profiles@, user_profile).data.profile_owner != caller || record_at(
        pre.profiles@,
        user_profile,
    ).data.crux != pre.crux_address {
        Some(ErrorCode::AddressMismatch)
    } else {
        None
    }
}

/// What can go wrong when the manager toggles a profile's moderator flag.
pub open spec fn moderator_flag_error(
    pre: Store,
    caller: Address,
    profile_owner: Address,
    user_profile: Address,
) -> Option<ErrorCode> {
    let derived = pda_of("user_profile"@, seq![pre.crux_address, profile_owner], pre.program_id);
    if caller != pre.crux.crux_manager {
        Some(ErrorCode::AddressMismatch)
    } else if derived is None || derived->Some_0.0 != user_profile {
        Some(ErrorCode::AddressMismatch)
    } else if !has_record_at(pre.profiles@, user_profile) {
        Some(ErrorCode::AccountNotFound)
    } else if record_at(pre.profiles@, user_profile).data.profile_owner != profile_owner
        || record_at(pre.profiles@, user_profile).data.crux != pre.crux_address {
        Some(ErrorCode::AddressMismatch)
    } else {
        None
    }
}

impl Store {
    /// Updates the displayed-media reference and the engagement timestamp
    /// of the caller's own profile.
    pub fn edit_user_profile(
        &mut self,
        caller: Address,
        user_profile: Address,
        nft_pfp_token_mint: Address,
        now_ts: u64,
    ) -> (r: Result<(), ErrorCode>)
        requires
            old(self).wf(),
            old(self).live,
        ensures
            final(self).wf(),
            final(self).live,
            ({
                let err = edit_user_profile_error(*old(self), caller, user_profile);
                match r {
                    Ok(()) => {
                        &&& err is None
                        &&& ({
                            let i = record_index(old(self).profiles@, user_profile);
                            let p = old(self).profiles@[i];
                            final(self).profiles@ == old(self).profiles@.update(
                                i,
                                (Record {
                                    data: (UserProfile {
                                        nft_pfp_token_mint,
                                        most_recent_engagement_ts: now_ts,
                                        ..p.data
                                    }),
                                    ..p
                                }),
                            )
                        })
                        &&& final(self).crux == old(self).crux
                        &&& final(self).challenges@ == old(self).challenges@
                        &&& final(self).submissions@ == old(self).submissions@
                        &&& final(self).treasury_balance == old(self).treasury_balance
                        &&& final(self).crux_balance == old(self).crux_balance
                        &&& final(self).crux_address == old(self).crux_address
                        &&& final(self).program_id == old(self).program_id
                    },
                    Err(e) => {
                        &&& err == Some(e)
                        &&& *final(self) == *old(self)
                    },
                }
            }),
    {
        let derived = match derive_user_profile_address(
            &self.crux_address,
            &caller,
            &self.program_id,
        ) {
            Some(d) => d,
            None => { return Err(ErrorCode::AddressMismatch) },
        };
        if derived.0 != user_profile {
            return Err(ErrorCode::AddressMismatch);
        }
        let idx = match find_record(&self.profiles, user_profile) {
            Some(i) => i,
            None => { return Err(ErrorCode::AccountNotFound) },
        };
        proof {
            lemma_found_index(self.profiles@, user_profile, idx as int);
        }
        if self.profiles[idx].data.profile_owner != caller || self.profiles[idx].data.crux
            != self.crux_address {
            return Err(ErrorCode::AddressMismatch);
        }
        self.profiles[idx].data.nft_pfp_token_mint = nft_pfp_token_mint;
        self.profiles[idx].data.most_recent_engagement_ts = now_ts;
        proof {
            assert(self.profiles@ =~= old(self).profiles@.update(
                idx as int,
                self.profiles@[idx as int],
            ));
            lemma_wf_update_profile(*old(self), *self, idx as int);
        }
        Ok(())
    }

    /// Sets or clears a profile's moderator flag.  Manager-only.
    fn set_moderator_flag(
        &mut self,
        caller: Address,
        profile_owner: Address,
        user_profile: Address,
        flag: bool,
    ) -> (r: Result<(), ErrorCode>)
        requires
            old(self).wf(),
            old(self).live,
        ensures
            final(self).wf(),
            final(self).live,
            ({
                let err = moderator_flag_error(*old(self), caller, profile_owner, user_profile);
                match r {
                    Ok(()) => {
                        &&& err is None
                        &&& ({
                            let i = record_index(old(self).profiles@, user_profile);
                            let p = old(self).profiles@[i];
                            final(self).profiles@ == old(self).profiles@.update(
                                i,
                                (Record {
                                    data: (UserProfile { is_moderator: flag, ..p.data }),
                                    ..p
                                }),
                            )
                        })
                        &&& final(self).crux == old(self).crux
                        &&& final(self).challenges@ == old(self).challenges@
                        &&& final(self).submissions@ == old(self).submissions@
                        &&& final(self).treasury_balance == old(self).treasury_balance
                        &&& final(self).crux_balance == old(self).crux_balance
                        &&& final(self).crux_address == old(self).crux_address
                        &&& final(self).program_id == old(self).program_id
                    },
                    Err(e) => {
                        &&& err == Some(e)
                        &&& *final(self) == *old(self)
                    },
                }
            }),
    {
        if caller != self.crux.crux_manager {
            return Err(ErrorCode::AddressMismatch);
        }
        let derived = match derive_user_profile_address(
            &self.crux_address,
            &profile_owner,
            &self.program_id,
        ) {
            Some(d) => d,
            None => { return Err(ErrorCode::AddressMismatch) },
        };
        if derived.0 != user_profile {
            return Err(ErrorCode::AddressMismatch);
        }
        let idx = match find_record(&self.profiles, user_profile) {
            Some(i) => i,
            None => { return Err(ErrorCode::AccountNotFound) },
        };
        proof {
            lemma_found_index(self.profiles@, user_profile, idx as int);
        }
        if self.profiles[idx].data.profile_owner != profile_owner || self.profiles[idx].data.crux
            != self.crux_address {
            return Err(ErrorCode::AddressMismatch);
        }
        self.profiles[idx].data.is_moderator = flag;
        proof {
            assert(self.profiles@ =~= old(self).profiles@.update(
                idx as int,
                self.profiles@[idx as int],
            ));
            lemma_wf_update_profile(*old(self), *self, idx as int);
        }
        Ok(())
    }

    /// Grants a profile the moderator flag.  Manager-only; the profile is
    /// named by its owner's identity and must re-derive to the supplied
    /// address.
    pub fn add_moderator(
        &mut self,
        caller: Address,
        profile_owner: Address,
        user_profile: Address,
    ) -> (r: Result<(), ErrorCode>)
        requires
            old(self).wf(),
            old(self).live,
        ensures
            final(self).wf(),
            final(self).live,
            ({
                let err = moderator_flag_error(*old(self), caller, profile_owner, user_profile);
                match r {
                    Ok(()) => {
                        &&& err is None
                        &&& ({
                            let i = record_index(old(self).profiles@, user_profile);
                            let p = old(self).profiles@[i];
                            final(self).profiles@ == old(self).profiles@.update(
                                i,
                                (Record {
                                    data: (UserProfile { is_moderator: true, ..p.data }),
                                    ..p
                                }),
                            )
                        })
                        &&& final(self).crux == old(self).crux
                        &&& final(self).challenges@ == old(self).challenges@
                        &&& final(self).submissions@ == old(self).submissions@
                        &&& final(self).treasury_balance == old(self).treasury_balance
                        &&& final(self).crux_balance == old(self).crux_balance
                        &&& final(self).crux_address == old(self).crux_address
                        &&& final(self).program_id == old(self).program_id
                    },
                    Err(e) => {
                        &&& err == Some(e)
                        &&& *final(self) == *old(self)
                    },
                }
            }),
    {
        self.set_moderator_flag(caller, profile_owner, user_profile, true)
    }

    /// Revokes a profile's moderator flag.  Manager-only.
    pub fn remove_moderator(
        &mut self,
        caller: Address,
        profile_owner: Address,
        user_profile: Address,
    ) -> (r: Result<(), ErrorCode>)
        requires
            old(self).wf(),
            old(self).live,
        ensures
            final(self).wf(),
            final(self).live,
            ({
                let err = moderator_flag_error(*old(self), caller, profile_owner, user_profile);
                match r {
                    Ok(()) => {
                        &&& err is None
                        &&& ({
                            let i = record_index(old(self).profiles@, user_profile);
                            let p = old(self).profiles@[i];
                            final(self).profiles@ == old(self).profiles@.update(
                                i,
                                (Record {
                                    data: (UserProfile { is_moderator: false, ..p.data }),
                                    ..p
                                }),
                            )
                        })
                        &&& final(self).crux == old(self).crux
                        &&& final(self).challenges@ == old(self).challenges@
                        &&& final(self).submissions@ == old(self).submissions@
                        &&& final(self).treasury_balance == old(self).treasury_balance
                        &&& final(self).crux_balance == old(self).crux_balance
                        &&& final(self).crux_address == old(self).crux_address
                        &&& final(self).program_id == old(self).program_id
                    },
                    Err(e) => {
                        &&& err == Some(e)
                        &&& *final(self) == *old(self)
                    },
                }
            }),
    {
        self.set_moderator_flag(caller, profile_owner, user_profile, false)
    }
}

/// Resolving a profile record from its owner's identity: the supplied
/// address must re-derive from the tenant and the owner, a record must live
/// there, and the record must name that owner and this tenant.
pub open spec fn profile_resolve_error(
    pre: Store,
    owner: Address,
    supplied: Address,
) -> Option<ErrorCode> {
    let derived = pda_of("user_profile"@, seq![pre.crux_address, owner], pre.program_id);
    if derived is None || derived->Some_0.0 != supplied {
        Some(ErrorCode::AddressMismatch)
    } else if !has_record_at(pre.profiles@, supplied) {
        Some(ErrorCode::AccountNotFound)
    } else if record_at(pre.profiles@, supplied).data.profile_owner != owner || record_at(
        pre.profiles@,
        supplied,
    ).data.crux != pre.crux_address {
        Some(ErrorCode::AddressMismatch)
    } else {
        None
    }
}

/// Resolving a challenge record from its seed: the supplied address must
/// re-derive from the tenant and the seed, a record must live there, and
/// the record must name that seed and this tenant.
pub open spec fn challenge_resolve_error(
    pre: Store,
    seed: Address,
    supplied: Address,
) -> Option<ErrorCode> {
    let derived = pda_of("challenge"@, seq![pre.crux_address, seed], pre.program_id);
    if derived is None || derived->Some_0.0 != supplied {
        Some(ErrorCode::AddressMismatch)
    } else if !has_record_at(pre.challenges@, supplied) {
        Some(ErrorCode::AccountNotFound)
    } else if record_at(pre.challenges@, supplied).data.challenge_seed != seed || record_at(
        pre.challenges@,
        supplied,
    ).data.crux != pre.crux_address {
        Some(ErrorCode::AddressMismatch)
    } else {
        None
    }
}

impl Store {
    /// Re-derives and looks up the profile owned by `owner`.
    fn resolve_profile(&self, owner: Address, supplied: Address) -> (r: Result<usize, ErrorCode>)
        requires
            distinct_addresses(self.profiles@),
        ensures
            match r {
                Ok(i) => {
                    &&& profile_resolve_error(*self, owner, supplied) is None
                    &&& i < self.profiles@.len()
                    &&& i == record_index(self.profiles@, supplied)
                    &&& self.profiles@[i as int].address == supplied
                    &&& self.profiles@[i as int].data.profile_owner == owner
                    &&& self.profiles@[i as int].data.crux == self.crux_address
                },
                Err(e) => profile_resolve_error(*self, owner, supplied) == Some(e),
            },
    {
        let derived = match derive_user_profile_address(
            &self.crux_address,
            &owner,
            &self.program_id,
        ) {
            Some(d) => d,
            None => { return Err(ErrorCode::AddressMismatch) },
        };
        if derived.0 != supplied {
            return Err(ErrorCode::AddressMismatch);
        }
        let idx = match find_record(&self.profiles, supplied) {
            Some(i) => i,
            None => { return Err(ErrorCode::AccountNotFound) },
        };
        proof {
            lemma_found_index(self.profiles@, supplied, idx as int);
        }
        if self.profiles[idx].data.profile_owner != owner || self.profiles[idx].data.crux
            != self.crux_address {
            return Err(ErrorCode::AddressMismatch);
        }
        Ok(idx)
    }

    /// Re-derives and looks up the challenge keyed by `seed`.
    fn resolve_challenge(&self, seed: Address, supplied: Address) -> (r: Result<usize, ErrorCode>)
        requires
            distinct_addresses(self.challenges@),
        ensures
            match r {
                Ok(i) => {
                    &&& challenge_resolve_error(*self, seed, supplied) is None
                    &&& i < self.challenges@.len()
                    &&& i == record_index(self.challenges@, supplied)
                    &&& self.challenges@[i as int].address == supplied
                    &&& self.challenges@[i as int].data.challenge_seed == seed
                    &&& self.challenges@[i as int].data.crux == self.crux_address
                },
                Err(e) => challenge_resolve_error(*self, seed, supplied) == Some(e),
            },
    {
        let derived = match derive_challenge_address(&self.crux_address, &seed, &self.program_id) {
            Some(d) => d,
            None => { return Err(ErrorCode::AddressMismatch) },
        };
        if derived.0 != supplied {
            return Err(ErrorCode::AddressMismatch);
        }
        let idx = match find_record(&self.challenges, supplied) {
            Some(i) => i,
            None => { return Err(ErrorCode::AccountNotFound) },
        };
        proof {
            lemma_found_index(self.challenges@, supplied, idx as int);
        }
        if self.challenges[idx].data.challenge_seed != seed || self.challenges[idx].data.crux
            != self.crux_address {
            return Err(ErrorCode::AddressMismatch);
        }
        Ok(idx)
    }
}

/// What can go wrong when a profile is deleted.
pub open spec fn delete_user_profile_error(
    pre: Store,
    caller: Address,
    user_profile: Address,
    receiver_wallet: u64,
) -> Option<ErrorCode> {
    let derived = pda_of("user_profile"@, seq![pre.crux_address, caller], pre.program_id);
    if derived is None || derived->Some_0.0 != user_profile {
        Some(ErrorCode::AddressMismatch)
    } else if !has_record_at(pre.profiles@, user_profile) {
        Some(ErrorCode::AccountNotFound)
    } else if record_at(pre.profiles@, user_profile).data.profile_owner != caller || record_at(
        pre.profiles@,
        user_profile,
    ).data.crux != pre.crux_address {
        Some(ErrorCode::AddressMismatch)
    } else if record_at(pre.profiles@, user_profile).data.challenges_submitted != 0 {
        Some(ErrorCode::NotAllChildrenClosed)
    } else if receiver_wallet + record_at(pre.profiles@, user_profile).balance > u64::MAX {
        Some(ErrorCode::Overflow)
    } else {
        None
    }
}

impl Store {
    /// Deletes the caller's own profile, refunding the record's balance to
    /// the receiver and lowering the tenant's profile counter by one.
    /// Refused while the profile still owns live submissions, which would
    /// otherwise leave the submission bookkeeping dangling.
    pub fn delete_user_profile(
        &mut self,
        caller: Address,
        user_profile: Address,
        receiver_wallet: &mut u64,
    ) -> (r: Result<(), ErrorCode>)
        requires
            old(self).wf(),
            old(self).live,
        ensures
            final(self).wf(),
            final(self).live,
            ({
                let err = delete_user_profile_error(
                    *old(self),
                    caller,
                    user_profile,
                    *old(receiver_wallet),
                );
                match r {
                    Ok(()) => {
                        &&& err is None
                        &&& ({
                            let i = record_index(old(self).profiles@, user_profile);
                            &&& final(self).profiles@ == old(self).profiles@.remove(i)
                            &&& *final(receiver_wallet) == *old(receiver_wallet) + old(
                                self,
                            ).profiles@[i].balance
                        })
                        &&& final(self).crux == (Crux {
                            crux_counts: (CruxCounts {
                                profile_count: (old(self).crux.crux_counts.profile_count
                                    - 1) as u64,
                                ..old(self).crux.crux_counts
                            }),
                            ..old(self).crux
                        })
                        &&& final(self).challenges@ == old(self).challenges@
                        &&& final(self).submissions@ == old(self).submissions@
                        &&& final(self).treasury_balance == old(self).treasury_balance
                        &&& final(self).crux_balance == old(self).crux_balance
                        &&& final(self).crux_address == old(self).crux_address
                        &&& final(self).program_id == old(self).program_id
                    },
                    Err(e) => {
                        &&& err == Some(e)
                        &&& *final(self) == *old(self)
                        &&& *final(receiver_wallet) == *old(receiver_wallet)
                    },
                }
            }),
    {
        let derived = match derive_user_profile_address(
            &self.crux_address,
            &caller,
            &self.program_id,
        ) {
            Some(d) => d,
            None => { return Err(ErrorCode::AddressMismatch) },
        };
        if derived.0 != user_profile {
            return Err(ErrorCode::AddressMismatch);
        }
        let idx = match find_record(&self.profiles, user_profile) {
            Some(i) => i,
            None => { return Err(ErrorCode::AccountNotFound) },
        };
        proof {
            lemma_found_index(self.profiles@, user_profile, idx as int);
        }
        if self.profiles[idx].data.profile_owner != caller || self.profiles[idx].data.crux
            != self.crux_address {
            return Err(ErrorCode::AddressMismatch);
        }
        if self.profiles[idx].data.challenges_submitted != 0 {
            return Err(ErrorCode::NotAllChildrenClosed);
        }
        let new_receiver = try_add(*receiver_wallet, self.profiles[idx].balance)?;
        let new_count = match try_sub(self.crux.crux_counts.profile_count, 1) {
            Ok(v) => v,
            Err(e) => {
                proof {
                    assert(false);
                }
                return Err(e);
            },
        };
        *receiver_wallet = new_receiver;
        self.crux.crux_counts.profile_count = new_count;
        self.profiles.remove(idx);
        proof {
            let i = idx as int;
            let ps_old = old(self).profiles@;
            let ps_new = self.profiles@;
            let subs = self.submissions@;
            assert forall|k: int| 0 <= k < ps_new.len() implies {
                &&& (#[trigger] ps_new[k]) == (if k < i {
                    ps_old[k]
                } else {
                    ps_old[k + 1]
                })
            } by {}
            lemma_count_owned_zero(subs, user_profile);
            assert forall|k: int| 0 <= k < subs.len() implies has_profile_at(
                ps_new,
                (#[trigger] subs[k]).data.user_profile,
            ) by {
                let owner = subs[k].data.user_profile;
                let w = choose|w: int| 0 <= w < ps_old.len() && ps_old[w].address == owner;
                assert(owner != user_profile);
                if w < i {
                    assert(ps_new[w].address == owner);
                } else {
                    assert(ps_old[w].address != user_profile);
                    assert(w != i);
                    assert(ps_new[w - 1].address == owner);
                }
            }
        }
        Ok(())
    }
}

/// Appending a challenge that names this tenant at a fresh address — with
/// the challenge counter raised by one and nothing else changed — preserves
/// the store invariant.
proof fn lemma_wf_push_challenge(pre: Store, post: Store)
    requires
        pre.wf(),
        post.challenges@.len() == pre.challenges@.len() + 1,
        post.challenges@ == pre.challenges@.push(post.challenges@.last()),
        post.challenges@.last().data.crux == pre.crux_address,
        !has_record_at(pre.challenges@, post.challenges@.last().address),
        post.crux.crux_counts.challenge_count == pre.crux.crux_counts.challenge_count + 1,
        post.crux.crux_counts.profile_count == pre.crux.crux_counts.profile_count,
        post.crux.crux_counts.submission_count == pre.crux.crux_counts.submission_count,
        post.profiles@ == pre.profiles@,
        post.submissions@ == pre.submissions@,
        post.crux_address == pre.crux_address,
    ensures
        post.wf(),
{
    let cs_old = pre.challenges@;
    let cs_new = post.challenges@;
    assert forall|i: int, j: int|
        0 <= i < j < cs_new.len() implies cs_new[i].address != cs_new[j].address by {
        if j < cs_old.len() {
            assert(cs_new[i] == cs_old[i] && cs_new[j] == cs_old[j]);
        } else {
            assert(cs_new[i] == cs_old[i]);
        }
    }
    assert forall|i: int| 0 <= i < cs_new.len() implies (#[trigger] cs_new[i]).data.crux
        == post.crux_address by {
        if i < cs_old.len() {
            assert(cs_new[i] == cs_old[i]);
        }
    }
}

/// Replacing one challenge record — address, tenant reference kept —
/// preserves the store invariant, provided nothing else changed.
proof fn lemma_wf_update_challenge(pre: Store, post: Store, i: int)
    requires
        pre.wf(),
        0 <= i < pre.challenges@.len(),
        post.challenges@ == pre.challenges@.update(i, post.challenges@[i]),
        post.challenges@[i].address == pre.challenges@[i].address,
        post.challenges@[i].data.crux == pre.challenges@[i].data.crux,
        post.crux == pre.crux,
        post.crux_address == pre.crux_address,
        post.profiles@ == pre.profiles@,
        post.submissions@ == pre.submissions@,
    ensures
        post.wf(),
{
    let cs_old = pre.challenges@;
    let cs_new = post.challenges@;
    assert forall|k: int| 0 <= k < cs_new.len() implies (#[trigger] cs_new[k]).address
        == cs_old[k].address && cs_new[k].data.crux == cs_old[k].data.crux by {
        if k != i {
            assert(cs_new[k] == cs_old[k]);
        }
    }
}

/// Removing one challenge record — with the challenge counter lowered by
/// one and nothing else changed — preserves the store invariant.
proof fn lemma_wf_remove_challenge(pre: Store, post: Store, i: int)
    requires
        pre.wf(),
        0 <= i < pre.challenges@.len(),
        post.challenges@ == pre.challenges@.remove(i),
        post.crux.crux_counts.challenge_count == pre.crux.crux_counts.challenge_count - 1,
        post.crux.crux_counts.profile_count == pre.crux.crux_counts.profile_count,
        post.crux.crux_counts.submission_count == pre.crux.crux_counts.submission_count,
        post.profiles@ == pre.profiles@,
        post.submissions@ == pre.submissions@,
        post.crux_address == pre.crux_address,
    ensures
        post.wf(),
{
    let cs_old = pre.challenges@;
    let cs_new = post.challenges@;
    assert forall|k: int| 0 <= k < cs_new.len() implies (#[trigger] cs_new[k]) == (if k < i {
        cs_old[k]
    } else {
        cs_old[k + 1]
    }) by {}
}

/// Resolving a submission record from its challenge and its owning
/// profile: the supplied address must re-derive from both, a record must
/// live there, and the record must name both.
pub open spec fn submission_resolve_error(
    pre: Store,
    challenge: Address,
    user_profile: Address,
    supplied: Address,
) -> Option<ErrorCode> {
    let derived = pda_of("submission"@, seq![challenge, user_profile], pre.program_id);
    if derived is None || derived->Some_0.0 != supplied {
        Some(ErrorCode::AddressMismatch)
    } else if !has_record_at(pre.submissions@, supplied) {
        Some(ErrorCode::AccountNotFound)
    } else if record_at(pre.submissions@, supplied).data.challenge != challenge || record_at(
        pre.submissions@,
        supplied,
    ).data.user_profile != user_profile {
        Some(ErrorCode::AddressMismatch)
    } else {
        None
    }
}

impl Store {
    /// Re-derives and looks up the submission a profile made to a challenge.
    fn resolve_submission(
        &self,
        challenge: Address,
        user_profile: Address,
        supplied: Address,
    ) -> (r: Result<usize, ErrorCode>)
        requires
            distinct_addresses(self.submissions@),
        ensures
            match r {
                Ok(i) => {
                    &&& submission_resolve_error(*self, challenge, user_profile, supplied)
                        is None
                    &&& i < self.submissions@.len()
                    &&& i == record_index(self.submissions@, supplied)
                    &&& self.submissions@[i as int].address == supplied
                    &&& self.submissions@[i as int].data.challenge == challenge
                    &&& self.submissions@[i as int].data.user_profile == user_profile
                },
                Err(e) => submission_resolve_error(*self, challenge, user_profile, supplied)
                    == Some(e),
            },
    {
        let derived = match derive_submission_address(&challenge, &user_profile, &self.program_id) {
            Some(d) => d,
            None => { return Err(ErrorCode::AddressMismatch) },
        };
        if derived.0 != supplied {
            return Err(ErrorCode::AddressMismatch);
        }
        let idx = match find_record(&self.submissions, supplied) {
            Some(i) => i,
            None => { return Err(ErrorCode::AccountNotFound) },
        };
        proof {
            lemma_found_index(self.submissions@, supplied, idx as int);
        }
        if self.submissions[idx].data.challenge != challenge || self.submissions[idx].data.user_profile
            != user_profile {
            return Err(ErrorCode::AddressMismatch);
        }
        Ok(idx)
    }
}

/// Appending a submission owned by the profile at `pidx` — at a fresh
/// address, with the submission counter and that profile's owned count both
/// raised by one — preserves the store invariant.
proof fn lemma_wf_push_submission(pre: Store, post: Store, pidx: int)
    requires
        pre.wf(),
        0 <= pidx < pre.profiles@.len(),
        post.submissions@.len() == pre.submissions@.len() + 1,
        post.submissions@ == pre.submissions@.push(post.submissions@.last()),
        !has_record_at(pre.submissions@, post.submissions@.last().address),
        post.submissions@.last().data.user_profile == pre.profiles@[pidx].address,
        post.profiles@ == pre.profiles@.update(pidx, post.profiles@[pidx]),
        post.profiles@[pidx].address == pre.profiles@[pidx].address,
        post.profiles@[pidx].data.crux == pre.profiles@[pidx].data.crux,
        post.profiles@[pidx].data.challenges_submitted == pre.profiles@[
            pidx
        ].data.challenges_submitted + 1,
        post.crux.crux_counts.submission_count == pre.crux.crux_counts.submission_count + 1,
        post.crux.crux_counts.profile_count == pre.crux.crux_counts.profile_count,
        post.crux.crux_counts.challenge_count == pre.crux.crux_counts.challenge_count,
        post.challenges@ == pre.challenges@,
        post.crux_address == pre.crux_address,
    ensures
        post.wf(),
{
    let ps_old = pre.profiles@;
    let ps_new = post.profiles@;
    let ss_old = pre.submissions@;
    let ss_new = post.submissions@;
    let s = ss_new.last();
    assert forall|k: int| 0 <= k < ps_new.len() implies (#[trigger] ps_new[k]).address
        == ps_old[k].address && ps_new[k].data.crux == ps_old[k].data.crux by {
        if k != pidx {
            assert(ps_new[k] == ps_old[k]);
        }
    }
    assert forall|i: int, j: int|
        0 <= i < j < ss_new.len() implies ss_new[i].address != ss_new[j].address by {
        if j < ss_old.len() {
            assert(ss_new[i] == ss_old[i] && ss_new[j] == ss_old[j]);
        } else {
            assert(ss_new[i] == ss_old[i]);
        }
    }
    assert forall|k: int|
        0 <= k < ps_new.len() implies (#[trigger] ps_new[k]).data.challenges_submitted
        == count_owned(ss_new, ps_new[k].address) by {
        lemma_count_owned_push(ss_old, s, ps_old[k].address);
        if k != pidx {
            assert(ps_new[k] == ps_old[k]);
            assert(ps_old[k].address != ps_old[pidx].address);
        }
    }
    assert forall|k: int| 0 <= k < ss_new.len() implies has_profile_at(
        ps_new,
        (#[trigger] ss_new[k]).data.user_profile,
    ) by {
        if k < ss_old.len() {
            assert(ss_new[k] == ss_old[k]);
            let w = choose|w: int|
                0 <= w < ps_old.len() && ps_old[w].address == ss_old[k].data.user_profile;
            assert(ps_new[w].address == ss_new[k].data.user_profile);
        } else {
            assert(ps_new[pidx].address == s.data.user_profile);
        }
    }
}

/// Replacing one submission record — address and owning profile kept —
/// preserves the store invariant, provided nothing else changed.
proof fn lemma_wf_update_submission(pre: Store, post: Store, i: int)
    requires
        pre.wf(),
        0 <= i < pre.submissions@.len(),
        post.submissions@ == pre.submissions@.update(i, post.submissions@[i]),
        post.submissions@[i].address == pre.submissions@[i].address,
        post.submissions@[i].data.user_profile == pre.submissions@[i].data.user_profile,
        post.profiles@ == pre.profiles@,
        post.challenges@ == pre.challenges@,
        post.crux == pre.crux,
        post.crux_address == pre.crux_address,
    ensures
        post.wf(),
{
    let ss_old = pre.submissions@;
    let ss_new = post.submissions@;
    assert forall|k: int| 0 <= k < ss_new.len() implies (#[trigger] ss_new[k]).address
        == ss_old[k].address && ss_new[k].data.user_profile == ss_old[k].data.user_profile by {
        if k != i {
            assert(ss_new[k] == ss_old[k]);
        }
    }
    assert forall|k: int|
        0 <= k < post.profiles@.len() implies (#[trigger] post.profiles@[k]).data.challenges_submitted
        == count_owned(ss_new, post.profiles@[k].address) by {
        lemma_count_owned_same_owners(ss_old, ss_new, post.profiles@[k].address);
    }
}

/// Removing the submission at `i`, owned by the profile at `pidx` — with
/// the submission counter and that profile's owned count both lowered by
/// one — preserves the store invariant.
proof fn lemma_wf_remove_submission(pre: Store, post: Store, i: int, pidx: int)
    requires
        pre.wf(),
        0 <= i < pre.submissions@.len(),
        0 <= pidx < pre.profiles@.len(),
        pre.submissions@[i].data.user_profile == pre.profiles@[pidx].address,
        post.submissions@ == pre.submissions@.remove(i),
        post.profiles@ == pre.profiles@.update(pidx, post.profiles@[pidx]),
        post.profiles@[pidx].address == pre.profiles@[pidx].address,
        post.profiles@[pidx].data.crux == pre.profiles@[pidx].data.crux,
        post.profiles@[pidx].data.challenges_submitted == pre.profiles@[
            pidx
        ].data.challenges_submitted - 1,
        post.crux.crux_counts.submission_count == pre.crux.crux_counts.submission_count - 1,
        post.crux.crux_counts.profile_count == pre.crux.crux_counts.profile_count,
        post.crux.crux_counts.challenge_count == pre.crux.crux_counts.challenge_count,
        post.challenges@ == pre.challenges@,
        post.crux_address == pre.crux_address,
    ensures
        post.wf(),
{
    let ps_old = pre.profiles@;
    let ps_new = post.profiles@;
    let ss_old = pre.submissions@;
    let ss_new = post.submissions@;
    assert forall|k: int| 0 <= k < ps_new.len() implies (#[trigger] ps_new[k]).address
        == ps_old[k].address && ps_new[k].data.crux == ps_old[k].data.crux by {
        if k != pidx {
            assert(ps_new[k] == ps_old[k]);
        }
    }
    assert forall|k: int| 0 <= k < ss_new.len() implies (#[trigger] ss_new[k]) == (if k < i {
        ss_old[k]
    } else {
        ss_old[k + 1]
    }) by {}
    assert forall|k: int|
        0 <= k < ps_new.len() implies (#[trigger] ps_new[k]).data.challenges_submitted
        == count_owned(ss_new, ps_new[k].address) by {
        lemma_count_owned_remove(ss_old, i, ps_old[k].address);
        if k != pidx {
            assert(ps_new[k] == ps_old[k]);
            assert(ps_old[k].address != ps_old[pidx].address);
        }
    }
    assert forall|k: int| 0 <= k < ss_new.len() implies has_profile_at(
        ps_new,
        (#[trigger] ss_new[k]).data.user_profile,
    ) by {
        let owner = ss_new[k].data.user_profile;
        let w = choose|w: int| 0 <= w < ps_old.len() && ps_old[w].address == owner;
        assert(ps_new[w].address == owner);
    }
}

/// What can go wrong when a challenge is created.
pub open spec fn create_challenge_error(
    pre: Store,
    caller: Address,
    moderator_profile: Address,
    challenge: Address,
    challenge_seed: Address,
    record_reserve: u64,
    tags_len: nat,
    title: Seq<char>,
    url: Seq<char>,
    challenge_expires_ts: u64,
    wallet: u64,
    now_ts: u64,
) -> Option<ErrorCode> {
    let derived = pda_of("challenge"@, seq![pre.crux_address, challenge_seed], pre.program_id);
    if profile_resolve_error(pre, caller, moderator_profile) is Some {
        profile_resolve_error(pre, caller, moderator_profile)
    } else if !record_at(pre.profiles@, moderator_profile).data.is_moderator {
        Some(ErrorCode::ProfileIsNotModerator)
    } else if title.len() == 0 || url.len() == 0 {
        Some(ErrorCode::InvalidStringInput)
    } else if title.len() > MAX_TEXT_LEN || url.len() > MAX_TEXT_LEN {
        Some(ErrorCode::TitleOrUrlTooLong)
    } else if challenge_expires_ts <= now_ts {
        Some(ErrorCode::InvalidExpiryTs)
    } else if derived is None || derived->Some_0.0 != challenge {
        Some(ErrorCode::AddressMismatch)
    } else if has_record_at(pre.challenges@, challenge) {
        Some(ErrorCode::AccountAlreadyExists)
    } else if wallet < record_reserve {
        Some(ErrorCode::InsufficientFunds)
    } else if pre.crux.crux_counts.challenge_count + 1 > u64::MAX {
        Some(ErrorCode::Overflow)
    } else {
        None
    }
}

impl Store {
    /// Creates a challenge under this tenant, keyed by a caller-supplied
    /// seed address.  Moderator-only: the caller must own a profile of this
    /// tenant with the moderator flag.  The record is sized to fit its tag
    /// list, title and content locator, and the caller pays its reserve.
    pub fn create_challenge(
        &mut self,
        caller: Address,
        moderator_profile: Address,
        challenge: Address,
        challenge_seed: Address,
        record_reserve: u64,
        tags: Vec<Tags>,
        title: String,
        content_data_url: String,
        content_data_hash: Address,
        challenge_expires_ts: u64,
        reputation: u64,
        caller_wallet: &mut u64,
        now_ts: u64,
    ) -> (r: Result<(), ErrorCode>)
        requires
            old(self).wf(),
            old(self).live,
            tags@.len() <= u32::MAX,
        ensures
            final(self).wf(),
            final(self).live,
            ({
                let err = create_challenge_error(
                    *old(self),
                    caller,
                    moderator_profile,
                    challenge,
                    challenge_seed,
                    record_reserve,
                    tags@.len(),
                    title@,
                    content_data_url@,
                    challenge_expires_ts,
                    *old(caller_wallet),
                    now_ts,
                );
                match r {
                    Ok(()) => {
                        &&& err is None
                        &&& final(self).challenges@ == old(self).challenges@.push(
                            (Record {
                                address: challenge,
                                balance: record_reserve,
                                footprint: spec_challenge_footprint(
                                    tags@.len(),
                                    title@.len(),
                                    content_data_url@.len(),
                                ) as u64,
                                data: (Challenge {
                                    crux: old(self).crux_address,
                                    challenge_seed,
                                    challenge_posted_ts: now_ts,
                                    challenge_expires_ts,
                                    tags,
                                    title,
                                    content_data_url,
                                    content_data_hash,
                                    reputation,
                                }),
                            }),
                        )
                        &&& ({
                            let i = record_index(old(self).profiles@, moderator_profile);
                            let p = old(self).profiles@[i];
                            final(self).profiles@ == old(self).profiles@.update(
                                i,
                                (Record {
                                    data: (UserProfile {
                                        most_recent_engagement_ts: now_ts,
                                        ..p.data
                                    }),
                                    ..p
                                }),
                            )
                        })
                        &&& final(self).crux == (Crux {
                            crux_counts: (CruxCounts {
                                challenge_count: (old(self).crux.crux_counts.challenge_count
                                    + 1) as u64,
                                ..old(self).crux.crux_counts
                            }),
                            ..old(self).crux
                        })
                        &&& final(self).submissions@ == old(self).submissions@
                        &&& final(self).treasury_balance == old(self).treasury_balance
                        &&& final(self).crux_balance == old(self).crux_balance
                        &&& final(self).crux_address == old(self).crux_address
                        &&& final(self).program_id == old(self).program_id
                        &&& *final(caller_wallet) == *old(caller_wallet) - record_reserve
                    },
                    Err(e) => {
                        &&& err == Some(e)
                        &&& *final(self) == *old(self)
                        &&& *final(caller_wallet) == *old(caller_wallet)
                    },
                }
            }),
    {
        let pidx = match self.resolve_profile(caller, moderator_profile) {
            Ok(i) => i,
            Err(e) => { return Err(e) },
        };
        if !self.profiles[pidx].data.is_moderator {
            return Err(ErrorCode::ProfileIsNotModerator);
        }
        check_texts(title.as_str(), content_data_url.as_str())?;
        if challenge_expires_ts <= now_ts {
            return Err(ErrorCode::InvalidExpiryTs);
        }
        let derived = match derive_challenge_address(
            &self.crux_address,
            &challenge_seed,
            &self.program_id,
        ) {
            Some(d) => d,
            None => { return Err(ErrorCode::AddressMismatch) },
        };
        if derived.0 != challenge {
            return Err(ErrorCode::AddressMismatch);
        }
        match find_record(&self.challenges, challenge) {
            Some(_) => { return Err(ErrorCode::AccountAlreadyExists) },
            None => {},
        }
        let after_rent = match try_sub(*caller_wallet, record_reserve) {
            Ok(v) => v,
            Err(_) => { return Err(ErrorCode::InsufficientFunds) },
        };
        let new_count = try_add(self.crux.crux_counts.challenge_count, 1)?;
        let title_len = title.as_str().unicode_len();
        let url_len = content_data_url.as_str().unicode_len();
        let footprint = challenge_footprint(tags.len(), title_len, url_len);
        self.profiles[pidx].data.most_recent_engagement_ts = now_ts;
        proof {
            assert(self.profiles@ =~= old(self).profiles@.update(
                pidx as int,
                self.profiles@[pidx as int],
            ));
            lemma_wf_update_profile(*old(self), *self, pidx as int);
        }
        let ghost mid = *self;
        *caller_wallet = after_rent;
        self.crux.crux_counts.challenge_count = new_count;
        self.challenges.push(
            Record {
                address: challenge,
                balance: record_reserve,
                footprint,
                data: Challenge {
                    crux: self.crux_address,
                    challenge_seed,
                    challenge_posted_ts: now_ts,
                    challenge_expires_ts,
                    tags,
                    title,
                    content_data_url,
                    content_data_hash,
                    reputation,
                },
            },
        );
        proof {
            lemma_wf_push_challenge(mid, *self);
        }
        Ok(())
    }
}

/// What can go wrong when a challenge is edited.
pub open spec fn edit_challenge_error(
    pre: Store,
    caller: Address,
    moderator_profile: Address,
    challenge: Address,
    challenge_seed: Address,
    new_reserve: u64,
    tags_len: nat,
    title: Seq<char>,
    url: Seq<char>,
    new_challenge_expires_ts: u64,
    wallet: u64,
    now_ts: u64,
) -> Option<ErrorCode> {
    let new_size = spec_challenge_footprint(tags_len, title.len(), url.len());
    if profile_resolve_error(pre, caller, moderator_profile) is Some {
        profile_resolve_error(pre, caller, moderator_profile)
    } else if challenge_resolve_error(pre, challenge_seed, challenge) is Some {
        challenge_resolve_error(pre, challenge_seed, challenge)
    } else if !record_at(pre.profiles@, moderator_profile).data.is_moderator {
        Some(ErrorCode::ProfileIsNotModerator)
    } else if title.len() == 0 || url.len() == 0 {
        Some(ErrorCode::InvalidStringInput)
    } else if title.len() > MAX_TEXT_LEN || url.len() > MAX_TEXT_LEN {
        Some(ErrorCode::TitleOrUrlTooLong)
    } else if new_challenge_expires_ts <= now_ts {
        Some(ErrorCode::InvalidExpiryTs)
    } else if new_size > record_at(pre.challenges@, challenge).footprint && record_at(
        pre.challenges@,
        challenge,
    ).balance > new_reserve {
        Some(ErrorCode::Underflow)
    } else if new_size > record_at(pre.challenges@, challenge).footprint && wallet < new_reserve
        - record_at(pre.challenges@, challenge).balance {
        Some(ErrorCode::InsufficientFunds)
    } else {
        None
    }
}

impl Store {
    /// Overwrites a challenge's content, tags, expiry and reputation award.
    /// Moderator-only.  When the new dynamic fields outgrow the record's
    /// footprint, the caller first pays the difference between the new
    /// footprint's reserve and the record's balance, and the record is
    /// grown in place; its balance then equals `new_reserve`, the host's
    /// reserve for the new footprint.
    pub fn edit_challenge(
        &mut self,
        caller: Address,
        moderator_profile: Address,
        challenge: Address,
        challenge_seed: Address,
        new_reserve: u64,
        new_tags: Vec<Tags>,
        new_title: String,
        new_content_data_url: String,
        new_content_data_hash: Address,
        new_challenge_expires_ts: u64,
        new_reputation: u64,
        caller_wallet: &mut u64,
        now_ts: u64,
    ) -> (r: Result<(), ErrorCode>)
        requires
            old(self).wf(),
            old(self).live,
            new_tags@.len() <= u32::MAX,
        ensures
            final(self).wf(),
            final(self).live,
            ({
                let err = edit_challenge_error(
                    *old(self),
                    caller,
                    moderator_profile,
                    challenge,
                    challenge_seed,
                    new_reserve,
                    new_tags@.len(),
                    new_title@,
                    new_content_data_url@,
                    new_challenge_expires_ts,
                    *old(caller_wallet),
                    now_ts,
                );
                let new_size = spec_challenge_footprint(
                    new_tags@.len(),
                    new_title@.len(),
                    new_content_data_url@.len(),
                );
                match r {
                    Ok(()) => {
                        &&& err is None
                        &&& ({
                            let i = record_index(old(self).challenges@, challenge);
                            let c = old(self).challenges@[i];
                            let grew = new_size > c.footprint;
                            let paid = if grew {
                                (new_reserve - c.balance) as u64
                            } else {
                                0u64
                            };
                            &&& final(self).challenges@ == old(self).challenges@.update(
                                i,
                                (Record {
                                    balance: if grew {
                                        new_reserve
                                    } else {
                                        c.balance
                                    },
                                    footprint: if grew {
                                        new_size as u64
                                    } else {
                                        c.footprint
                                    },
                                    data: (Challenge {
                                        challenge_expires_ts: new_challenge_expires_ts,
                                        reputation: new_reputation,
                                        tags: new_tags,
                                        title: new_title,
                                        content_data_url: new_content_data_url,
                                        content_data_hash: new_content_data_hash,
                                        ..c.data
                                    }),
                                    ..c
                                }),
                            )
                            &&& *final(caller_wallet) == *old(caller_wallet) - paid
                            &&& grew ==> final(self).challenges@[i].balance == new_reserve
                        })
                        &&& ({
                            let j = record_index(old(self).profiles@, moderator_profile);
                            let p = old(self).profiles@[j];
                            final(self).profiles@ == old(self).profiles@.update(
                                j,
                                (Record {
                                    data: (UserProfile {
                                        most_recent_engagement_ts: now_ts,
                                        ..p.data
                                    }),
                                    ..p
                                }),
                            )
                        })
                        &&& final(self).crux == old(self).crux
                        &&& final(self).submissions@ == old(self).submissions@
                        &&& final(self).treasury_balance == old(self).treasury_balance
                        &&& final(self).crux_balance == old(self).crux_balance
                        &&& final(self).crux_address == old(self).crux_address
                        &&& final(self).program_id == old(self).program_id
                    },
                    Err(e) => {
                        &&& err == Some(e)
                        &&& *final(self) == *old(self)
                        &&& *final(caller_wallet) == *old(caller_wallet)
                    },
                }
            }),
    {
        let pidx = match self.resolve_profile(caller, moderator_profile) {
            Ok(i) => i,
            Err(e) => { return Err(e) },
        };
        let cidx = match self.resolve_challenge(challenge_seed, challenge) {
            Ok(i) => i,
            Err(e) => { return Err(e) },
        };
        if !self.profiles[pidx].data.is_moderator {
            return Err(ErrorCode::ProfileIsNotModerator);
        }
        check_texts(new_title.as_str(), new_content_data_url.as_str())?;
        if new_challenge_expires_ts <= now_ts {
            return Err(ErrorCode::InvalidExpiryTs);
        }
        let title_len = new_title.as_str().unicode_len();
        let url_len = new_content_data_url.as_str().unicode_len();
        let new_size = challenge_footprint(new_tags.len(), title_len, url_len);
        let old_balance = self.challenges[cidx].balance;
        let grew = new_size > self.challenges[cidx].footprint;
        let paid: u64 = if grew {
            let diff = try_sub(new_reserve, old_balance)?;
            match try_sub(*caller_wallet, diff) {
                Ok(_) => {},
                Err(_) => { return Err(ErrorCode::InsufficientFunds) },
            }
            diff
        } else {
            0
        };
        *caller_wallet = *caller_wallet - paid;
        if grew {
            self.challenges[cidx].balance = new_reserve;
            self.challenges[cidx].footprint = new_size;
        }
        self.challenges[cidx].data.challenge_expires_ts = new_challenge_expires_ts;
        self.challenges[cidx].data.reputation = new_reputation;
        self.challenges[cidx].data.tags = new_tags;
        self.challenges[cidx].data.title = new_title;
        self.challenges[cidx].data.content_data_url = new_content_data_url;
        self.challenges[cidx].data.content_data_hash = new_content_data_hash;
        proof {
            assert(self.challenges@ =~= old(self).challenges@.update(
                cidx as int,
                self.challenges@[cidx as int],
            ));
            lemma_wf_update_challenge(*old(self), *self, cidx as int);
        }
        let ghost mid = *self;
        self.profiles[pidx].data.most_recent_engagement_ts = now_ts;
        proof {
            assert(self.profiles@ =~= mid.profiles@.update(
                pidx as int,
                self.profiles@[pidx as int],
            ));
            lemma_wf_update_profile(mid, *self, pidx as int);
        }
        Ok(())
    }

    /// Deletes a challenge, refunding the record's balance to the receiver
    /// and lowering the tenant's challenge counter by one.  Moderator-only.
    /// Live submissions to the challenge are not affected.
    pub fn delete_challenge(
        &mut self,
        caller: Address,
        moderator_profile: Address,
        challenge: Address,
        challenge_seed: Address,
        receiver_wallet: &mut u64,
        now_ts: u64,
    ) -> (r: Result<(), ErrorCode>)
        requires
            old(self).wf(),
            old(self).live,
        ensures
            final(self).wf(),
            final(self).live,
            ({
                let err = if profile_resolve_error(*old(self), caller, moderator_profile)
                    is Some {
                    profile_resolve_error(*old(self), caller, moderator_profile)
                } else if challenge_resolve_error(*old(self), challenge_seed, challenge)
                    is Some {
                    challenge_resolve_error(*old(self), challenge_seed, challenge)
                } else if !record_at(old(self).profiles@, moderator_profile).data.is_moderator {
                    Some(ErrorCode::ProfileIsNotModerator)
                } else if *old(receiver_wallet) + record_at(
                    old(self).challenges@,
                    challenge,
                ).balance > u64::MAX {
                    Some(ErrorCode::Overflow)
                } else {
                    None
                };
                match r {
                    Ok(()) => {
                        &&& err is None
                        &&& ({
                            let i = record_index(old(self).challenges@, challenge);
                            &&& final(self).challenges@ == old(self).challenges@.remove(i)
                            &&& *final(receiver_wallet) == *old(receiver_wallet) + old(
                                self,
                            ).challenges@[i].balance
                        })
                        &&& ({
                            let j = record_index(old(self).profiles@, moderator_profile);
                            let p = old(self).profiles@[j];
                            final(self).profiles@ == old(self).profiles@.update(
                                j,
                                (Record {
                                    data: (UserProfile {
                                        most_recent_engagement_ts: now_ts,
                                        ..p.data
                                    }),
                                    ..p
                                }),
                            )
                        })
                        &&& final(self).crux == (Crux {
                            crux_counts: (CruxCounts {
                                challenge_count: (old(self).crux.crux_counts.challenge_count
                                    - 1) as u64,
                                ..old(self).crux.crux_counts
                            }),
                            ..old(self).crux
                        })
                        &&& final(self).submissions@ == old(self).submissions@
                        &&& final(self).treasury_balance == old(self).treasury_balance
                        &&& final(self).crux_balance == old(self).crux_balance
                        &&& final(self).crux_address == old(self).crux_address
                        &&& final(self).program_id == old(self).program_id
                    },
                    Err(e) => {
                        &&& err == Some(e)
                        &&& *final(self) == *old(self)
                        &&& *final(receiver_wallet) == *old(receiver_wallet)
                    },
                }
            }),
    {
        let pidx = match self.resolve_profile(caller, moderator_profile) {
            Ok(i) => i,
            Err(e) => { return Err(e) },
        };
        let cidx = match self.resolve_challenge(challenge_seed, challenge) {
            Ok(i) => i,
            Err(e) => { return Err(e) },
        };
        if !self.profiles[pidx].data.is_moderator {
            return Err(ErrorCode::ProfileIsNotModerator);
        }
        let new_receiver = try_add(*receiver_wallet, self.challenges[cidx].balance)?;
        let new_count = match try_sub(self.crux.crux_counts.challenge_count, 1) {
            Ok(v) => v,
            Err(e) => {
                proof {
                    assert(false);
                }
                return Err(e);
            },
        };
        *receiver_wallet = new_receiver;
        self.crux.crux_counts.challenge_count = new_count;
        self.challenges.remove(cidx);
        proof {
            lemma_wf_remove_challenge(*old(self), *self, cidx as int);
        }
        let ghost mid = *self;
        self.profiles[pidx].data.most_recent_engagement_ts = now_ts;
        proof {
            assert(self.profiles@ =~= mid.profiles@.update(
                pidx as int,
                self.profiles@[pidx as int],
            ));
            lemma_wf_update_profile(mid, *self, pidx as int);
        }
        Ok(())
    }
}

/// What can go wrong when a submission is created.
pub open spec fn create_submission_error(
    pre: Store,
    caller: Address,
    treasury: Address,
    user_profile: Address,
    challenge: Address,
    challenge_seed: Address,
    submission: Address,
    record_reserve: u64,
    wallet: u64,
    now_ts: u64,
) -> Option<ErrorCode> {
    let derived = pda_of("submission"@, seq![challenge, user_profile], pre.program_id);
    let fee = pre.crux.crux_fees.submission_fee;
    if treasury != pre.crux.crux_treasury {
        Some(ErrorCode::AddressMismatch)
    } else if profile_resolve_error(pre, caller, user_profile) is Some {
        profile_resolve_error(pre, caller, user_profile)
    } else if challenge_resolve_error(pre, challenge_seed, challenge) is Some {
        challenge_resolve_error(pre, challenge_seed, challenge)
    } else if record_at(pre.challenges@, challenge).data.challenge_expires_ts <= now_ts {
        Some(ErrorCode::ChallengeExpired)
    } else if derived is None || derived->Some_0.0 != submission {
        Some(ErrorCode::AddressMismatch)
    } else if has_record_at(pre.submissions@, submission) {
        Some(ErrorCode::AccountAlreadyExists)
    } else if wallet < record_reserve {
        Some(ErrorCode::InsufficientFunds)
    } else if wallet - record_reserve < fee {
        Some(ErrorCode::InsufficientFunds)
    } else if pre.treasury_balance + fee > u64::MAX {
        Some(ErrorCode::Overflow)
    } else if pre.crux.crux_counts.submission_count + 1 > u64::MAX {
        Some(ErrorCode::Overflow)
    } else if record_at(pre.profiles@, user_profile).data.challenges_submitted + 1 > u64::MAX {
        Some(ErrorCode::Overflow)
    } else {
        None
    }
}

impl Store {
    /// Creates the caller's submission to a challenge that has not expired,
    /// paying the tenant's submission fee — if non-zero — into the
    /// treasury.  The submission starts pending, with an empty content
    /// locator its owner fills in by editing.  Raises the tenant's
    /// submission counter and the owning profile's submitted counter.
    pub fn create_submission(
        &mut self,
        caller: Address,
        treasury: Address,
        user_profile: Address,
        challenge: Address,
        challenge_seed: Address,
        submission: Address,
        record_reserve: u64,
        caller_wallet: &mut u64,
        now_ts: u64,
    ) -> (r: Result<(), ErrorCode>)
        requires
            old(self).wf(),
            old(self).live,
        ensures
            final(self).wf(),
            final(self).live,
            ({
                let err = create_submission_error(
                    *old(self),
                    caller,
                    treasury,
                    user_profile,
                    challenge,
                    challenge_seed,
                    submission,
                    record_reserve,
                    *old(caller_wallet),
                    now_ts,
                );
                let fee = old(self).crux.crux_fees.submission_fee;
                match r {
                    Ok(()) => {
                        &&& err is None
                        &&& ({
                            let s = final(self).submissions@.last();
                            &&& final(self).submissions@ == old(self).submissions@.push(s)
                            &&& s.address == submission
                            &&& s.balance == record_reserve
                            &&& s.footprint == spec_submission_footprint(0)
                            &&& s.data.challenge == challenge
                            &&& s.data.user_profile == user_profile
                            &&& s.data.content_data_url@ == Seq::<char>::empty()
                            &&& s.data.content_data_hash == (Address { w0: 0, w1: 0, w2: 0, w3: 0 })
                            &&& s.data.submission_state == SubmissionState::Pending
                            &&& s.data.most_recent_engagement_ts == now_ts
                        })
                        &&& ({
                            let i = record_index(old(self).profiles@, user_profile);
                            let p = old(self).profiles@[i];
                            final(self).profiles@ == old(self).profiles@.update(
                                i,
                                (Record {
                                    data: (UserProfile {
                                        challenges_submitted: (p.data.challenges_submitted
                                            + 1) as u64,
                                        most_recent_engagement_ts: now_ts,
                                        ..p.data
                                    }),
                                    ..p
                                }),
                            )
                        })
                        &&& final(self).crux == (Crux {
                            crux_counts: (CruxCounts {
                                submission_count: (old(self).crux.crux_counts.submission_count
                                    + 1) as u64,
                                ..old(self).crux.crux_counts
                            }),
                            ..old(self).crux
                        })
                        &&& final(self).challenges@ == old(self).challenges@
                        &&& final(self).treasury_balance == old(self).treasury_balance + fee
                        &&& final(self).crux_balance == old(self).crux_balance
                        &&& final(self).crux_address == old(self).crux_address
                        &&& final(self).program_id == old(self).program_id
                        &&& *final(caller_wallet) == *old(caller_wallet) - record_reserve - fee
                    },
                    Err(e) => {
                        &&& err == Some(e)
                        &&& *final(self) == *old(self)
                        &&& *final(caller_wallet) == *old(caller_wallet)
                    },
                }
            }),
    {
        if treasury != self.crux.crux_treasury {
            return Err(ErrorCode::AddressMismatch);
        }
        let pidx = match self.resolve_profile(caller, user_profile) {
            Ok(i) => i,
            Err(e) => { return Err(e) },
        };
        let cidx = match self.resolve_challenge(challenge_seed, challenge) {
            Ok(i) => i,
            Err(e) => { return Err(e) },
        };
        if self.challenges[cidx].data.challenge_expires_ts <= now_ts {
            return Err(ErrorCode::ChallengeExpired);
        }
        let derived = match derive_submission_address(&challenge, &user_profile, &self.program_id) {
            Some(d) => d,
            None => { return Err(ErrorCode::AddressMismatch) },
        };
        if derived.0 != submission {
            return Err(ErrorCode::AddressMismatch);
        }
        match find_record(&self.submissions, submission) {
            Some(_) => { return Err(ErrorCode::AccountAlreadyExists) },
            None => {},
        }
        let after_rent = match try_sub(*caller_wallet, record_reserve) {
            Ok(v) => v,
            Err(_) => { return Err(ErrorCode::InsufficientFunds) },
        };
        let fee = self.crux.crux_fees.submission_fee;
        let after_fee = match try_sub(after_rent, fee) {
            Ok(v) => v,
            Err(_) => { return Err(ErrorCode::InsufficientFunds) },
        };
        let new_treasury = try_add(self.treasury_balance, fee)?;
        let new_count = try_add(self.crux.crux_counts.submission_count, 1)?;
        let new_submitted = try_add(self.profiles[pidx].data.challenges_submitted, 1)?;
        *caller_wallet = after_fee;
        self.treasury_balance = new_treasury;
        self.crux.crux_counts.submission_count = new_count;
        self.profiles[pidx].data.challenges_submitted = new_submitted;
        self.profiles[pidx].data.most_recent_engagement_ts = now_ts;
        let footprint = submission_footprint(0);
        self.submissions.push(
            Record {
                address: submission,
                balance: record_reserve,
                footprint,
                data: Submission {
                    challenge,
                    user_profile,
                    content_data_url: String::from_str(""),
                    content_data_hash: Address::zeroed(),
                    submission_state: SubmissionState::Pending,
                    most_recent_engagement_ts: now_ts,
                },
            },
        );
        proof {
            reveal_strlit("");
            assert(""@ =~= Seq::<char>::empty());
            assert(self.profiles@ =~= old(self).profiles@.update(
                pidx as int,
                self.profiles@[pidx as int],
            ));
            assert(self.submissions@ =~= old(self).submissions@.push(self.submissions@.last()));
            lemma_wf_push_submission(*old(self), *self, pidx as int);
        }
        Ok(())
    }
}

/// What can go wrong when a submission is edited.
pub open spec fn edit_submission_error(
    pre: Store,
    caller: Address,
    user_profile: Address,
    challenge: Address,
    challenge_seed: Address,
    submission: Address,
    new_reserve: u64,
    url: Seq<char>,
    wallet: u64,
    now_ts: u64,
) -> Option<ErrorCode> {
    let new_size = spec_submission_footprint(url.len());
    if profile_resolve_error(pre, caller, user_profile) is Some {
        profile_resolve_error(pre, caller, user_profile)
    } else if challenge_resolve_error(pre, challenge_seed, challenge) is Some {
        challenge_resolve_error(pre, challenge_seed, challenge)
    } else if submission_resolve_error(pre, challenge, user_profile, submission) is Some {
        submission_resolve_error(pre, challenge, user_profile, submission)
    } else if url.len() == 0 {
        Some(ErrorCode::InvalidStringInput)
    } else if url.len() > MAX_TEXT_LEN {
        Some(ErrorCode::TitleOrUrlTooLong)
    } else if record_at(pre.challenges@, challenge).data.challenge_expires_ts <= now_ts {
        Some(ErrorCode::ChallengeExpired)
    } else if new_size > record_at(pre.submissions@, submission).footprint && record_at(
        pre.submissions@,
        submission,
    ).balance > new_reserve {
        Some(ErrorCode::Underflow)
    } else if new_size > record_at(pre.submissions@, submission).footprint && wallet < new_reserve
        - record_at(pre.submissions@, submission).balance {
        Some(ErrorCode::InsufficientFunds)
    } else {
        None
    }
}

impl Store {
    /// Overwrites the content locator and hash of the caller's own
    /// submission to an unexpired challenge, and resets its state to
    /// pending — a re-submission awaits evaluation anew whatever state it
    /// was in.  When the new locator outgrows the record's footprint, the
    /// caller first pays the difference between the new footprint's
    /// reserve and the record's balance, and the record is grown in place.
    pub fn edit_submission(
        &mut self,
        caller: Address,
        user_profile: Address,
        challenge: Address,
        challenge_seed: Address,
        submission: Address,
        new_reserve: u64,
        new_content_data_url: String,
        new_content_data_hash: Address,
        caller_wallet: &mut u64,
        now_ts: u64,
    ) -> (r: Result<(), ErrorCode>)
        requires
            old(self).wf(),
            old(self).live,
        ensures
            final(self).wf(),
            final(self).live,
            ({
                let err = edit_submission_error(
                    *old(self),
                    caller,
                    user_profile,
                    challenge,
                    challenge_seed,
                    submission,
                    new_reserve,
                    new_content_data_url@,
                    *old(caller_wallet),
                    now_ts,
                );
                let new_size = spec_submission_footprint(new_content_data_url@.len());
                match r {
                    Ok(()) => {
                        &&& err is None
                        &&& ({
                            let i = record_index(old(self).submissions@, submission);
                            let s = old(self).submissions@[i];
                            let grew = new_size > s.footprint;
                            let paid = if grew {
                                (new_reserve - s.balance) as u64
                            } else {
                                0u64
                            };
                            &&& final(self).submissions@ == old(self).submissions@.update(
                                i,
                                (Record {
                                    balance: if grew {
                                        new_reserve
                                    } else {
                                        s.balance
                                    },
                                    footprint: if grew {
                                        new_size as u64
                                    } else {
                                        s.footprint
                                    },
                                    data: (Submission {
                                        content_data_url: new_content_data_url,
                                        content_data_hash: new_content_data_hash,
                                        submission_state: SubmissionState::Pending,
                                        most_recent_engagement_ts: now_ts,
                                        ..s.data
                                    }),
                                    ..s
                                }),
                            )
                            &&& *final(caller_wallet) == *old(caller_wallet) - paid
                            &&& grew ==> final(self).submissions@[i].balance == new_reserve
                        })
                        &&& ({
                            let j = record_index(old(self).profiles@, user_profile);
                            let p = old(self).profiles@[j];
                            final(self).profiles@ == old(self).profiles@.update(
                                j,
                                (Record {
                                    data: (UserProfile {
                                        most_recent_engagement_ts: now_ts,
                                        ..p.data
                                    }),
                                    ..p
                                }),
                            )
                        })
                        &&& final(self).crux == old(self).crux
                        &&& final(self).challenges@ == old(self).challenges@
                        &&& final(self).treasury_balance == old(self).treasury_balance
                        &&& final(self).crux_balance == old(self).crux_balance
                        &&& final(self).crux_address == old(self).crux_address
                        &&& final(self).program_id == old(self).program_id
                    },
                    Err(e) => {
                        &&& err == Some(e)
                        &&& *final(self) == *old(self)
                        &&& *final(caller_wallet) == *old(caller_wallet)
                    },
                }
            }),
    {
        let pidx = match self.resolve_profile(caller, user_profile) {
            Ok(i) => i,
            Err(e) => { return Err(e) },
        };
        let cidx = match self.resolve_challenge(challenge_seed, challenge) {
            Ok(i) => i,
            Err(e) => { return Err(e) },
        };
        let sidx = match self.resolve_submission(challenge, user_profile, submission) {
            Ok(i) => i,
            Err(e) => { return Err(e) },
        };
        let url_len = new_content_data_url.as_str().unicode_len();
        if url_len == 0 {
            return Err(ErrorCode::InvalidStringInput);
        }
        if url_len > MAX_TEXT_LEN {
            return Err(ErrorCode::TitleOrUrlTooLong);
        }
        if self.challenges[cidx].data.challenge_expires_ts <= now_ts {
            return Err(ErrorCode::ChallengeExpired);
        }
        let new_size = submission_footprint(url_len);
        let old_balance = self.submissions[sidx].balance;
        let grew = new_size > self.submissions[sidx].footprint;
        let paid: u64 = if grew {
            let diff = try_sub(new_reserve, old_balance)?;
            match try_sub(*caller_wallet, diff) {
                Ok(_) => {},
                Err(_) => { return Err(ErrorCode::InsufficientFunds) },
            }
            diff
        } else {
            0
        };
        *caller_wallet = *caller_wallet - paid;
        if grew {
            self.submissions[sidx].balance = new_reserve;
            self.submissions[sidx].footprint = new_size;
        }
        self.submissions[sidx].data.content_data_url = new_content_data_url;
        self.submissions[sidx].data.content_data_hash = new_content_data_hash;
        self.submissions[sidx].data.submission_state = SubmissionState::Pending;
        self.submissions[sidx].data.most_recent_engagement_ts = now_ts;
        proof {
            assert(self.submissions@ =~= old(self).submissions@.update(
                sidx as int,
                self.submissions@[sidx as int],
            ));
            lemma_wf_update_submission(*old(self), *self, sidx as int);
        }
        let ghost mid = *self;
        self.profiles[pidx].data.most_recent_engagement_ts = now_ts;
        proof {
            assert(self.profiles@ =~= mid.profiles@.update(
                pidx as int,
                self.profiles@[pidx as int],
            ));
            lemma_wf_update_profile(mid, *self, pidx as int);
        }
        Ok(())
    }
}

/// What can go wrong when an owner deletes their submission.
pub open spec fn delete_submission_error(
    pre: Store,
    caller: Address,
    user_profile: Address,
    challenge: Address,
    challenge_seed: Address,
    submission: Address,
    receiver_wallet: u64,
) -> Option<ErrorCode> {
    if profile_resolve_error(pre, caller, user_profile) is Some {
        profile_resolve_error(pre, caller, user_profile)
    } else if challenge_resolve_error(pre, challenge_seed, challenge) is Some {
        challenge_resolve_error(pre, challenge_seed, challenge)
    } else if submission_resolve_error(pre, challenge, user_profile, submission) is Some {
        submission_resolve_error(pre, challenge, user_profile, submission)
    } else if record_at(pre.submissions@, submission).data.submission_state
        == SubmissionState::Completed {
        Some(ErrorCode::AccountCannotBeEdited)
    } else if receiver_wallet + record_at(pre.submissions@, submission).balance > u64::MAX {
        Some(ErrorCode::Overflow)
    } else {
        None
    }
}

/// What can go wrong when a moderator deletes a submission.
pub open spec fn delete_submission_moderator_error(
    pre: Store,
    caller: Address,
    moderator_profile: Address,
    user_profile: Address,
    challenge: Address,
    challenge_seed: Address,
    submission: Address,
    receiver_wallet: u64,
) -> Option<ErrorCode> {
    if profile_resolve_error(pre, caller, moderator_profile) is Some {
        profile_resolve_error(pre, caller, moderator_profile)
    } else if !record_at(pre.profiles@, moderator_profile).data.is_moderator {
        Some(ErrorCode::ProfileIsNotModerator)
    } else if challenge_resolve_error(pre, challenge_seed, challenge) is Some {
        challenge_resolve_error(pre, challenge_seed, challenge)
    } else if submission_resolve_error(pre, challenge, user_profile, submission) is Some {
        submission_resolve_error(pre, challenge, user_profile, submission)
    } else if !has_record_at(pre.profiles@, user_profile) {
        Some(ErrorCode::AccountNotFound)
    } else if receiver_wallet + record_at(pre.submissions@, submission).balance > u64::MAX {
        Some(ErrorCode::Overflow)
    } else {
        None
    }
}

impl Store {
    /// Deletes the caller's own submission, refunding the record's balance
    /// to the receiver.  Refused once the submission has been evaluated as
    /// completed.  Lowers the tenant's submission counter and the owning
    /// profile's submitted counter.
    pub fn delete_submission(
        &mut self,
        caller: Address,
        user_profile: Address,
        challenge: Address,
        challenge_seed: Address,
        submission: Address,
        receiver_wallet: &mut u64,
        now_ts: u64,
    ) -> (r: Result<(), ErrorCode>)
        requires
            old(self).wf(),
            old(self).live,
        ensures
            final(self).wf(),
            final(self).live,
            ({
                let err = delete_submission_error(
                    *old(self),
                    caller,
                    user_profile,
                    challenge,
                    challenge_seed,
                    submission,
                    *old(receiver_wallet),
                );
                match r {
                    Ok(()) => {
                        &&& err is None
                        &&& ({
                            let i = record_index(old(self).submissions@, submission);
                            &&& final(self).submissions@ == old(self).submissions@.remove(i)
                            &&& *final(receiver_wallet) == *old(receiver_wallet) + old(
                                self,
                            ).submissions@[i].balance
                        })
                        &&& ({
                            let j = record_index(old(self).profiles@, user_profile);
                            let p = old(self).profiles@[j];
                            final(self).profiles@ == old(self).profiles@.update(
                                j,
                                (Record {
                                    data: (UserProfile {
                                        challenges_submitted: (p.data.challenges_submitted
                                            - 1) as u64,
                                        most_recent_engagement_ts: now_ts,
                                        ..p.data
                                    }),
                                    ..p
                                }),
                            )
                        })
                        &&& final(self).crux == (Crux {
                            crux_counts: (CruxCounts {
                                submission_count: (old(self).crux.crux_counts.submission_count
                                    - 1) as u64,
                                ..old(self).crux.crux_counts
                            }),
                            ..old(self).crux
                        })
                        &&& final(self).challenges@ == old(self).challenges@
                        &&& final(self).treasury_balance == old(self).treasury_balance
                        &&& final(self).crux_balance == old(self).crux_balance
                        &&& final(self).crux_address == old(self).crux_address
                        &&& final(self).program_id == old(self).program_id
                    },
                    Err(e) => {
                        &&& err == Some(e)
                        &&& *final(self) == *old(self)
                        &&& *final(receiver_wallet) == *old(receiver_wallet)
                    },
                }
            }),
    {
        let pidx = match self.resolve_profile(caller, user_profile) {
            Ok(i) => i,
            Err(e) => { return Err(e) },
        };
        match self.resolve_challenge(challenge_seed, challenge) {
            Ok(_) => {},
            Err(e) => { return Err(e) },
        }
        let sidx = match self.resolve_submission(challenge, user_profile, submission) {
            Ok(i) => i,
            Err(e) => { return Err(e) },
        };
        if self.submissions[sidx].data.submission_state == SubmissionState::Completed {
            return Err(ErrorCode::AccountCannotBeEdited);
        }
        let new_receiver = try_add(*receiver_wallet, self.submissions[sidx].balance)?;
        proof {
            lemma_count_owned_remove(self.submissions@, sidx as int, user_profile);
        }
        let new_count = match try_sub(self.crux.crux_counts.submission_count, 1) {
            Ok(v) => v,
            Err(e) => {
                proof {
                    assert(false);
                }
                return Err(e);
            },
        };
        let new_submitted = match try_sub(self.profiles[pidx].data.challenges_submitted, 1) {
            Ok(v) => v,
            Err(e) => {
                proof {
                    assert(false);
                }
                return Err(e);
            },
        };
        *receiver_wallet = new_receiver;
        self.crux.crux_counts.submission_count = new_count;
        self.profiles[pidx].data.challenges_submitted = new_submitted;
        self.profiles[pidx].data.most_recent_engagement_ts = now_ts;
        self.submissions.remove(sidx);
        proof {
            assert(self.profiles@ =~= old(self).profiles@.update(
                pidx as int,
                self.profiles@[pidx as int],
            ));
            lemma_wf_remove_submission(*old(self), *self, sidx as int, pidx as int);
        }
        Ok(())
    }

    /// Deletes any submission as a moderator, whatever its state — the
    /// removal path for spam and abuse.  Refunds the record's balance to
    /// the receiver and lowers the tenant's submission counter and the
    /// owning profile's submitted counter.
    pub fn delete_submission_moderator(
        &mut self,
        caller: Address,
        moderator_profile: Address,
        user_profile: Address,
        challenge: Address,
        challenge_seed: Address,
        submission: Address,
        receiver_wallet: &mut u64,
        now_ts: u64,
    ) -> (r: Result<(), ErrorCode>)
        requires
            old(self).wf(),
            old(self).live,
        ensures
            final(self).wf(),
            final(self).live,
            ({
                let err = delete_submission_moderator_error(
                    *old(self),
                    caller,
                    moderator_profile,
                    user_profile,
                    challenge,
                    challenge_seed,
                    submission,
                    *old(receiver_wallet),
                );
                match r {
                    Ok(()) => {
                        &&& err is None
                        &&& ({
                            let i = record_index(old(self).submissions@, submission);
                            &&& final(self).submissions@ == old(self).submissions@.remove(i)
                            &&& *final(receiver_wallet) == *old(receiver_wallet) + old(
                                self,
                            ).submissions@[i].balance
                        })
                        &&& ({
                            let oi = record_index(old(self).profiles@, user_profile);
                            let p = old(self).profiles@[oi];
                            let ps1 = old(self).profiles@.update(
                                oi,
                                (Record {
                                    data: (UserProfile {
                                        challenges_submitted: (p.data.challenges_submitted
                                            - 1) as u64,
                                        ..p.data
                                    }),
                                    ..p
                                }),
                            );
                            let mi = record_index(old(self).profiles@, moderator_profile);
                            let m = ps1[mi];
                            final(self).profiles@ == ps1.update(
                                mi,
                                (Record {
                                    data: (UserProfile {
                                        most_recent_engagement_ts: now_ts,
                                        ..m.data
                                    }),
                                    ..m
                                }),
                            )
                        })
                        &&& final(self).crux == (Crux {
                            crux_counts: (CruxCounts {
                                submission_count: (old(self).crux.crux_counts.submission_count
                                    - 1) as u64,
                                ..old(self).crux.crux_counts
                            }),
                            ..old(self).crux
                        })
                        &&& final(self).challenges@ == old(self).challenges@
                        &&& final(self).treasury_balance == old(self).treasury_balance
                        &&& final(self).crux_balance == old(self).crux_balance
                        &&& final(self).crux_address == old(self).crux_address
                        &&& final(self).program_id == old(self).program_id
                    },
                    Err(e) => {
                        &&& err == Some(e)
                        &&& *final(self) == *old(self)
                        &&& *final(receiver_wallet) == *old(receiver_wallet)
                    },
                }
            }),
    {
        let midx = match self.resolve_profile(caller, moderator_profile) {
            Ok(i) => i,
            Err(e) => { return Err(e) },
        };
        if !self.profiles[midx].data.is_moderator {
            return Err(ErrorCode::ProfileIsNotModerator);
        }
        match self.resolve_challenge(challenge_seed, challenge) {
            Ok(_) => {},
            Err(e) => { return Err(e) },
        }
        let sidx = match self.resolve_submission(challenge, user_profile, submission) {
            Ok(i) => i,
            Err(e) => { return Err(e) },
        };
        let oidx = match find_record(&self.profiles, user_profile) {
            Some(i) => i,
            None => { return Err(ErrorCode::AccountNotFound) },
        };
        proof {
            lemma_found_index(self.profiles@, user_profile, oidx as int);
        }
        let new_receiver = try_add(*receiver_wallet, self.submissions[sidx].balance)?;
        proof {
            lemma_count_owned_remove(self.submissions@, sidx as int, user_profile);
        }
        let new_count = match try_sub(self.crux.crux_counts.submission_count, 1) {
            Ok(v) => v,
            Err(e) => {
                proof {
                    assert(false);
                }
                return Err(e);
            },
        };
        let new_submitted = match try_sub(self.profiles[oidx].data.challenges_submitted, 1) {
            Ok(v) => v,
            Err(e) => {
                proof {
                    assert(false);
                }
                return Err(e);
            },
        };
        *receiver_wallet = new_receiver;
        self.crux.crux_counts.submission_count = new_count;
        self.profiles[oidx].data.challenges_submitted = new_submitted;
        self.submissions.remove(sidx);
        proof {
            assert(self.profiles@ =~= old(self).profiles@.update(
                oidx as int,
                self.profiles@[oidx as int],
            ));
            lemma_wf_remove_submission(*old(self), *self, sidx as int, oidx as int);
        }
        let ghost mid = *self;
        self.profiles[midx].data.most_recent_engagement_ts = now_ts;
        proof {
            assert(self.profiles@ =~= mid.profiles@.update(
                midx as int,
                self.profiles@[midx as int],
            ));
            lemma_wf_update_profile(mid, *self, midx as int);
        }
        Ok(())
    }
}

/// What can go wrong when a submission is evaluated.
pub open spec fn evaluate_submission_error(
    pre: Store,
    caller: Address,
    moderator_profile: Address,
    user_profile: Address,
    challenge: Address,
    challenge_seed: Address,
    submission: Address,
    new_state: SubmissionState,
) -> Option<ErrorCode> {
    let entering = submission_resolve_error(pre, challenge, user_profile, submission) is None
        && record_at(pre.submissions@, submission).data.submission_state
        != SubmissionState::Completed && new_state == SubmissionState::Completed;
    if profile_resolve_error(pre, caller, moderator_profile) is Some {
        profile_resolve_error(pre, caller, moderator_profile)
    } else if !record_at(pre.profiles@, moderator_profile).data.is_moderator {
        Some(ErrorCode::ProfileIsNotModerator)
    } else if challenge_resolve_error(pre, challenge_seed, challenge) is Some {
        challenge_resolve_error(pre, challenge_seed, challenge)
    } else if submission_resolve_error(pre, challenge, user_profile, submission) is Some {
        submission_resolve_error(pre, challenge, user_profile, submission)
    } else if !has_record_at(pre.profiles@, user_profile) {
        Some(ErrorCode::AccountNotFound)
    } else if entering && record_at(pre.profiles@, user_profile).data.challenges_completed + 1
        > u64::MAX {
        Some(ErrorCode::Overflow)
    } else if entering && record_at(pre.profiles@, user_profile).data.reputation_score
        + record_at(pre.challenges@, challenge).data.reputation > u64::MAX {
        Some(ErrorCode::Overflow)
    } else {
        None
    }
}

impl Store {
    /// Evaluates a submission: a moderator of this tenant assigns it the
    /// completed or the rejected state.  On the transition into the
    /// completed state the owning profile is credited: its completed
    /// counter rises by one and its reputation score by the challenge's
    /// reputation award.
    pub fn evaluate_submission(
        &mut self,
        caller: Address,
        moderator_profile: Address,
        user_profile: Address,
        challenge: Address,
        challenge_seed: Address,
        submission: Address,
        new_state: SubmissionState,
        now_ts: u64,
    ) -> (r: Result<(), ErrorCode>)
        requires
            old(self).wf(),
            old(self).live,
            new_state != SubmissionState::Pending,
        ensures
            final(self).wf(),
            final(self).live,
            ({
                let err = evaluate_submission_error(
                    *old(self),
                    caller,
                    moderator_profile,
                    user_profile,
                    challenge,
                    challenge_seed,
                    submission,
                    new_state,
                );
                let entering = record_at(old(self).submissions@, submission).data.submission_state
                    != SubmissionState::Completed && new_state == SubmissionState::Completed;
                match r {
                    Ok(()) => {
                        &&& err is None
                        &&& record_at(old(self).profiles@, moderator_profile).data.is_moderator
                        &&& record_at(old(self).profiles@, moderator_profile).data.profile_owner
                            == caller
                        &&& ({
                            let i = record_index(old(self).submissions@, submission);
                            let s = old(self).submissions@[i];
                            final(self).submissions@ == old(self).submissions@.update(
                                i,
                                (Record {
                                    data: (Submission { submission_state: new_state, ..s.data }),
                                    ..s
                                }),
                            )
                        })
                        &&& ({
                            let oi = record_index(old(self).profiles@, user_profile);
                            let p = old(self).profiles@[oi];
                            let award = record_at(old(self).challenges@, challenge).data.reputation;
                            let ps1 = old(self).profiles@.update(
                                oi,
                                (Record {
                                    data: (UserProfile {
                                        challenges_completed: if entering {
                                            (p.data.challenges_completed + 1) as u64
                                        } else {
                                            p.data.challenges_completed
                                        },
                                        reputation_score: if entering {
                                            (p.data.reputation_score + award) as u64
                                        } else {
                                            p.data.reputation_score
                                        },
                                        ..p.data
                                    }),
                                    ..p
                                }),
                            );
                            let mi = record_index(old(self).profiles@, moderator_profile);
                            let m = ps1[mi];
                            final(self).profiles@ == ps1.update(
                                mi,
                                (Record {
                                    data: (UserProfile {
                                        most_recent_engagement_ts: now_ts,
                                        ..m.data
                                    }),
                                    ..m
                                }),
                            )
                        })
                        &&& final(self).crux == old(self).crux
                        &&& final(self).challenges@ == old(self).challenges@
                        &&& final(self).treasury_balance == old(self).treasury_balance
                        &&& final(self).crux_balance == old(self).crux_balance
                        &&& final(self).crux_address == old(self).crux_address
                        &&& final(self).program_id == old(self).program_id
                    },
                    Err(e) => {
                        &&& err == Some(e)
                        &&& *final(self) == *old(self)
                    },
                }
            }),
    {
        let midx = match self.resolve_profile(caller, moderator_profile) {
            Ok(i) => i,
            Err(e) => { return Err(e) },
        };
        if !self.profiles[midx].data.is_moderator {
            return Err(ErrorCode::ProfileIsNotModerator);
        }
        let cidx = match self.resolve_challenge(challenge_seed, challenge) {
            Ok(i) => i,
            Err(e) => { return Err(e) },
        };
        let sidx = match self.resolve_submission(challenge, user_profile, submission) {
            Ok(i) => i,
            Err(e) => { return Err(e) },
        };
        let oidx = match find_record(&self.profiles, user_profile) {
            Some(i) => i,
            None => { return Err(ErrorCode::AccountNotFound) },
        };
        proof {
            lemma_found_index(self.profiles@, user_profile, oidx as int);
        }
        let entering = self.submissions[sidx].data.submission_state != SubmissionState::Completed
            && new_state == SubmissionState::Completed;
        let (new_completed, new_reputation) = if entering {
            let c = try_add(self.profiles[oidx].data.challenges_completed, 1)?;
            let s = try_add(
                self.profiles[oidx].data.reputation_score,
                self.challenges[cidx].data.reputation,
            )?;
            (c, s)
        } else {
            (
                self.profiles[oidx].data.challenges_completed,
                self.profiles[oidx].data.reputation_score,
            )
        };
        self.submissions[sidx].data.submission_state = new_state;
        proof {
            assert(self.submissions@ =~= old(self).submissions@.update(
                sidx as int,
                self.submissions@[sidx as int],
            ));
            lemma_wf_update_submission(*old(self), *self, sidx as int);
        }
        let ghost mid1 = *self;
        self.profiles[oidx].data.challenges_completed = new_completed;
        self.profiles[oidx].data.reputation_score = new_reputation;
        proof {
            assert(self.profiles@ =~= mid1.profiles@.update(
                oidx as int,
                self.profiles@[oidx as int],
            ));
            lemma_wf_update_profile(mid1, *self, oidx as int);
        }
        let ghost mid2 = *self;
        self.profiles[midx].data.most_recent_engagement_ts = now_ts;
        proof {
            assert(self.profiles@ =~= mid2.profiles@.update(
                midx as int,
                self.profiles@[midx as int],
            ));
            lemma_wf_update_profile(mid2, *self, midx as int);
        }
        Ok(())
    }
}

/// Closes one stored record: its whole balance moves to the receiver and
/// the record ceases to exist.  The model of the host's record-close
/// primitive, shared by every deletion path.
pub fn close_account(record_balance: u64, receiver_wallet: &mut u64) -> (r: Result<
    (),
    ErrorCode,
>)
    ensures
        *old(receiver_wallet) + record_balance <= u64::MAX ==> r == Ok::<(), ErrorCode>(())
            && *final(receiver_wallet) == *old(receiver_wallet) + record_balance,
        *old(receiver_wallet) + record_balance > u64::MAX ==> r == Err::<(), ErrorCode>(
            ErrorCode::Overflow,
        ) && *final(receiver_wallet) == *old(receiver_wallet),
{
    let new_receiver = try_add(*receiver_wallet, record_balance)?;
    *receiver_wallet = new_receiver;
    Ok(())
}

/// Replacing one submission by one that is not completed cannot make a
/// submission completed that was not.
proof fn lemma_no_new_completed_update(
    old_s: Seq<Record<Submission>>,
    new_s: Seq<Record<Submission>>,
    i: int,
)
    requires
        0 <= i < old_s.len(),
        new_s == old_s.update(i, new_s[i]),
        new_s[i].data.submission_state != SubmissionState::Completed,
    ensures
        forall|a: Address|
            submission_completed_at(new_s, a) ==> submission_completed_at(old_s, a),
{
    assert forall|a: Address|
        submission_completed_at(new_s, a) implies submission_completed_at(old_s, a) by {
        let j = choose|j: int|
            0 <= j < new_s.len() && (#[trigger] new_s[j]).address == a
                && new_s[j].data.submission_state == SubmissionState::Completed;
        assert(j != i);
        assert(old_s[j] == new_s[j]);
    }
}

/// Removing a submission cannot make a submission completed that was not.
proof fn lemma_no_new_completed_remove(
    old_s: Seq<Record<Submission>>,
    new_s: Seq<Record<Submission>>,
    i: int,
)
    requires
        0 <= i < old_s.len(),
        new_s == old_s.remove(i),
    ensures
        forall|a: Address|
            submission_completed_at(new_s, a) ==> submission_completed_at(old_s, a),
{
    assert forall|a: Address|
        submission_completed_at(new_s, a) implies submission_completed_at(old_s, a) by {
        let j = choose|j: int|
            0 <= j < new_s.len() && (#[trigger] new_s[j]).address == a
                && new_s[j].data.submission_state == SubmissionState::Completed;
        if j < i {
            assert(old_s[j] == new_s[j]);
        } else {
            assert(old_s[j + 1] == new_s[j]);
        }
    }
}

/// Appending a submission that is not completed cannot make a submission
/// completed that was not.
proof fn lemma_no_new_completed_push(
    old_s: Seq<Record<Submission>>,
    new_s: Seq<Record<Submission>>,
)
    requires
        new_s.len() == old_s.len() + 1,
        new_s == old_s.push(new_s.last()),
        new_s.last().data.submission_state != SubmissionState::Completed,
    ensures
        forall|a: Address|
            submission_completed_at(new_s, a) ==> submission_completed_at(old_s, a),
{
    assert forall|a: Address|
        submission_completed_at(new_s, a) implies submission_completed_at(old_s, a) by {
        let j = choose|j: int|
            0 <= j < new_s.len() && (#[trigger] new_s[j]).address == a
                && new_s[j].data.submission_state == SubmissionState::Completed;
        assert(j < old_s.len());
        assert(old_s[j] == new_s[j]);
    }
}

/// One operation on a tenant's store, with every record address the caller
/// supplied and every host-determined reserve it quoted.
pub enum Operation {
    UpdateCruxParams { new_crux_fees: CruxFees },
    PayoutFromTreasury { treasury: Address, treasury_reserve: u64 },
    CloseCrux { treasury: Address },
    CreateUserProfile { treasury: Address, user_profile: Address, record_reserve: u64 },
    EditUserProfile { user_profile: Address, nft_pfp_token_mint: Address },
    DeleteUserProfile { user_profile: Address },
    AddModerator { profile_owner: Address, user_profile: Address },
    RemoveModerator { profile_owner: Address, user_profile: Address },
    CreateChallenge {
        moderator_profile: Address,
        challenge: Address,
        challenge_seed: Address,
        record_reserve: u64,
        tags: Vec<Tags>,
        title: String,
        content_data_url: String,
        content_data_hash: Address,
        challenge_expires_ts: u64,
        reputation: u64,
    },
    EditChallenge {
        moderator_profile: Address,
        challenge: Address,
        challenge_seed: Address,
        new_reserve: u64,
        new_tags: Vec<Tags>,
        new_title: String,
        new_content_data_url: String,
        new_content_data_hash: Address,
        new_challenge_expires_ts: u64,
        new_reputation: u64,
    },
    DeleteChallenge { moderator_profile: Address, challenge: Address, challenge_seed: Address },
    CreateSubmission {
        treasury: Address,
        user_profile: Address,
        challenge: Address,
        challenge_seed: Address,
        submission: Address,
        record_reserve: u64,
    },
    EditSubmission {
        user_profile: Address,
        challenge: Address,
        challenge_seed: Address,
        submission: Address,
        new_reserve: u64,
        new_content_data_url: String,
        new_content_data_hash: Address,
    },
    DeleteSubmission {
        user_profile: Address,
        challenge: Address,
        challenge_seed: Address,
        submission: Address,
    },
    DeleteSubmissionModerator {
        moderator_profile: Address,
        user_profile: Address,
        challenge: Address,
        challenge_seed: Address,
        submission: Address,
    },
    EvaluateSubmission {
        moderator_profile: Address,
        user_profile: Address,
        challenge: Address,
        challenge_seed: Address,
        submission: Address,
        new_state: SubmissionState,
    },
}

/// The error, if any, with which [`Store::apply`] refuses an operation:
/// each arm delegates to the operation's own decision cascade.
pub open spec fn apply_error(
    pre: Store,
    op: Operation,
    caller: Address,
    caller_wallet: u64,
    receiver_wallet: u64,
    now_ts: u64,
) -> Option<ErrorCode> {
    match op {
        Operation::UpdateCruxParams { .. } => if caller != pre.crux.crux_manager {
            Some(ErrorCode::AddressMismatch)
        } else {
            None
        },
        Operation::PayoutFromTreasury { treasury, treasury_reserve } => payout_error(
            pre,
            caller,
            treasury,
            treasury_reserve,
            receiver_wallet,
        ),
        Operation::CloseCrux { treasury } => close_crux_error(
            pre,
            caller,
            treasury,
            receiver_wallet,
        ),
        Operation::CreateUserProfile { treasury, user_profile, record_reserve } => create_user_profile_error(
            pre,
            caller,
            treasury,
            user_profile,
            record_reserve,
            caller_wallet,
        ),
        Operation::EditUserProfile { user_profile, .. } => edit_user_profile_error(
            pre,
            caller,
            user_profile,
        ),
        Operation::DeleteUserProfile { user_profile } => delete_user_profile_error(
            pre,
            caller,
            user_profile,
            receiver_wallet,
        ),
        Operation::AddModerator { profile_owner, user_profile } => moderator_flag_error(
            pre,
            caller,
            profile_owner,
            user_profile,
        ),
        Operation::RemoveModerator { profile_owner, user_profile } => moderator_flag_error(
            pre,
            caller,
            profile_owner,
            user_profile,
        ),
        Operation::CreateChallenge {
            moderator_profile,
            challenge,
            challenge_seed,
            record_reserve,
            tags,
            title,
            content_data_url,
            challenge_expires_ts,
            ..
        } => create_challenge_error(
            pre,
            caller,
            moderator_profile,
            challenge,
            challenge_seed,
            record_reserve,
            tags@.len(),
            title@,
            content_data_url@,
            challenge_expires_ts,
            caller_wallet,
            now_ts,
        ),
        Operation::EditChallenge {
            moderator_profile,
            challenge,
            challenge_seed,
            new_reserve,
            new_tags,
            new_title,
            new_content_data_url,
            new_challenge_expires_ts,
            ..
        } => edit_challenge_error(
            pre,
            caller,
            moderator_profile,
            challenge,
            challenge_seed,
            new_reserve,
            new_tags@.len(),
            new_title@,
            new_content_data_url@,
            new_challenge_expires_ts,
            caller_wallet,
            now_ts,
        ),
        Operation::DeleteChallenge { moderator_profile, challenge, challenge_seed } => {
            if profile_resolve_error(pre, caller, moderator_profile) is Some {
                profile_resolve_error(pre, caller, moderator_profile)
            } else if challenge_resolve_error(pre, challenge_seed, challenge) is Some {
                challenge_resolve_error(pre, challenge_seed, challenge)
            } else if !record_at(pre.profiles@, moderator_profile).data.is_moderator {
                Some(ErrorCode::ProfileIsNotModerator)
            } else if receiver_wallet + record_at(pre.challenges@, challenge).balance
                > u64::MAX {
                Some(ErrorCode::Overflow)
            } else {
                None
            }
        },
        Operation::CreateSubmission {
            treasury,
            user_profile,
            challenge,
            challenge_seed,
            submission,
            record_reserve,
        } => create_submission_error(
            pre,
            caller,
            treasury,
            user_profile,
            challenge,
            challenge_seed,
            submission,
            record_reserve,
            caller_wallet,
            now_ts,
        ),
        Operation::EditSubmission {
            user_profile,
            challenge,
            challenge_seed,
            submission,
            new_reserve,
            new_content_data_url,
            ..
        } => edit_submission_error(
            pre,
            caller,
            user_profile,
            challenge,
            challenge_seed,
            submission,
            new_reserve,
            new_content_data_url@,
            caller_wallet,
            now_ts,
        ),
        Operation::DeleteSubmission { user_profile, challenge, challenge_seed, submission } => delete_submission_error(
            pre,
            caller,
            user_profile,
            challenge,
            challenge_seed,
            submission,
            receiver_wallet,
        ),
        Operation::DeleteSubmissionModerator {
            moderator_profile,
            user_profile,
            challenge,
            challenge_seed,
            submission,
        } => delete_submission_moderator_error(
            pre,
            caller,
            moderator_profile,
            user_profile,
            challenge,
            challenge_seed,
            submission,
            receiver_wallet,
        ),
        Operation::EvaluateSubmission {
            moderator_profile,
            user_profile,
            challenge,
            challenge_seed,
            submission,
            new_state,
        } => evaluate_submission_error(
            pre,
            caller,
            moderator_profile,
            user_profile,
            challenge,
            challenge_seed,
            submission,
            new_state,
        ),
    }
}

impl Store {
    /// Applies one operation, signed by `caller`, to the store.  The
    /// operation-specific contracts live on the individual methods this
    /// dispatches to; this contract states what holds across all of them:
    ///
    /// * the store invariant is preserved — in particular, each tenant
    ///   counter always equals the number of live records referencing the
    ///   tenant, whatever sequence of operations is applied;
    /// * an operation fails exactly when its decision cascade names an
    ///   error, and then changes nothing;
    /// * the tenant survives everything but a successful close;
    /// * the tenant's identity — program, address, manager, authority,
    ///   treasury — never changes, its fee schedule changes only through
    ///   the fee update, and each counter moves only under its own create
    ///   and delete operations;
    /// * a submission reaches the completed state only through a successful
    ///   evaluation, signed by the owner of a live moderator profile of
    ///   this tenant, that assigns the completed state.
    pub fn apply(
        &mut self,
        op: Operation,
        caller: Address,
        caller_wallet: &mut u64,
        receiver_wallet: &mut u64,
        now_ts: u64,
    ) -> (r: Result<(), ErrorCode>)
        requires
            old(self).wf(),
            old(self).live,
            op matches Operation::EvaluateSubmission { new_state, .. } ==> new_state
                != SubmissionState::Pending,
            op matches Operation::CreateChallenge { tags, .. } ==> tags@.len() <= u32::MAX,
            op matches Operation::EditChallenge { new_tags, .. } ==> new_tags@.len()
                <= u32::MAX,
        ensures
            final(self).wf(),
            ({
                let err = apply_error(
                    *old(self),
                    op,
                    caller,
                    *old(caller_wallet),
                    *old(receiver_wallet),
                    now_ts,
                );
                match r {
                    Ok(()) => err is None,
                    Err(e) => {
                        &&& err == Some(e)
                        &&& *final(self) == *old(self)
                        &&& *final(caller_wallet) == *old(caller_wallet)
                        &&& *final(receiver_wallet) == *old(receiver_wallet)
                    },
                }
            }),
            final(self).live <==> !(op matches Operation::CloseCrux { .. } && r is Ok),
            final(self).program_id == old(self).program_id,
            final(self).crux_address == old(self).crux_address,
            final(self).crux.crux_manager == old(self).crux.crux_manager,
            final(self).crux.crux_authority == old(self).crux.crux_authority,
            final(self).crux.crux_treasury == old(self).crux.crux_treasury,
            !(op matches Operation::UpdateCruxParams { .. }) ==> final(self).crux.crux_fees
                == old(self).crux.crux_fees,
            final(self).crux.crux_counts.profile_count != old(
                self,
            ).crux.crux_counts.profile_count ==> (op matches Operation::CreateUserProfile { .. }
                || op matches Operation::DeleteUserProfile { .. }),
            final(self).crux.crux_counts.challenge_count != old(
                self,
            ).crux.crux_counts.challenge_count ==> (op matches Operation::CreateChallenge { .. }
                || op matches Operation::DeleteChallenge { .. }),
            final(self).crux.crux_counts.submission_count != old(
                self,
            ).crux.crux_counts.submission_count ==> (op matches Operation::CreateSubmission { .. }
                || op matches Operation::DeleteSubmission { .. }
                || op matches Operation::DeleteSubmissionModerator { .. }),
            forall|a: Address|
                (!submission_completed_at(old(self).submissions@, a)
                    && submission_completed_at(final(self).submissions@, a)) ==> ((
                op matches Operation::EvaluateSubmission { new_state, .. } && new_state
                    == SubmissionState::Completed) && has_moderator_owned_by(
                    old(self).profiles@,
                    caller,
                )),
    {
        let ghost pre = *old(self);
        match op {
            Operation::UpdateCruxParams { new_crux_fees } => {
                self.update_crux_params(caller, new_crux_fees)
            },
            Operation::PayoutFromTreasury { treasury, treasury_reserve } => {
                self.payout_from_treasury(caller, treasury, treasury_reserve, receiver_wallet)
            },
            Operation::CloseCrux { treasury } => {
                self.close_crux(caller, treasury, receiver_wallet)
            },
            Operation::CreateUserProfile { treasury, user_profile, record_reserve } => {
                self.create_user_profile(
                    caller,
                    treasury,
                    user_profile,
                    record_reserve,
                    caller_wallet,
                    now_ts,
                )
            },
            Operation::EditUserProfile { user_profile, nft_pfp_token_mint } => {
                self.edit_user_profile(caller, user_profile, nft_pfp_token_mint, now_ts)
            },
            Operation::DeleteUserProfile { user_profile } => {
                self.delete_user_profile(caller, user_profile, receiver_wallet)
            },
            Operation::AddModerator { profile_owner, user_profile } => {
                self.add_moderator(caller, profile_owner, user_profile)
            },
            Operation::RemoveModerator { profile_owner, user_profile } => {
                self.remove_moderator(caller, profile_owner, user_profile)
            },
            Operation::CreateChallenge {
                moderator_profile,
                challenge,
                challenge_seed,
                record_reserve,
                tags,
                title,
                content_data_url,
                content_data_hash,
                challenge_expires_ts,
                reputation,
            } => {
                self.create_challenge(
                    caller,
                    moderator_profile,
                    challenge,
                    challenge_seed,
                    record_reserve,
                    tags,
                    title,
                    content_data_url,
                    content_data_hash,
                    challenge_expires_ts,
                    reputation,
                    caller_wallet,
                    now_ts,
                )
            },
            Operation::EditChallenge {
                moderator_profile,
                challenge,
                challenge_seed,
                new_reserve,
                new_tags,
                new_title,
                new_content_data_url,
                new_content_data_hash,
                new_challenge_expires_ts,
                new_reputation,
            } => {
                self.edit_challenge(
                    caller,
                    moderator_profile,
                    challenge,
                    challenge_seed,
                    new_reserve,
                    new_tags,
                    new_title,
                    new_content_data_url,
                    new_content_data_hash,
                    new_challenge_expires_ts,
                    new_reputation,
                    caller_wallet,
                    now_ts,
                )
            },
            Operation::DeleteChallenge { moderator_profile, challenge, challenge_seed } => {
                self.delete_challenge(
                    caller,
                    moderator_profile,
                    challenge,
                    challenge_seed,
                    receiver_wallet,
                    now_ts,
                )
            },
            Operation::CreateSubmission {
                treasury,
                user_profile,
                challenge,
                challenge_seed,
                submission,
                record_reserve,
            } => {
                let r = self.create_submission(
                    caller,
                    treasury,
                    user_profile,
                    challenge,
                    challenge_seed,
                    submission,
                    record_reserve,
                    caller_wallet,
                    now_ts,
                );
                proof {
                    if r is Ok {
                        lemma_no_new_completed_push(pre.submissions@, self.submissions@);
                    }
                }
                r
            },
            Operation::EditSubmission {
                user_profile,
                challenge,
                challenge_seed,
                submission,
                new_reserve,
                new_content_data_url,
                new_content_data_hash,
            } => {
                let r = self.edit_submission(
                    caller,
                    user_profile,
                    challenge,
                    challenge_seed,
                    submission,
                    new_reserve,
                    new_content_data_url,
                    new_content_data_hash,
                    caller_wallet,
                    now_ts,
                );
                proof {
                    if r is Ok {
                        let i = record_index(pre.submissions@, submission);
                        lemma_no_new_completed_update(pre.submissions@, self.submissions@, i);
                    }
                }
                r
            },
            Operation::DeleteSubmission { user_profile, challenge, challenge_seed, submission } => {
                let r = self.delete_submission(
                    caller,
                    user_profile,
                    challenge,
                    challenge_seed,
                    submission,
                    receiver_wallet,
                    now_ts,
                );
                proof {
                    if r is Ok {
                        let i = record_index(pre.submissions@, submission);
                        lemma_no_new_completed_remove(pre.submissions@, self.submissions@, i);
                    }
                }
                r
            },
            Operation::DeleteSubmissionModerator {
                moderator_profile,
                user_profile,
                challenge,
                challenge_seed,
                submission,
            } => {
                let r = self.delete_submission_moderator(
                    caller,
                    moderator_profile,
                    user_profile,
                    challenge,
                    challenge_seed,
                    submission,
                    receiver_wallet,
                    now_ts,
                );
                proof {
                    if r is Ok {
                        let i = record_index(pre.submissions@, submission);
                        lemma_no_new_completed_remove(pre.submissions@, self.submissions@, i);
                    }
                }
                r
            },
            Operation::EvaluateSubmission {
                moderator_profile,
                user_profile,
                challenge,
                challenge_seed,
                submission,
                new_state,
            } => {
                let r = self.evaluate_submission(
                    caller,
                    moderator_profile,
                    user_profile,
                    challenge,
                    challenge_seed,
                    submission,
                    new_state,
                    now_ts,
                );
                proof {
                    if r is Ok {
                        let i = record_index(pre.submissions@, submission);
                        if new_state != SubmissionState::Completed {
                            lemma_no_new_completed_update(pre.submissions@, self.submissions@, i);
                        } else {
                            let mi = record_index(pre.profiles@, moderator_profile);
                            assert(0 <= mi < pre.profiles@.len() && pre.profiles@[mi].address
                                == moderator_profile);
                            assert(pre.profiles@[mi].data.profile_owner == caller
                                && pre.profiles@[mi].data.is_moderator);
                            assert(has_moderator_owned_by(pre.profiles@, caller));
                        }
                    }
                }
                r
            },
        }
    }
}

} // verus!
