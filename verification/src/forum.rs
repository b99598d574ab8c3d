//! The companion question-and-answer ledger.
//!
//! A forum is a root record of the same shape as a tenant: a manager, a
//! derived signing authority and a treasury.  Its content records are
//! questions and answers, owned by a user profile and keyed by a seed
//! address; both carry length-prefixed dynamic fields, so editing them is
//! the same two-phase grow-and-pay step as editing a challenge.

use vstd::prelude::*;
use vstd::string::StrSliceExecFns;
use vstd::string::StringExecFns;

use crate::address::{derive_answer_address, derive_question_address, pda_of, Address};
use crate::errors::ErrorCode;
use crate::math::{try_add, try_sub};
use crate::sizes::MAX_TEXT_LEN;
use crate::state::{Record, Tags};

verus! {

/// The schema version written into newly created forums.
pub const LATEST_FORUM_VERSION: u16 = 0;

/// The root record of a question-and-answer forum.
#[derive(Clone, Copy, Debug, PartialEq, Eq, Structural)]
pub struct Forum {
    pub version: u16,
    /// The identity allowed to manage the forum.
    pub forum_manager: Address,
    /// The derived signing identity used for the forum's own fund
    /// movements.
    pub forum_authority: Address,
    /// The seed the authority was derived from: the forum's own address.
    pub forum_authority_seed: Address,
    /// The bump seed the authority was derived with.
    pub forum_authority_bump_seed: u8,
    /// The address of the forum's treasury record.
    pub forum_treasury: Address,
}

impl Forum {
    /// The seed and bump with which the forum's signing authority was
    /// derived, as needed to sign fund movements on its behalf.
    pub fn forum_seeds(&self) -> (r: (Address, u8))
        ensures
            r == (self.forum_authority_seed, self.forum_authority_bump_seed),
    {
        (self.forum_authority_seed, self.forum_authority_bump_seed)
    }
}

/// A question posted to a forum by a profile, keyed by a seed address.
#[derive(Clone, Debug)]
pub struct Question {
    /// The profile that posted the question.
    pub user_profile: Address,
    /// The seed address the question's own address was derived from.
    pub question_seed: Address,
    pub title: String,
    pub content: String,
    pub tag: Tags,
    pub most_recent_engagement_ts: u64,
}

/// An answer posted to a question by a profile, keyed by a seed address.
#[derive(Clone, Debug)]
pub struct Answer {
    /// The profile that posted the answer.
    pub user_profile: Address,
    /// The seed address the answer's own address was derived from.
    pub answer_seed: Address,
    pub content: String,
    pub most_recent_engagement_ts: u64,
}

/// The byte footprint of a question record: the fixed header, the
/// length-prefixed title and content, the one-byte tag and the one-byte
/// trailer.
pub open spec fn spec_question_footprint(title_len: nat, content_len: nat) -> nat {
    128 + (4 + title_len) + (4 + content_len) + 1 + 1
}

/// Computes [`spec_question_footprint`].
pub fn question_footprint(title_len: usize, content_len: usize) -> (r: u64)
    requires
        title_len <= u32::MAX,
        content_len <= u32::MAX,
    ensures
        r == spec_question_footprint(title_len as nat, content_len as nat),
{
    128 + (4 + title_len as u64) + (4 + content_len as u64) + 1 + 1
}

/// What can go wrong when a question is edited.
pub open spec fn edit_question_error(
    pre: Record<Question>,
    forum: Address,
    user_profile: Address,
    question_seed: Address,
    program_id: Address,
    title: Seq<char>,
    content: Seq<char>,
    new_reserve: u64,
    wallet: u64,
) -> Option<ErrorCode> {
    let new_size = spec_question_footprint(title.len(), content.len());
    let derived = pda_of("question"@, seq![forum, user_profile, question_seed], program_id);
    if derived is None || derived->Some_0.0 != pre.address {
        Some(ErrorCode::AddressMismatch)
    } else if pre.data.user_profile != user_profile || pre.data.question_seed != question_seed {
        Some(ErrorCode::AddressMismatch)
    } else if title.len() == 0 || content.len() == 0 {
        Some(ErrorCode::InvalidStringInput)
    } else if title.len() > MAX_TEXT_LEN {
        Some(ErrorCode::TitleOrUrlTooLong)
    } else if new_size > pre.footprint && pre.balance > new_reserve {
        Some(ErrorCode::Underflow)
    } else if new_size > pre.footprint && wallet < new_reserve - pre.balance {
        Some(ErrorCode::InsufficientFunds)
    } else {
        None
    }
}

/// Overwrites a question's title, content and tag.  Owner-only: the
/// record's address must re-derive from the forum, the caller's profile
/// and the seed, and the record must name that profile and that seed.
/// When the new fields
/// outgrow the record's footprint, the caller first pays the difference
/// between the new footprint's reserve and the record's balance, and the
/// record is grown in place.
pub fn edit_question(
    question: &mut Record<Question>,
    forum: Address,
    user_profile: Address,
    question_seed: Address,
    program_id: Address,
    new_title: String,
    new_content: String,
    new_tags: Tags,
    new_reserve: u64,
    caller_wallet: &mut u64,
    now_ts: u64,
) -> (r: Result<(), ErrorCode>)
    requires
        new_content@.len() <= u32::MAX,
    ensures
        ({
            let err = edit_question_error(
                *old(question),
                forum,
                user_profile,
                question_seed,
                program_id,
                new_title@,
                new_content@,
                new_reserve,
                *old(caller_wallet),
            );
            let new_size = spec_question_footprint(new_title@.len(), new_content@.len());
            match r {
                Ok(()) => {
                    &&& err is None
                    &&& ({
                        let q = *old(question);
                        let grew = new_size > q.footprint;
                        let paid = if grew {
                            (new_reserve - q.balance) as u64
                        } else {
                            0u64
                        };
                        &&& *final(question) == (Record {
                            balance: if grew {
                                new_reserve
                            } else {
                                q.balance
                            },
                            footprint: if grew {
                                new_size as u64
                            } else {
                                q.footprint
                            },
                            data: (Question {
                                title: new_title,
                                content: new_content,
                                tag: new_tags,
                                most_recent_engagement_ts: now_ts,
                                ..q.data
                            }),
                            ..q
                        })
                        &&& *final(caller_wallet) == *old(caller_wallet) - paid
                        &&& grew ==> final(question).balance == new_reserve
                    })
                },
                Err(e) => {
                    &&& err == Some(e)
                    &&& *final(question) == *old(question)
                    &&& *final(caller_wallet) == *old(caller_wallet)
                },
            }
        }),
{
    let derived = match derive_question_address(&forum, &user_profile, &question_seed, &program_id) {
        Some(d) => d,
        None => { return Err(ErrorCode::AddressMismatch) },
    };
    if derived.0 != question.address {
        return Err(ErrorCode::AddressMismatch);
    }
    if question.data.user_profile != user_profile || question.data.question_seed
        != question_seed {
        return Err(ErrorCode::AddressMismatch);
    }
    let title_len = new_title.as_str().unicode_len();
    let content_len = new_content.as_str().unicode_len();
    if title_len == 0 || content_len == 0 {
        return Err(ErrorCode::InvalidStringInput);
    }
    if title_len > MAX_TEXT_LEN {
        return Err(ErrorCode::TitleOrUrlTooLong);
    }
    let new_size = question_footprint(title_len, content_len);
    let grew = new_size > question.footprint;
    let paid: u64 = if grew {
        let diff = try_sub(new_reserve, question.balance)?;
        match try_sub(*caller_wallet, diff) {
            Ok(_) => {},
            Err(_) => { return Err(ErrorCode::InsufficientFunds) },
        }
        diff
    } else {
        0
    };
    *caller_wallet = *caller_wallet - paid;
    if grew {
        question.balance = new_reserve;
        question.footprint = new_size;
    }
    question.data.title = new_title;
    question.data.content = new_content;
    question.data.tag = new_tags;
    question.data.most_recent_engagement_ts = now_ts;
    Ok(())
}

/// What can go wrong when content is appended to an answer.
pub open spec fn add_content_to_answer_error(
    pre: Record<Answer>,
    forum: Address,
    user_profile: Address,
    answer_seed: Address,
    program_id: Address,
    content: Seq<char>,
    new_reserve: u64,
    wallet: u64,
) -> Option<ErrorCode> {
    let derived = pda_of("answer"@, seq![forum, user_profile, answer_seed], program_id);
    if derived is None || derived->Some_0.0 != pre.address {
        Some(ErrorCode::AddressMismatch)
    } else if pre.data.user_profile != user_profile || pre.data.answer_seed != answer_seed {
        Some(ErrorCode::AddressMismatch)
    } else if content.len() == 0 {
        Some(ErrorCode::InvalidStringInput)
    } else if pre.footprint + 4 + content.len() > u64::MAX {
        Some(ErrorCode::Overflow)
    } else if pre.balance > new_reserve {
        Some(ErrorCode::Underflow)
    } else if wallet < new_reserve - pre.balance {
        Some(ErrorCode::InsufficientFunds)
    } else {
        None
    }
}

/// Appends content to an answer, growing the record by the appended
/// field's length-prefixed size.  Owner-only: the record's address must
/// re-derive from the forum, the caller's profile and the seed.  The
/// caller always pays the difference between the grown footprint's reserve
/// and the record's balance.
pub fn add_content_to_answer(
    answer: &mut Record<Answer>,
    forum: Address,
    user_profile: Address,
    answer_seed: Address,
    program_id: Address,
    new_content: String,
    new_reserve: u64,
    caller_wallet: &mut u64,
    now_ts: u64,
) -> (r: Result<(), ErrorCode>)
    requires
        new_content@.len() <= u32::MAX,
    ensures
        ({
            let err = add_content_to_answer_error(
                *old(answer),
                forum,
                user_profile,
                answer_seed,
                program_id,
                new_content@,
                new_reserve,
                *old(caller_wallet),
            );
            match r {
                Ok(()) => {
                    &&& err is None
                    &&& ({
                        let a = *old(answer);
                        let paid = (new_reserve - a.balance) as u64;
                        &&& final(answer).address == a.address
                        &&& final(answer).balance == new_reserve
                        &&& final(answer).footprint == a.footprint + 4 + new_content@.len()
                        &&& final(answer).data.user_profile == a.data.user_profile
                        &&& final(answer).data.answer_seed == a.data.answer_seed
                        &&& final(answer).data.content@ == a.data.content@ + new_content@
                        &&& final(answer).data.most_recent_engagement_ts == now_ts
                        &&& *final(caller_wallet) == *old(caller_wallet) - paid
                    })
                },
                Err(e) => {
                    &&& err == Some(e)
                    &&& *final(answer) == *old(answer)
                    &&& *final(caller_wallet) == *old(caller_wallet)
                },
            }
        }),
{
    let derived = match derive_answer_address(&forum, &user_profile, &answer_seed, &program_id) {
        Some(d) => d,
        None => { return Err(ErrorCode::AddressMismatch) },
    };
    if derived.0 != answer.address {
        return Err(ErrorCode::AddressMismatch);
    }
    if answer.data.user_profile != user_profile || answer.data.answer_seed != answer_seed {
        return Err(ErrorCode::AddressMismatch);
    }
    let content_len = new_content.as_str().unicode_len();
    if content_len == 0 {
        return Err(ErrorCode::InvalidStringInput);
    }
    let grown = try_add(4, content_len as u64)?;
    let new_size = try_add(answer.footprint, grown)?;
    let diff = try_sub(new_reserve, answer.balance)?;
    match try_sub(*caller_wallet, diff) {
        Ok(_) => {},
        Err(_) => { return Err(ErrorCode::InsufficientFunds) },
    }
    *caller_wallet = *caller_wallet - diff;
    answer.balance = new_reserve;
    answer.footprint = new_size;
    answer.data.most_recent_engagement_ts = now_ts;
    answer.data.content.append(new_content.as_str());
    Ok(())
}

} // verus!
