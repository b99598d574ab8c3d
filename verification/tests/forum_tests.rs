//! The question-and-answer records and their grow-and-pay edits.

use challenger::address::{derive_answer_address, derive_question_address, Address};
use challenger::errors::ErrorCode;
use challenger::forum::{
    add_content_to_answer, edit_question, question_footprint, Answer, Forum, Question,
};
use challenger::state::{Record, Tags};

fn addr(n: u64) -> Address {
    Address { w0: n, w1: 0, w2: n, w3: 1 }
}

const FORUM: u64 = 40;
const PROGRAM: u64 = 41;

fn question() -> Record<Question> {
    let address = derive_question_address(&addr(FORUM), &addr(51), &addr(52), &addr(PROGRAM))
        .unwrap()
        .0;
    Record {
        address,
        balance: 300,
        footprint: question_footprint(5, 7),
        data: Question {
            user_profile: addr(51),
            question_seed: addr(52),
            title: "title".to_string(),
            content: "content".to_string(),
            tag: Tags::Development,
            most_recent_engagement_ts: 10,
        },
    }
}

fn answer() -> Record<Answer> {
    let address = derive_answer_address(&addr(FORUM), &addr(61), &addr(62), &addr(PROGRAM))
        .unwrap()
        .0;
    Record {
        address,
        balance: 200,
        footprint: 150,
        data: Answer {
            user_profile: addr(61),
            answer_seed: addr(62),
            content: "first".to_string(),
            most_recent_engagement_ts: 10,
        },
    }
}

#[test]
fn forum_seeds_returns_the_authority_seed() {
    let forum = Forum {
        version: 0,
        forum_manager: addr(1),
        forum_authority: addr(2),
        forum_authority_seed: addr(3),
        forum_authority_bump_seed: 254,
        forum_treasury: addr(4),
    };
    assert_eq!(forum.forum_seeds(), (addr(3), 254));
}

#[test]
fn edit_question_grows_and_pays() {
    let mut q = question();
    let mut wallet: u64 = 1_000;
    let new_reserve = 800;
    let r = edit_question(
        &mut q,
        addr(FORUM),
        addr(51),
        addr(52),
        addr(PROGRAM),
        "a new and longer title".to_string(),
        "much more content than before".to_string(),
        Tags::Ideas,
        new_reserve,
        &mut wallet,
        20,
    );
    assert!(r.is_ok());
    assert_eq!(wallet, 1_000 - (new_reserve - 300));
    assert_eq!(q.balance, new_reserve);
    assert_eq!(q.footprint, question_footprint(22, 29));
    assert_eq!(q.data.title, "a new and longer title");
    assert_eq!(q.data.content, "much more content than before");
    assert_eq!(q.data.most_recent_engagement_ts, 20);
}

#[test]
fn edit_question_without_growth_is_free() {
    let mut q = question();
    let mut wallet: u64 = 1_000;
    let r = edit_question(
        &mut q,
        addr(FORUM),
        addr(51),
        addr(52),
        addr(PROGRAM),
        "tit".to_string(),
        "con".to_string(),
        Tags::Social,
        999,
        &mut wallet,
        20,
    );
    assert!(r.is_ok());
    assert_eq!(wallet, 1_000);
    assert_eq!(q.balance, 300);
    assert_eq!(q.footprint, question_footprint(5, 7));
}

#[test]
fn edit_question_rejects_bad_input() {
    let mut q = question();
    let mut wallet: u64 = 1_000;
    let r = edit_question(
        &mut q,
        addr(FORUM),
        addr(99),
        addr(52),
        addr(PROGRAM),
        "t".to_string(),
        "c".to_string(),
        Tags::Social,
        999,
        &mut wallet,
        20,
    );
    assert!(matches!(r, Err(ErrorCode::AddressMismatch)));
    let r = edit_question(
        &mut q,
        addr(FORUM),
        addr(51),
        addr(52),
        addr(PROGRAM),
        String::new(),
        "c".to_string(),
        Tags::Social,
        999,
        &mut wallet,
        20,
    );
    assert!(matches!(r, Err(ErrorCode::InvalidStringInput)));
    let r = edit_question(
        &mut q,
        addr(FORUM),
        addr(51),
        addr(52),
        addr(PROGRAM),
        "t".repeat(300),
        "c".to_string(),
        Tags::Social,
        999,
        &mut wallet,
        20,
    );
    assert!(matches!(r, Err(ErrorCode::TitleOrUrlTooLong)));
    assert_eq!(q.data.title, "title");
    assert_eq!(wallet, 1_000);
}

#[test]
fn add_content_appends_and_charges() {
    let mut a = answer();
    let mut wallet: u64 = 1_000;
    let new_reserve = 500;
    let r = add_content_to_answer(
        &mut a,
        addr(FORUM),
        addr(61),
        addr(62),
        addr(PROGRAM),
        " second".to_string(),
        new_reserve,
        &mut wallet,
        30,
    );
    assert!(r.is_ok());
    assert_eq!(a.data.content, "first second");
    assert_eq!(a.footprint, 150 + 4 + 7);
    assert_eq!(a.balance, new_reserve);
    assert_eq!(wallet, 1_000 - (new_reserve - 200));
    assert_eq!(a.data.most_recent_engagement_ts, 30);
}

#[test]
fn add_content_rejects_empty_content() {
    let mut a = answer();
    let mut wallet: u64 = 1_000;
    let r = add_content_to_answer(
        &mut a,
        addr(FORUM),
        addr(61),
        addr(62),
        addr(PROGRAM),
        String::new(),
        500,
        &mut wallet,
        30,
    );
    assert!(matches!(r, Err(ErrorCode::InvalidStringInput)));
    assert_eq!(a.data.content, "first");
}

#[test]
fn add_content_overfunded_record_underflows() {
    let mut a = answer();
    a.balance = 10_000;
    let mut wallet: u64 = 1_000;
    let r = add_content_to_answer(
        &mut a,
        addr(FORUM),
        addr(61),
        addr(62),
        addr(PROGRAM),
        "x".to_string(),
        500,
        &mut wallet,
        30,
    );
    assert!(matches!(r, Err(ErrorCode::Underflow)));
    assert_eq!(wallet, 1_000);
}
