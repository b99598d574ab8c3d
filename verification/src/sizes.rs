//! Validation and sizing of the dynamic record fields.
//!
//! Challenge and submission records end in length-prefixed dynamic fields —
//! a tag list, a title, a content locator — so their byte footprint depends
//! on those fields' lengths.  A record's footprint decides the minimum
//! balance (the reserve) the host demands of it, so an edit that grows the
//! dynamic fields must first top the record's balance up to the reserve of
//! the new footprint.

use vstd::prelude::*;
use vstd::string::StrSliceExecFns;

use crate::errors::ErrorCode;

verus! {

/// The longest title or content locator a record accepts, in characters.
pub const MAX_TEXT_LEN: usize = 256;

/// A title or content locator is acceptable when it is non-empty and at most
/// [`MAX_TEXT_LEN`] characters long.
pub open spec fn text_ok(s: Seq<char>) -> bool {
    0 < s.len() <= MAX_TEXT_LEN
}

/// Checks a title and a content locator together: an empty string is
/// reported before an over-long one.
pub fn check_texts(a: &str, b: &str) -> (r: Result<(), ErrorCode>)
    ensures
        (a@.len() == 0 || b@.len() == 0) ==> r == Err::<(), ErrorCode>(
            ErrorCode::InvalidStringInput,
        ),
        (a@.len() > 0 && b@.len() > 0 && (a@.len() > MAX_TEXT_LEN || b@.len() > MAX_TEXT_LEN))
            ==> r == Err::<(), ErrorCode>(ErrorCode::TitleOrUrlTooLong),
        (text_ok(a@) && text_ok(b@)) ==> r == Ok::<(), ErrorCode>(()),
{
    let la = a.unicode_len();
    let lb = b.unicode_len();
    if la == 0 || lb == 0 {
        Err(ErrorCode::InvalidStringInput)
    } else if la > MAX_TEXT_LEN || lb > MAX_TEXT_LEN {
        Err(ErrorCode::TitleOrUrlTooLong)
    } else {
        Ok(())
    }
}

/// The byte footprint of a challenge record: the fixed header, the
/// length-prefixed tag list (one byte per tag), the length-prefixed title
/// and content locator, and the content hash reference.
pub open spec fn spec_challenge_footprint(n_tags: nat, title_len: nat, url_len: nat) -> nat {
    96 + (4 + n_tags) + (4 + title_len) + (4 + url_len) + 32
}

/// Computes [`spec_challenge_footprint`].
pub fn challenge_footprint(n_tags: usize, title_len: usize, url_len: usize) -> (r: u64)
    requires
        n_tags <= u32::MAX,
        title_len <= u32::MAX,
        url_len <= u32::MAX,
    ensures
        r == spec_challenge_footprint(n_tags as nat, title_len as nat, url_len as nat),
{
    96 + (4 + n_tags as u64) + (4 + title_len as u64) + (4 + url_len as u64) + 32
}

/// The byte footprint of a submission record: the fixed header, the
/// length-prefixed content locator, the content hash reference and the
/// one-byte state.
pub open spec fn spec_submission_footprint(url_len: nat) -> nat {
    88 + (4 + url_len) + 32 + 1
}

/// Computes [`spec_submission_footprint`].
pub fn submission_footprint(url_len: usize) -> (r: u64)
    requires
        url_len <= u32::MAX,
    ensures
        r == spec_submission_footprint(url_len as nat),
{
    88 + (4 + url_len as u64) + 32 + 1
}

} // verus!
