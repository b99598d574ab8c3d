//! A tenant-scoped content and reputation ledger.
//!
//! A root tenant record (the "crux") owns a treasury and three kinds of
//! sub-records — user profiles, challenges and submissions — addressed
//! deterministically from the tenant's address, a role tag and an owner or
//! seed address.  Every operation re-derives the addresses of the records it
//! touches, adjusts the tenant's counters and the balances involved through
//! checked arithmetic, and either commits completely or fails without any
//! partial state.

pub mod address;
pub mod errors;
pub mod forum;
pub mod math;
pub mod sizes;
pub mod state;
pub mod store;
