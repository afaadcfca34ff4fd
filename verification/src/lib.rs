//! A small owned record: a boolean flag, a name and an owner identity.
//!
//! The flag and the name can be read and written by anyone. The owner can be
//! reassigned only while the record is unclaimed, or by the current owner.

pub mod account;
pub mod laws;
pub mod record;

pub use account::AccountId;
pub use record::{Basictest, RecordState};
