//! Records as the store keeps them.
use crate::dates::Date;
use vstd::prelude::*;

verus! {

/// One entry as the store keeps it, with the moment it was written.
#[derive(Clone, Copy, Debug, PartialEq, Eq, Structural)]
pub struct Record {
    pub id: i64,
    pub target_id: i64,
    /// When the entry was written, in seconds since the epoch.
    pub created_at: i64,
    pub entry_date: Date,
    /// The logged amount, in thousandths.
    pub value: i64,
}

} // verus!
