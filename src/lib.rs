//! A directory of team members, kept as snapshots built from a records
//! source and enriched with chat profiles. The library normalizes records,
//! builds snapshots, diffs them field by field, words the change
//! notifications, and decides when refreshes run and how they are stamped.

use vstd::prelude::*;

pub mod auth;
pub mod json;
pub mod defs;
pub mod diff;
pub mod notify;
pub mod snapshot;
pub mod driver;

verus! {

} // verus!
