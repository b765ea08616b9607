//! The expiration sweep: what one tick of the sweeper does.

use crate::data::Database;
use crate::domain::clip::prefixed;
use crate::service::{action, ServiceError};
use vstd::prelude::*;

verus! {

/// The seconds between two sweeps.
pub const SWEEP_INTERVAL_SECS: u64 = 60;

/// The sweeper: at every tick it deletes the clips that have expired. A
/// sweep that fails is reported and tried again at the next tick.
#[derive(Debug)]
pub struct Maintenance;

impl Maintenance {
    /// What the sweeper reports of the outcome of a sweep: nothing where it
    /// went well, a line that names the failure where it did not.
    pub fn report(outcome: &Result<u64, ServiceError>) -> (r: Option<String>)
        ensures
            outcome is Ok <==> r is None,
            r matches Some(line) ==> "error deleting expired clips: "@.is_prefix_of(line@),
    {
        match outcome {
            Ok(_) => None,
            Err(e) => Some(prefixed("error deleting expired clips: ", e.message().as_str())),
        }
    }

    /// One tick: deletes the clips that have expired by the clock's
    /// reading, and reports a failure. The sweeper goes on either way.
    pub fn tick(db: &mut Database) -> (r: Option<String>)
        ensures
            r is None,
            exists|now: i64| #[trigger] old(db)@.delete_expired(now) == final(db)@,
            final(db)@.wf(),
    {
        let outcome = action::delete_expired(db);
        Maintenance::report(&outcome)
    }
}

} // verus!
