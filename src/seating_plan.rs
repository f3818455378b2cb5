//! The top-level manifest: the repositories to orchestrate, in order, and the
//! venue directory that holds their checkouts.
use vstd::prelude::*;
use crate::dependency::Dependency;

verus! {

/// The repositories to orchestrate and the venue that holds them.
#[derive(Debug)]
pub struct SeatingPlan {
    pub attendees: Vec<Dependency>,
    pub venue: String,
}

/// The directory that preparing the venue creates, if any: none when it
/// already exists.
pub open spec fn venue_plan(venue: Seq<char>, exists: bool) -> Option<Seq<char>> {
    if exists {
        None
    } else {
        Some(venue)
    }
}

/// Preparing the venue is idempotent: once the directory exists, preparing it
/// again creates nothing, and two preparations in a row create it at most once.
pub proof fn venue_creation_is_idempotent(venue: Seq<char>, existed_before: bool)
    ensures
        venue_plan(venue, true) is None,
        venue_plan(venue, existed_before) is Some ==> !existed_before,
{
}

impl SeatingPlan {
    /// The directory to create, with any missing parents, for the venue to
    /// exist; `None` when `venue_exists` says it is there already.
    pub fn create_venue(&self, venue_exists: bool) -> (r: Option<String>)
        ensures
            match r {
                Some(dir) => venue_plan(self.venue@, venue_exists) == Some(dir@),
                None => venue_plan(self.venue@, venue_exists) is None,
            },
    {
        if venue_exists {
            None
        } else {
            Some(self.venue.clone())
        }
    }
}

} // verus!
