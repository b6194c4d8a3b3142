//! Captures a player profile from a pair of fetched pages and records it.
//!
//! The library turns two semi-structured documents (a character profile page
//! and a job-progress page) into one validated `Profile` record, checks that
//! the per-job records cover the whole job taxonomy, and maps the result onto
//! the rows of an append-only snapshot store.

pub mod db;
pub mod error;
pub mod extract;
pub mod html;
pub mod job;
pub mod profile;
pub mod text;

use vstd::prelude::*;
use crate::db::{StoreError, TrackerDatabase};
use crate::error::ParseError;
use crate::profile::{spec_parse_profile, Profile};

verus! {

/// Why a capture run failed: at the parse stage or at the store.
#[derive(Clone, Debug, PartialEq, Eq)]
pub enum TrackerError {
    Parse(ParseError),
    Store(StoreError),
}

/// Runs one capture against already-fetched documents: initializes the
/// store, parses and validates the profile, and records it as one snapshot.
pub fn snapshot(
    user_id: u64,
    profile_html: &str,
    jobs_html: &str,
    database: &TrackerDatabase,
) -> (r: Result<(), TrackerError>)
    ensures
        r matches Err(TrackerError::Parse(e)) ==> spec_parse_profile(
            user_id,
            profile_html@,
            jobs_html@,
        ) matches Err(m) && e@ == m,
        r is Ok ==> spec_parse_profile(user_id, profile_html@, jobs_html@) is Ok,
{
    match database.init() {
        Ok(()) => {},
        Err(e) => {
            return Err(TrackerError::Store(e));
        },
    }
    let profile = match Profile::parse(user_id, profile_html, jobs_html) {
        Ok(p) => p,
        Err(e) => {
            return Err(TrackerError::Parse(e));
        },
    };
    match database.snapshot(profile) {
        Ok(()) => Ok(()),
        Err(e) => Err(TrackerError::Store(e)),
    }
}

} // verus!
