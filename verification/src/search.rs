//! What a track search asks for, and what it hands on.

use vstd::prelude::*;

verus! {

/// The most tracks one search asks for.
pub const SEARCH_LIMIT: u32 = 50;

/// The position of the first track a search asks for.
pub const SEARCH_OFFSET: u32 = 0;

/// The tracks a search found and the number of matches the service counted,
/// from its results, or none and zero when the search failed.
pub fn found_tracks<T>(results: Option<(Vec<T>, u32)>) -> (found: (Vec<T>, u32))
    ensures
        match results {
            Some((tracks, total)) => found.0@ == tracks@ && found.1 == total,
            None => found.0@.len() == 0 && found.1 == 0,
        },
{
    match results {
        Some((tracks, total)) => (tracks, total),
        None => (Vec::new(), 0),
    }
}

} // verus!
