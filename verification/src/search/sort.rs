//! The orders a finished query's results can be put in.

use vstd::prelude::*;

use crate::media::Media;

verus! {

/// A query ready to run: its select statement and the clauses that
/// narrow it.
pub struct PreparedQuery {
    /// Something like a select over the whole media table.
    pub initial_select: String,
    /// The clauses that narrow the select.
    pub where_clauses: Vec<String>,
}

/// Different sorts users can apply to a search.
#[derive(Clone, Copy, Debug, PartialEq, Eq, PartialOrd, Ord, Structural)]
pub enum SortType {
    /// No order at all: all elements are randomly shuffled.
    Random,
    DateFirstSeen,
    DateModified,
    DateCreated,
    TagCount,
    Type,
    Size,
    Resolution,
    /// How long a video is; photos go to the end.
    Duration,
}

/// Which end of the order comes first.
#[derive(Clone, Copy, Debug, PartialEq, Eq, PartialOrd, Ord, Structural)]
pub enum SortOrder {
    /// Lowest value first.
    Ascending,
    /// Highest value first.
    Descending,
}

/// A query that has been executed and can now be sorted based on user
/// input.
pub struct FinishedQuery(pub Vec<Media>);

} // verus!
