//! Aggregate counters kept by the storage collaborator. The collaborator
//! owns and maintains them; this core only carries their shape.

use vstd::prelude::*;

verus! {

/// Counters summarising one person's contributions.
#[derive(Clone, Copy, PartialEq, Eq, Structural)]
pub struct PersonAggregates {
    pub id: i32,
    pub person_id: i32,
    pub post_count: i64,
    pub post_score: i64,
    pub comment_count: i64,
    pub comment_score: i64,
}

/// Counters summarising one post's activity. Times are seconds since the
/// epoch; the necro-limited comment time ignores very late comments.
#[derive(Clone, Copy, PartialEq, Eq, Structural)]
pub struct PostAggregates {
    pub id: i32,
    pub post_id: i32,
    pub comments: i64,
    pub score: i64,
    pub upvotes: i64,
    pub downvotes: i64,
    pub stickied: bool,
    pub published: i64,
    pub newest_comment_time_necro: i64,
    pub newest_comment_time: i64,
}

impl PostAggregates {
    /// The vote balance is always the upvotes less the downvotes; the
    /// collaborator maintains the three columns together.
    pub fn vote_balance(&self) -> (r: Option<i64>)
        ensures
            r is Some ==> r.unwrap() == self.upvotes - self.downvotes,
            (r is Some) == (i64::MIN <= self.upvotes - self.downvotes <= i64::MAX),
    {
        self.upvotes.checked_sub(self.downvotes)
    }
}

} // verus!
