//! A single rating-to-role matching rule: an interval over integer ratings,
//! optionally open-ended on either side, tied to the role it grants.

use vstd::prelude::*;

verus! {

#[derive(Debug, Clone, Copy, PartialEq, Eq)]
pub struct RatingRange {
    pub role_id: u64,
    pub min: Option<i16>,
    pub max: Option<i16>,
}

impl RatingRange {
    /// What `is_match` decides, by configuration shape: closed on both ends
    /// when both bounds are present, inclusive below when only `min` is
    /// present, strictly below `max` when only `max` is present (so adjacent
    /// bands like "under 1000" and "1000 and up" neither overlap nor leave a
    /// gap), and never a match when neither bound is present.
    pub open spec fn matches(self, rating: int) -> bool {
        match (self.min, self.max) {
            (Some(min), Some(max)) => rating >= min && rating <= max,
            (Some(min), None) => rating >= min,
            (None, Some(max)) => rating < max,
            (None, None) => false,
        }
    }

    pub fn new(role_id: u64, min: Option<i16>, max: Option<i16>) -> (rr: RatingRange)
        ensures
            rr == (RatingRange { role_id, min, max }),
    {
        RatingRange { role_id, min, max }
    }

    pub fn is_match(&self, rating: i16) -> (r: bool)
        ensures
            r == self.matches(rating as int),
    {
        match (self.min, self.max) {
            (Some(min), Some(max)) => rating >= min && rating <= max,
            (Some(min), None) => rating >= min,
            (None, Some(max)) => rating < max,
            _ => false,
        }
    }

    pub fn role_id(&self) -> (r: u64)
        ensures
            r == self.role_id,
    {
        self.role_id
    }
}

/// Law: with both bounds present, a rating matches exactly when it lies in
/// the closed interval from `min` to `max`.
pub proof fn lemma_match_closed_interval(rr: RatingRange, min: i16, max: i16, rating: int)
    requires
        rr.min == Some(min),
        rr.max == Some(max),
    ensures
        rr.matches(rating) <==> (min <= rating && rating <= max),
{
}

/// Law: with only an upper bound, the bound itself is excluded — `max` does
/// not match while `max - 1` does, and in general a rating matches exactly
/// when it lies strictly below `max`.
pub proof fn lemma_match_upper_bound_exclusive(rr: RatingRange, max: i16, rating: int)
    requires
        rr.min == None::<i16>,
        rr.max == Some(max),
    ensures
        rr.matches(rating) <==> rating < max,
        !rr.matches(max as int),
        rr.matches(max - 1),
{
}

/// Law: with only a lower bound, the bound itself is included — `min`
/// matches while `min - 1` does not, and in general a rating matches exactly
/// when it lies at or above `min`.
pub proof fn lemma_match_lower_bound_inclusive(rr: RatingRange, min: i16, rating: int)
    requires
        rr.min == Some(min),
        rr.max == None::<i16>,
    ensures
        rr.matches(rating) <==> rating >= min,
        rr.matches(min as int),
        !rr.matches(min - 1),
{
}

/// Law: with neither bound present, no rating ever matches.
pub proof fn lemma_match_unbounded_never(rr: RatingRange, rating: int)
    requires
        rr.min == None::<i16>,
        rr.max == None::<i16>,
    ensures
        !rr.matches(rating),
{
}

} // verus!
