//! The role evaluator: from a rating and the configured matching rules to
//! the roles that should be granted — and, for revocation, the configured
//! roles that should not.

use vstd::prelude::*;

use crate::rating_range::RatingRange;

verus! {

/// The role ids of the ranges the rating matches, in configuration order.
/// Overlapping ranges are permitted; every match contributes.
pub open spec fn granted_roles(ranges: Seq<RatingRange>, rating: int) -> Seq<u64>
    decreases ranges.len(),
{
    if ranges.len() == 0 {
        Seq::empty()
    } else {
        let rest = granted_roles(ranges.drop_last(), rating);
        if ranges.last().matches(rating) {
            rest.push(ranges.last().role_id)
        } else {
            rest
        }
    }
}

/// The role ids of the ranges the rating does not match, in configuration
/// order: the roles a caller should remove so that a rating change revokes
/// a role that no longer applies.
pub open spec fn revoked_roles(ranges: Seq<RatingRange>, rating: int) -> Seq<u64>
    decreases ranges.len(),
{
    if ranges.len() == 0 {
        Seq::empty()
    } else {
        let rest = revoked_roles(ranges.drop_last(), rating);
        if ranges.last().matches(rating) {
            rest
        } else {
            rest.push(ranges.last().role_id)
        }
    }
}

/// The union of the matching rules' roles, not a single best match.
pub fn evaluate(rating: i16, ranges: &Vec<RatingRange>) -> (roles: Vec<u64>)
    ensures
        roles@ == granted_roles(ranges@, rating as int),
{
    let mut roles: Vec<u64> = Vec::new();
    proof {
        assert(ranges@.take(0) =~= Seq::<RatingRange>::empty());
    }
    let mut i: usize = 0;
    while i < ranges.len()
        invariant
            i <= ranges.len(),
            roles@ == granted_roles(ranges@.take(i as int), rating as int),
        decreases ranges.len() - i,
    {
        let rr = ranges[i];
        proof {
            assert(ranges@.take(i + 1).drop_last() =~= ranges@.take(i as int));
            assert(ranges@.take(i + 1).last() == ranges@[i as int]);
        }
        if rr.is_match(rating) {
            roles.push(rr.role_id());
        }
        i += 1;
    }
    proof {
        assert(ranges@.take(ranges@.len() as int) =~= ranges@);
    }
    roles
}

/// The complement of `evaluate` over the same configuration: the roles to
/// take away.
pub fn evaluate_revoked(rating: i16, ranges: &Vec<RatingRange>) -> (roles: Vec<u64>)
    ensures
        roles@ == revoked_roles(ranges@, rating as int),
{
    let mut roles: Vec<u64> = Vec::new();
    proof {
        assert(ranges@.take(0) =~= Seq::<RatingRange>::empty());
    }
    let mut i: usize = 0;
    while i < ranges.len()
        invariant
            i <= ranges.len(),
            roles@ == revoked_roles(ranges@.take(i as int), rating as int),
        decreases ranges.len() - i,
    {
        let rr = ranges[i];
        proof {
            assert(ranges@.take(i + 1).drop_last() =~= ranges@.take(i as int));
            assert(ranges@.take(i + 1).last() == ranges@[i as int]);
        }
        if !rr.is_match(rating) {
            roles.push(rr.role_id());
        }
        i += 1;
    }
    proof {
        assert(ranges@.take(ranges@.len() as int) =~= ranges@);
    }
    roles
}

/// Law: grant and revocation partition the configuration. Every configured
/// range contributes its role to exactly one of the two results, so the two
/// lengths always add up to the number of configured ranges.
pub proof fn lemma_grant_revoke_partition(ranges: Seq<RatingRange>, rating: int)
    ensures
        granted_roles(ranges, rating).len() + revoked_roles(ranges, rating).len() == ranges.len(),
    decreases ranges.len(),
{
    if ranges.len() > 0 {
        lemma_grant_revoke_partition(ranges.drop_last(), rating);
    }
}

/// Law: a role is granted exactly when some configured range carries it and
/// matches the rating.
pub proof fn lemma_granted_iff_some_match(ranges: Seq<RatingRange>, rating: int, role: u64)
    ensures
        granted_roles(ranges, rating).contains(role) <==> exists|i: int|
            0 <= i < ranges.len() && (#[trigger] ranges[i]).matches(rating)
                && ranges[i].role_id == role,
    decreases ranges.len(),
{
    if ranges.len() > 0 {
        lemma_granted_iff_some_match(ranges.drop_last(), rating, role);
        let rest = granted_roles(ranges.drop_last(), rating);
        if ranges.last().matches(rating) && ranges.last().role_id == role {
            assert(rest.push(role).contains(role)) by {
                assert(rest.push(role)[rest.len() as int] == role);
            }
        }
        if granted_roles(ranges, rating).contains(role) {
            if ranges.last().matches(rating) {
                let j = choose|j: int|
                    0 <= j < rest.push(ranges.last().role_id).len() && rest.push(
                        ranges.last().role_id,
                    )[j] == role;
                if j < rest.len() {
                    assert(rest.contains(role));
                }
            }
        } else {
            if exists|i: int|
                0 <= i < ranges.len() && (#[trigger] ranges[i]).matches(rating)
                    && ranges[i].role_id == role {
                let i = choose|i: int|
                    0 <= i < ranges.len() && (#[trigger] ranges[i]).matches(rating)
                        && ranges[i].role_id == role;
                if i < ranges.len() - 1 {
                    assert(ranges.drop_last()[i] == ranges[i]);
                    assert(rest.contains(role));
                    assert(granted_roles(ranges, rating).contains(role)) by {
                        let j = choose|j: int| 0 <= j < rest.len() && rest[j] == role;
                        if ranges.last().matches(rating) {
                            assert(rest.push(ranges.last().role_id)[j] == role);
                        }
                    }
                }
            }
        }
    }
}

/// Law: a role is revoked exactly when some configured range carries it and
/// does not match the rating. Together with the grant law this is the
/// revocation policy: after a rating change, every configured role the new
/// rating no longer reaches is taken away.
pub proof fn lemma_revoked_iff_some_miss(ranges: Seq<RatingRange>, rating: int, role: u64)
    ensures
        revoked_roles(ranges, rating).contains(role) <==> exists|i: int|
            0 <= i < ranges.len() && !(#[trigger] ranges[i]).matches(rating)
                && ranges[i].role_id == role,
    decreases ranges.len(),
{
    if ranges.len() > 0 {
        lemma_revoked_iff_some_miss(ranges.drop_last(), rating, role);
        let rest = revoked_roles(ranges.drop_last(), rating);
        if !ranges.last().matches(rating) && ranges.last().role_id == role {
            assert(rest.push(role).contains(role)) by {
                assert(rest.push(role)[rest.len() as int] == role);
            }
        }
        if revoked_roles(ranges, rating).contains(role) {
            if !ranges.last().matches(rating) {
                let j = choose|j: int|
                    0 <= j < rest.push(ranges.last().role_id).len() && rest.push(
                        ranges.last().role_id,
                    )[j] == role;
                if j < rest.len() {
                    assert(rest.contains(role));
                }
            }
        } else {
            if exists|i: int|
                0 <= i < ranges.len() && !(#[trigger] ranges[i]).matches(rating)
                    && ranges[i].role_id == role {
                let i = choose|i: int|
                    0 <= i < ranges.len() && !(#[trigger] ranges[i]).matches(rating)
                        && ranges[i].role_id == role;
                if i < ranges.len() - 1 {
                    assert(ranges.drop_last()[i] == ranges[i]);
                    assert(rest.contains(role));
                    assert(revoked_roles(ranges, rating).contains(role)) by {
                        let j = choose|j: int| 0 <= j < rest.len() && rest[j] == role;
                        if !ranges.last().matches(rating) {
                            assert(rest.push(ranges.last().role_id)[j] == role);
                        }
                    }
                }
            }
        }
    }
}

} // verus!
