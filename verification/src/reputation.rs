//! Reputation: the sum of the point values of a badge collection.

use crate::models::{views, Badge, BadgeView};
use vstd::prelude::*;
use vstd::seq_lib::*;

verus! {

/// The sum of the tiers' point values over the badges, each badge counted as
/// often as it occurs.
pub open spec fn total_points(badges: Seq<BadgeView>) -> nat
    decreases badges.len(),
{
    if badges.len() == 0 {
        0
    } else {
        total_points(badges.drop_last()) + badges.last().tier.points()
    }
}

/// The largest point value of a tier.
pub const MAX_TIER_POINTS: u64 = 300;

/// No badge is worth more than `MAX_TIER_POINTS`, so the total is at most
/// that many points per badge.
pub proof fn lemma_total_points_bound(badges: Seq<BadgeView>)
    ensures
        total_points(badges) <= badges.len() * MAX_TIER_POINTS,
    decreases badges.len(),
{
    if badges.len() > 0 {
        lemma_total_points_bound(badges.drop_last());
    }
}

/// Adds up the point values of the badges' tiers. Nothing is capped, scaled
/// or left out: a badge that occurs twice counts twice.
///
/// The score is the total kept to 64 bits, which is the total itself
/// wherever the collection is small enough for the largest possible total
/// to fit.
pub fn calculate_reputation_score(badges: &[Badge]) -> (score: u64)
    ensures
        score == total_points(views(badges@)) % 0x1_0000_0000_0000_0000,
        badges@.len() * MAX_TIER_POINTS <= u64::MAX ==> score == total_points(views(badges@)),
{
    let mut total: u128 = 0;
    let mut i: usize = 0;
    while i < badges.len()
        invariant
            i <= badges.len(),
            total == total_points(views(badges@).take(i as int)),
            total <= i * MAX_TIER_POINTS,
        decreases badges.len() - i,
    {
        proof {
            let all = views(badges@);
            assert(all.take(i + 1).drop_last() =~= all.take(i as int));
            assert(all.take(i + 1).last() == badges@[i as int]@);
        }
        let points: u32 = badges[i].tier.get_points();
        total = total + points as u128;
        i = i + 1;
    }
    assert(views(badges@).take(i as int) =~= views(badges@));
    (total % 0x1_0000_0000_0000_0000) as u64
}

/// Taking one badge out lowers the total by that badge's points.
pub proof fn lemma_total_points_remove(badges: Seq<BadgeView>, i: int)
    requires
        0 <= i < badges.len(),
    ensures
        total_points(badges) == total_points(badges.remove(i)) + badges[i].tier.points(),
    decreases badges.len(),
{
    if i == badges.len() - 1 {
        assert(badges.remove(i) =~= badges.drop_last());
    } else {
        lemma_total_points_remove(badges.drop_last(), i);
        assert(badges.remove(i).drop_last() =~= badges.drop_last().remove(i));
        assert(badges.remove(i).last() == badges.last());
    }
}

/// The total does not depend on the order of the badges: two collections
/// that hold the same badges equally often have the same total.
pub proof fn lemma_total_points_permutation(a: Seq<BadgeView>, b: Seq<BadgeView>)
    requires
        a.to_multiset() == b.to_multiset(),
    ensures
        total_points(a) == total_points(b),
    decreases a.len(),
{
    broadcast use group_to_multiset_ensures;

    if a.len() == 0 {
        to_multiset_len(a);
        to_multiset_len(b);
    } else {
        let last = a.len() - 1;
        let x = a[last];
        assert(a.contains(x));
        assert(b.to_multiset().count(x) > 0);
        assert(b.contains(x));
        let j = choose|j: int| 0 <= j < b.len() && b[j] == x;
        assert(a.remove(last) =~= a.drop_last());
        assert(a.remove(last).to_multiset() == b.remove(j).to_multiset());
        lemma_total_points_permutation(a.drop_last(), b.remove(j));
        lemma_total_points_remove(b, j);
    }
}

/// The total of two collections put together is the sum of their totals.
pub proof fn lemma_total_points_concat(a: Seq<BadgeView>, b: Seq<BadgeView>)
    ensures
        total_points(a + b) == total_points(a) + total_points(b),
    decreases b.len(),
{
    if b.len() == 0 {
        assert(a + b =~= a);
    } else {
        lemma_total_points_concat(a, b.drop_last());
        assert((a + b).drop_last() =~= a + b.drop_last());
        assert((a + b).last() == b.last());
    }
}

} // verus!
