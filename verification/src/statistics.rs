//! Badge statistics: which badges are held most often.

use crate::models::{usage_views, views, BadgeView};
use crate::profile::{UserProfile, UserProfileView};
use vstd::prelude::*;
use vstd::string::*;

verus! {

/// How many badge names the statistics list at most.
pub const TOP_BADGES: usize = 20;

/// The names of the badges, in their order.
pub open spec fn badge_names(badges: Seq<BadgeView>) -> Seq<Seq<char>> {
    Seq::new(badges.len(), |i: int| badges[i].name)
}

/// The names of the badges of all profiles: profile after profile, and
/// within a profile badge after badge.
pub open spec fn all_badge_names(profiles: Seq<UserProfileView>) -> Seq<Seq<char>>
    decreases profiles.len(),
{
    if profiles.len() == 0 {
        seq![]
    } else {
        all_badge_names(profiles.drop_last()) + badge_names(profiles.last().badges)
    }
}

/// How often a name occurs among the names.
pub open spec fn occurrences(names: Seq<Seq<char>>, name: Seq<char>) -> nat
    decreases names.len(),
{
    if names.len() == 0 {
        0
    } else {
        occurrences(names.drop_last(), name) + if names.last() == name {
            1nat
        } else {
            0nat
        }
    }
}

/// The names without repetitions, in the order in which they first occur.
pub open spec fn distinct_names(names: Seq<Seq<char>>) -> Seq<Seq<char>>
    decreases names.len(),
{
    if names.len() == 0 {
        seq![]
    } else {
        let before = distinct_names(names.drop_last());
        if before.contains(names.last()) {
            before
        } else {
            before.push(names.last())
        }
    }
}

/// Each name with the number of its occurrences, kept to 32 bits, in the
/// order in which the names first occur.
pub open spec fn name_counts(names: Seq<Seq<char>>) -> Seq<(Seq<char>, u32)> {
    Seq::new(
        distinct_names(names).len(),
        |i: int|
            (
                distinct_names(names)[i],
                (occurrences(names, distinct_names(names)[i]) % 0x1_0000_0000) as u32,
            ),
    )
}

/// The distinct names are pairwise distinct and are exactly the names that
/// occur; a name that is not among them does not occur.
pub proof fn lemma_distinct_names(names: Seq<Seq<char>>)
    ensures
        distinct_names(names).no_duplicates(),
        forall|name: Seq<char>|
            #[trigger] distinct_names(names).contains(name) <==> names.contains(name),
        forall|name: Seq<char>|
            !distinct_names(names).contains(name) ==> #[trigger] occurrences(names, name) == 0,
    decreases names.len(),
{
    if names.len() > 0 {
        let rest = names.drop_last();
        let before = distinct_names(rest);
        let seen = distinct_names(names);
        lemma_distinct_names(rest);
        assert forall|name: Seq<char>| seen.contains(name) implies names.contains(name) by {
            let i = choose|i: int| 0 <= i < seen.len() && seen[i] == name;
            if i < before.len() {
                assert(before[i] == name);
                assert(before.contains(name));
                assert(rest.contains(name));
                let k = choose|k: int| 0 <= k < rest.len() && rest[k] == name;
                assert(names[k] == rest[k]);
            } else {
                assert(names[names.len() - 1] == name);
            }
        }
        assert forall|name: Seq<char>| names.contains(name) implies seen.contains(name) by {
            let k = choose|k: int| 0 <= k < names.len() && names[k] == name;
            if k < rest.len() {
                assert(rest[k] == name);
                assert(rest.contains(name));
                assert(before.contains(name));
            }
            if before.contains(name) {
                let i = choose|i: int| 0 <= i < before.len() && before[i] == name;
                assert(seen[i] == name);
            } else {
                assert(seen[seen.len() - 1] == name);
            }
        }
        assert forall|name: Seq<char>| !seen.contains(name) implies #[trigger] occurrences(
            names,
            name,
        ) == 0 by {
            if before.contains(name) {
                let i = choose|i: int| 0 <= i < before.len() && before[i] == name;
                assert(seen[i] == name);
                assert(seen.contains(name));
            }
            assert(occurrences(rest, name) == 0);
            if names.last() == name {
                assert(names[names.len() - 1] == name);
                assert(names.contains(name));
            }
        }
    }
}

fn collect_names(profiles: &[UserProfile]) -> (names: Vec<String>)
    ensures
        views(names@) == all_badge_names(views(profiles@)),
{
    let mut names: Vec<String> = Vec::new();
    let mut i: usize = 0;
    assert(views(names@) =~= all_badge_names(views(profiles@).take(0)));
    while i < profiles.len()
        invariant
            i <= profiles@.len(),
            views(names@) == all_badge_names(views(profiles@).take(i as int)),
        decreases profiles.len() - i,
    {
        let ghost before = views(names@);
        let ghost held = badge_names(profiles@[i as int]@.badges);
        proof {
            let all = views(profiles@);
            assert(all.take(i + 1).drop_last() =~= all.take(i as int));
            assert(all.take(i + 1).last() == profiles@[i as int]@);
        }
        let mut j: usize = 0;
        assert(held.take(0) =~= Seq::empty());
        assert(views(names@) =~= before + held.take(0));
        while j < profiles[i].badges.len()
            invariant
                i < profiles@.len(),
                j <= profiles@[i as int].badges@.len(),
                held == badge_names(profiles@[i as int]@.badges),
                views(names@) == before + held.take(j as int),
            decreases profiles[i as int].badges.len() - j,
        {
            let ghost sofar = views(names@);
            names.push(profiles[i].badges[j].name.clone());
            proof {
                assert(held[j as int] == profiles@[i as int].badges@[j as int].name@);
                assert(held.take(j + 1) =~= held.take(j as int).push(held[j as int]));
                assert(views(names@) =~= sofar.push(held[j as int]));
            }
            j = j + 1;
        }
        assert(held.take(j as int) =~= held);
        i = i + 1;
    }
    assert(views(profiles@).take(i as int) =~= views(profiles@));
    names
}

fn position_of(counts: &Vec<(String, u32)>, name: &String) -> (r: Option<usize>)
    ensures
        r matches Some(k) ==> k < counts@.len() && counts@[k as int].0@ == name@,
        r is None ==> forall|j: int| 0 <= j < counts@.len() ==> counts@[j].0@ != name@,
{
    let mut k: usize = 0;
    while k < counts.len()
        invariant
            k <= counts@.len(),
            forall|j: int| 0 <= j < k ==> counts@[j].0@ != name@,
        decreases counts.len() - k,
    {
        if counts[k].0 == *name {
            return Some(k);
        }
        k = k + 1;
    }
    None
}

fn count_names(names: &Vec<String>) -> (counts: Vec<(String, u32)>)
    ensures
        usage_views(counts@) == name_counts(views(names@)),
{
    let mut counts: Vec<(String, u32)> = Vec::new();
    let mut i: usize = 0;
    assert(usage_views(counts@) =~= name_counts(views(names@).take(0)));
    while i < names.len()
        invariant
            i <= names@.len(),
            usage_views(counts@) == name_counts(views(names@).take(i as int)),
        decreases names.len() - i,
    {
        let ghost all = views(names@);
        let ghost done = all.take(i as int);
        let ghost next = all.take(i + 1);
        let ghost before = usage_views(counts@);
        let name: &String = &names[i];
        proof {
            assert(next.drop_last() =~= done);
            assert(next.last() == name@);
            lemma_distinct_names(done);
            assert(before.len() == distinct_names(done).len());
            assert forall|j: int| 0 <= j < before.len() implies before[j].0 == distinct_names(
                done,
            )[j] by {}
        }
        match position_of(&counts, name) {
            Some(k) => {
                let count: u32 = counts[k].1;
                let more: u64 = (count as u64 + 1) % 0x1_0000_0000;
                counts.set(k, (name.clone(), more as u32));
                proof {
                    assert(before[k as int].0 == name@);
                    assert(distinct_names(done)[k as int] == name@);
                    assert(distinct_names(done).contains(name@));
                    assert(distinct_names(next) == distinct_names(done));
                    let after = usage_views(counts@);
                    assert(after.len() == before.len());
                    assert(name_counts(next).len() == before.len());
                    assert forall|j: int| 0 <= j < after.len() implies #[trigger] after[j]
                        == name_counts(next)[j] by {
                        if j != k {
                            assert(distinct_names(done)[j] != distinct_names(done)[k as int]);
                            assert(after[j] == before[j]);
                        }
                    }
                    assert(after =~= name_counts(next));
                }
            },
            None => {
                counts.push((name.clone(), 1));
                proof {
                    if distinct_names(done).contains(name@) {
                        let j = choose|j: int|
                            0 <= j < distinct_names(done).len() && distinct_names(done)[j]
                                == name@;
                        assert(before[j].0 == name@);
                    }
                    assert(!distinct_names(done).contains(name@));
                    assert(occurrences(done, name@) == 0);
                    assert(distinct_names(next) == distinct_names(done).push(name@));
                    let after = usage_views(counts@);
                    assert(after.len() == before.len() + 1);
                    assert forall|j: int| 0 <= j < after.len() implies #[trigger] after[j]
                        == name_counts(next)[j] by {
                        if j < before.len() {
                            assert(distinct_names(done).contains(distinct_names(done)[j]));
                            assert(after[j] == before[j]);
                        }
                    }
                    assert(after =~= name_counts(next));
                }
            },
        }
        i = i + 1;
    }
    assert(views(names@).take(i as int) =~= views(names@));
    counts
}

/// Where an entry with the given count goes into a ranking: in front of the
/// first entry with a lower count, and behind all others.
pub open spec fn first_lower(ranking: Seq<(Seq<char>, u32)>, count: u32) -> int
    decreases ranking.len(),
{
    if ranking.len() == 0 {
        0
    } else if ranking.first().1 < count {
        0
    } else {
        1 + first_lower(ranking.drop_first(), count)
    }
}

/// The entries ranked by their counts: the higher count first, and of two
/// entries with the same count the one that comes first among the entries.
pub open spec fn ranked_counts(entries: Seq<(Seq<char>, u32)>) -> Seq<(Seq<char>, u32)>
    decreases entries.len(),
{
    if entries.len() == 0 {
        seq![]
    } else {
        let before = ranked_counts(entries.drop_last());
        before.insert(first_lower(before, entries.last().1), entries.last())
    }
}

/// Whether no entry of a ranking has a lower count than one behind it.
pub open spec fn counts_descending(ranking: Seq<(Seq<char>, u32)>) -> bool {
    forall|i: int, j: int|
        0 <= i <= j < ranking.len() ==> (#[trigger] ranking[i]).1 >= (#[trigger] ranking[j]).1
}

/// The place of a new entry lies within the ranking; all entries in front of
/// it have at least its count, and in a descending ranking all behind it
/// have less.
pub proof fn lemma_first_lower(ranking: Seq<(Seq<char>, u32)>, count: u32)
    ensures
        0 <= first_lower(ranking, count) <= ranking.len(),
        forall|i: int| 0 <= i < first_lower(ranking, count) ==> (#[trigger] ranking[i]).1 >= count,
        counts_descending(ranking) ==> forall|i: int|
            first_lower(ranking, count) <= i < ranking.len() ==> (#[trigger] ranking[i]).1 < count,
    decreases ranking.len(),
{
    if ranking.len() > 0 && ranking.first().1 >= count {
        let rest = ranking.drop_first();
        lemma_first_lower(rest, count);
        assert forall|i: int| 0 <= i < first_lower(ranking, count) implies (
        #[trigger] ranking[i]).1 >= count by {
            if i > 0 {
                assert(ranking[i] == rest[i - 1]);
            }
        }
        if counts_descending(ranking) {
            assert forall|i: int, j: int| 0 <= i <= j < rest.len() implies (#[trigger] rest[i]).1
                >= (#[trigger] rest[j]).1 by {
                assert(rest[i] == ranking[i + 1]);
                assert(rest[j] == ranking[j + 1]);
            }
            assert forall|i: int| first_lower(ranking, count) <= i < ranking.len() implies (
            #[trigger] ranking[i]).1 < count by {
                assert(ranking[i] == rest[i - 1]);
            }
        }
    } else if ranking.len() > 0 {
        if counts_descending(ranking) {
            assert forall|i: int| 0 <= i < ranking.len() implies (#[trigger] ranking[i]).1
                < count by {
                assert(ranking[0].1 >= ranking[i].1);
            }
        }
    }
}

/// Ranked entries are in descending order of their counts, and are the
/// entries that were ranked, each as often as it occurs among them.
pub proof fn lemma_ranked_counts(entries: Seq<(Seq<char>, u32)>)
    ensures
        counts_descending(ranked_counts(entries)),
        ranked_counts(entries).to_multiset() == entries.to_multiset(),
    decreases entries.len(),
{
    broadcast use vstd::seq_lib::group_to_multiset_ensures;

    if entries.len() > 0 {
        let rest = entries.drop_last();
        let before = ranked_counts(rest);
        lemma_ranked_counts(rest);
        let e = entries.last();
        let k = first_lower(before, e.1);
        lemma_first_lower(before, e.1);
        let after = before.insert(k, e);
        assert forall|i: int, j: int| 0 <= i <= j < after.len() implies (#[trigger] after[i]).1
            >= (#[trigger] after[j]).1 by {
            if i < k {
                assert(after[i] == before[i]);
            } else if i > k {
                assert(after[i] == before[i - 1]);
            }
            if j < k {
                assert(after[j] == before[j]);
            } else if j > k {
                assert(after[j] == before[j - 1]);
            }
        }
        assert(after.to_multiset() == before.to_multiset().insert(e));
        assert(entries =~= rest.push(e));
        assert(rest.push(e).to_multiset() =~= rest.to_multiset().insert(e));
    }
}

fn place_of(ranking: &Vec<(String, u32)>, count: u32) -> (place: usize)
    ensures
        place == first_lower(usage_views(ranking@), count),
        place <= ranking@.len(),
{
    let ghost ranked = usage_views(ranking@);
    let mut k: usize = 0;
    assert(ranked.skip(0) =~= ranked);
    while k < ranking.len() && ranking[k].1 >= count
        invariant
            k <= ranking@.len(),
            ranked == usage_views(ranking@),
            first_lower(ranked, count) == k + first_lower(ranked.skip(k as int), count),
        decreases ranking.len() - k,
    {
        proof {
            let tail = ranked.skip(k as int);
            assert(tail.first().1 == ranking@[k as int].1);
            assert(tail.drop_first() =~= ranked.skip(k + 1));
        }
        k = k + 1;
    }
    proof {
        let tail = ranked.skip(k as int);
        if k < ranking@.len() {
            assert(tail.first().1 == ranking@[k as int].1);
        }
    }
    k
}

fn rank_counts(counts: Vec<(String, u32)>) -> (ranking: Vec<(String, u32)>)
    ensures
        usage_views(ranking@) == ranked_counts(usage_views(counts@)),
{
    let mut counts = counts;
    let ghost all = usage_views(counts@);
    let mut ranking: Vec<(String, u32)> = Vec::new();
    assert(all.skip(0) =~= all);
    assert(all.take(0) =~= Seq::empty());
    assert(usage_views(ranking@) =~= Seq::empty());
    while counts.len() > 0
        invariant
            counts@.len() <= all.len(),
            usage_views(counts@) == all.skip(all.len() - counts@.len()),
            usage_views(ranking@) == ranked_counts(all.take(all.len() - counts@.len())),
        decreases counts.len(),
    {
        let ghost done = all.len() - counts@.len();
        let ghost before = usage_views(ranking@);
        let ghost waiting = counts@;
        let entry = counts.remove(0);
        proof {
            assert(usage_views(waiting)[0] == (waiting[0].0@, waiting[0].1));
            assert(all.skip(done)[0] == all[done]);
            assert((entry.0@, entry.1) == all[done]);
            assert forall|j: int| 0 <= j < counts@.len() implies #[trigger] usage_views(counts@)[j]
                == all.skip(done + 1)[j] by {
                assert(counts@[j] == waiting[j + 1]);
                assert(usage_views(waiting)[j + 1] == (waiting[j + 1].0@, waiting[j + 1].1));
                assert(all.skip(done)[j + 1] == all[done + j + 1]);
            }
            assert(usage_views(counts@) =~= all.skip(done + 1));
            assert(all.take(done + 1).drop_last() =~= all.take(done));
            assert(all.take(done + 1).last() == all[done]);
            lemma_first_lower(before, entry.1);
        }
        let place = place_of(&ranking, entry.1);
        ranking.insert(place, entry);
        assert(usage_views(ranking@) =~= before.insert(place as int, (entry.0@, entry.1)));
    }
    assert(all.take(all.len() as int) =~= all);
    ranking
}

/// The statistics of the profiles: the names of their badges, each with the
/// number of badges of that name, the most frequent first, up to
/// `TOP_BADGES` of them. Of two names that are equally frequent the one that
/// occurs first comes first.
pub open spec fn badge_statistics(profiles: Seq<UserProfileView>) -> Seq<(Seq<char>, u32)> {
    let ranking = ranked_counts(name_counts(all_badge_names(profiles)));
    if ranking.len() <= TOP_BADGES {
        ranking
    } else {
        ranking.take(TOP_BADGES as int)
    }
}

/// Counts how often each badge name occurs in the profiles and lists the
/// most frequent names.
pub fn get_badge_statistics(profiles: &[UserProfile]) -> (stats: Vec<(String, u32)>)
    ensures
        usage_views(stats@) == badge_statistics(views(profiles@)),
{
    let names = collect_names(profiles);
    let counts = count_names(&names);
    let mut stats = rank_counts(counts);
    if stats.len() > TOP_BADGES {
        let ghost whole = usage_views(stats@);
        stats.truncate(TOP_BADGES);
        assert(usage_views(stats@) =~= whole.take(TOP_BADGES as int));
    }
    stats
}

} // verus!
