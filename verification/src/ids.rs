//! Badge identifiers: within one run no identifier is given twice, with or
//! without an assessment.

use crate::badges::{
    achievement_badges, all_badges, commit_award, contribution_award, contribution_badges,
    early_adopter_award, innovation_award, language_award, language_badges, polyglot_award,
    repository_award, special_badges, star_award, streak_award,
};
use crate::insights::{
    enhanced_badges, expertise_badge, innovator_award, quality_award, some_name_contains,
    with_expertise, ScoreView,
};
use crate::models::{holds_id, ids_distinct, BadgeView, GitHubAnalysisView, RepositoryView};
use vstd::prelude::*;

verus! {

/// The place of an identifier among those of the badges that are no
/// language badges, in the order in which a run awards them; -1 for any
/// other text.
pub open spec fn fixed_rank(id: Seq<char>) -> int {
    if id == "open_source_contributor"@ {
        0
    } else if id == "community_builder"@ {
        1
    } else if id == "consistent_contributor"@ {
        2
    } else if id == "repository_creator"@ {
        3
    } else if id == "commit_master"@ {
        4
    } else if id == "star_collector"@ {
        5
    } else if id == "coding_streak"@ {
        6
    } else if id == "early_adopter"@ {
        7
    } else if id == "polyglot"@ {
        8
    } else if id == "innovator"@ {
        9
    } else {
        -1
    }
}

/// Whether a text begins with the letter `l`, as the identifiers of language
/// badges do.
pub open spec fn starts_with_l(id: Seq<char>) -> bool {
    id.len() > 0 && id[0] == 'l'
}

/// Whether the identifiers of the badges have ranks from `lo` to `hi` that
/// rise from badge to badge.
pub open spec fn ranked_within(badges: Seq<BadgeView>, lo: int, hi: int) -> bool {
    &&& forall|i: int|
        0 <= i < badges.len() ==> lo <= fixed_rank((#[trigger] badges[i]).id) <= hi
    &&& forall|i: int, j: int|
        0 <= i < j < badges.len() ==> fixed_rank((#[trigger] badges[i]).id) < fixed_rank(
            (#[trigger] badges[j]).id,
        )
}

/// The ten identifiers of the badges that are no language badges have the
/// ranks 0 to 9, and the identifier of a language badge has none.
proof fn lemma_fixed_ranks()
    ensures
        fixed_rank("open_source_contributor"@) == 0,
        fixed_rank("community_builder"@) == 1,
        fixed_rank("consistent_contributor"@) == 2,
        fixed_rank("repository_creator"@) == 3,
        fixed_rank("commit_master"@) == 4,
        fixed_rank("star_collector"@) == 5,
        fixed_rank("coding_streak"@) == 6,
        fixed_rank("early_adopter"@) == 7,
        fixed_rank("polyglot"@) == 8,
        fixed_rank("innovator"@) == 9,
        forall|name: Seq<char>| fixed_rank(#[trigger] ("lang_"@ + name)) == -1,
{
    reveal_strlit("open_source_contributor");
    reveal_strlit("community_builder");
    reveal_strlit("consistent_contributor");
    reveal_strlit("repository_creator");
    reveal_strlit("commit_master");
    reveal_strlit("star_collector");
    reveal_strlit("coding_streak");
    reveal_strlit("early_adopter");
    reveal_strlit("polyglot");
    reveal_strlit("innovator");
    reveal_strlit("lang_");
    assert("open_source_contributor"@.len() == 23);
    assert("community_builder"@.len() == 17);
    assert("consistent_contributor"@.len() == 22);
    assert("repository_creator"@.len() == 18);
    assert("commit_master"@.len() == 13);
    assert("star_collector"@.len() == 14);
    assert("coding_streak"@.len() == 13);
    assert("early_adopter"@.len() == 13);
    assert("polyglot"@.len() == 8);
    assert("innovator"@.len() == 9);
    assert("commit_master"@[2] != "coding_streak"@[2]);
    assert("commit_master"@[0] != "early_adopter"@[0]);
    assert("coding_streak"@[0] != "early_adopter"@[0]);
    assert forall|name: Seq<char>| fixed_rank(#[trigger] ("lang_"@ + name)) == -1 by {
        let id = "lang_"@ + name;
        assert(id[0] == 'l');
        assert("open_source_contributor"@[0] == 'o');
        assert("community_builder"@[0] == 'c');
        assert("consistent_contributor"@[0] == 'c');
        assert("repository_creator"@[0] == 'r');
        assert("commit_master"@[0] == 'c');
        assert("star_collector"@[0] == 's');
        assert("coding_streak"@[0] == 'c');
        assert("early_adopter"@[0] == 'e');
        assert("polyglot"@[0] == 'p');
        assert("innovator"@[0] == 'i');
    }
}

/// Badges with rising ranks followed by badges with rising higher ranks
/// have rising ranks.
proof fn lemma_ranked_concat(x: Seq<BadgeView>, y: Seq<BadgeView>, lo: int, mid: int, hi: int)
    requires
        lo <= mid < hi,
        ranked_within(x, lo, mid),
        ranked_within(y, mid + 1, hi),
    ensures
        ranked_within(x + y, lo, hi),
{
    let z = x + y;
    assert forall|i: int| 0 <= i < z.len() implies lo <= fixed_rank((#[trigger] z[i]).id)
        <= hi by {
        if i < x.len() {
            assert(z[i] == x[i]);
        } else {
            assert(z[i] == y[i - x.len()]);
        }
    }
    assert forall|i: int, j: int| 0 <= i < j < z.len() implies fixed_rank((#[trigger] z[i]).id)
        < fixed_rank((#[trigger] z[j]).id) by {
        if i < x.len() {
            assert(z[i] == x[i]);
        } else {
            assert(z[i] == y[i - x.len()]);
        }
        if j < x.len() {
            assert(z[j] == x[j]);
        } else {
            assert(z[j] == y[j - x.len()]);
        }
    }
}

/// The badges of a run that are no language badges have the ranks 0 to 9,
/// rising.
proof fn lemma_fixed_badges_ranked(a: GitHubAnalysisView, earned_at: u64)
    ensures
        ranked_within(
            contribution_badges(a, earned_at) + achievement_badges(a, earned_at) + special_badges(
                a,
                earned_at,
            ),
            0,
            9,
        ),
{
    lemma_fixed_ranks();
    let c0 = contribution_award(
        crate::badges::open_source_score(a),
        "open_source"@,
        "open_source_contributor"@,
        "Open Source Contributor"@,
        "Active contributor to open source projects"@,
        "OpenSource"@,
        earned_at,
    );
    let c1 = contribution_award(
        a.community_engagement_score,
        "community"@,
        "community_builder"@,
        "Community Builder"@,
        "Building and engaging with the developer community"@,
        "Community"@,
        earned_at,
    );
    let c2 = contribution_award(
        a.commit_frequency_score,
        "consistency"@,
        "consistent_contributor"@,
        "Consistent Contributor"@,
        "Maintaining consistent contribution patterns"@,
        "Consistency"@,
        earned_at,
    );
    let a3 = repository_award(a.total_repos, earned_at);
    let a4 = commit_award(a.total_commits, earned_at);
    let a5 = star_award(a.total_stars_received, earned_at);
    let a6 = streak_award(a.contributions_this_year, earned_at);
    let s7 = early_adopter_award(a.account_age_days, earned_at);
    let s8 = polyglot_award(a.languages.len(), earned_at);
    let s9 = innovation_award(a.code_quality_score, earned_at);
    assert(ranked_within(c0, 0, 0));
    assert(ranked_within(c1, 1, 1));
    assert(ranked_within(c2, 2, 2));
    assert(ranked_within(a3, 3, 3));
    assert(ranked_within(a4, 4, 4));
    assert(ranked_within(a5, 5, 5));
    assert(ranked_within(a6, 6, 6));
    assert(ranked_within(s7, 7, 7));
    assert(ranked_within(s8, 8, 8));
    assert(ranked_within(s9, 9, 9));
    lemma_ranked_concat(c0, c1, 0, 0, 1);
    lemma_ranked_concat(c0 + c1, c2, 0, 1, 2);
    lemma_ranked_concat(a3, a4, 3, 3, 4);
    lemma_ranked_concat(a3 + a4, a5, 3, 4, 5);
    lemma_ranked_concat(a3 + a4 + a5, a6, 3, 5, 6);
    lemma_ranked_concat(s7, s8, 7, 7, 8);
    lemma_ranked_concat(s7 + s8, s9, 7, 8, 9);
    assert(contribution_badges(a, earned_at) == c0 + c1 + c2);
    assert(achievement_badges(a, earned_at) == a3 + a4 + a5 + a6);
    assert(special_badges(a, earned_at) == s7 + s8 + s9);
    lemma_ranked_concat(c0 + c1 + c2, a3 + a4 + a5 + a6, 0, 2, 6);
    lemma_ranked_concat(c0 + c1 + c2 + (a3 + a4 + a5 + a6), s7 + s8 + s9, 0, 6, 9);
}

/// The identifier of a language badge has no rank, and no two language
/// badges of a run have the same identifier.
proof fn lemma_language_ids(
    languages: Seq<(Seq<char>, u32)>,
    repositories: Seq<RepositoryView>,
    earned_at: u64,
)
    ensures
        forall|k: int|
            0 <= k < language_badges(languages, repositories, earned_at).len() ==> fixed_rank(
                (#[trigger] language_badges(languages, repositories, earned_at)[k]).id,
            ) == -1 && starts_with_l(language_badges(languages, repositories, earned_at)[k].id),
        ids_distinct(language_badges(languages, repositories, earned_at)),
    decreases languages.len(),
{
    if languages.len() > 0 {
        let rest = languages.drop_last();
        let last = languages.last();
        let before = language_badges(rest, repositories, earned_at);
        let award = language_award(last.0, last.1, repositories, earned_at);
        let badges = language_badges(languages, repositories, earned_at);
        lemma_language_ids(rest, repositories, earned_at);
        lemma_fixed_ranks();
        if award.len() > 0 && !holds_id(before, award[0].id) {
            assert(badges == before + award);
            assert(award.len() == 1);
            assert forall|k: int| 0 <= k < badges.len() implies fixed_rank(
                (#[trigger] badges[k]).id,
            ) == -1 && starts_with_l(badges[k].id) by {
                if k < before.len() {
                    assert(badges[k] == before[k]);
                } else {
                    assert(badges[k] == award[0]);
                    reveal_strlit("lang_");
                    assert(award[0].id[0] == 'l');
                }
            }
            assert forall|i: int, j: int| 0 <= i < j < badges.len() implies (
            #[trigger] badges[i]).id != (#[trigger] badges[j]).id by {
                assert(badges[i] == before[i]);
                if j < before.len() {
                    assert(badges[j] == before[j]);
                } else {
                    assert(badges[j] == award[0]);
                    assert(before[i].id != award[0].id);
                }
            }
        } else {
            assert(badges =~= before);
        }
    }
}

/// Within one run no identifier is given twice.
pub proof fn lemma_badge_ids_distinct(a: GitHubAnalysisView, earned_at: u64)
    ensures
        ids_distinct(all_badges(a, earned_at)),
{
    let own = language_badges(a.languages, a.repositories, earned_at);
    let fixed = contribution_badges(a, earned_at) + achievement_badges(a, earned_at)
        + special_badges(a, earned_at);
    let all = all_badges(a, earned_at);
    lemma_fixed_badges_ranked(a, earned_at);
    lemma_language_ids(a.languages, a.repositories, earned_at);
    assert(all =~= own + fixed);
    assert forall|i: int, j: int| 0 <= i < j < all.len() implies (#[trigger] all[i]).id != (
    #[trigger] all[j]).id by {
        if j < own.len() {
            assert(all[i] == own[i]);
            assert(all[j] == own[j]);
        } else if i < own.len() {
            assert(all[i] == own[i]);
            assert(all[j] == fixed[j - own.len()]);
            assert(fixed_rank(own[i].id) == -1);
            assert(fixed_rank(fixed[j - own.len()].id) >= 0);
        } else {
            assert(all[i] == fixed[i - own.len()]);
            assert(all[j] == fixed[j - own.len()]);
        }
    }
}

/// Every identifier of a run is one of the ten with a rank, or begins with
/// the letter `l`.
proof fn lemma_engine_id_forms(a: GitHubAnalysisView, earned_at: u64)
    ensures
        forall|k: int|
            0 <= k < all_badges(a, earned_at).len() ==> fixed_rank(
                (#[trigger] all_badges(a, earned_at)[k]).id,
            ) >= 0 || starts_with_l(all_badges(a, earned_at)[k].id),
{
    let own = language_badges(a.languages, a.repositories, earned_at);
    let fixed = contribution_badges(a, earned_at) + achievement_badges(a, earned_at)
        + special_badges(a, earned_at);
    let all = all_badges(a, earned_at);
    lemma_fixed_badges_ranked(a, earned_at);
    lemma_language_ids(a.languages, a.repositories, earned_at);
    assert(all =~= own + fixed);
    assert forall|k: int| 0 <= k < all.len() implies fixed_rank((#[trigger] all[k]).id) >= 0
        || starts_with_l(all[k].id) by {
        if k < own.len() {
            assert(all[k] == own[k]);
        } else {
            assert(all[k] == fixed[k - own.len()]);
        }
    }
}

/// Adding areas of expertise keeps identifiers apart.
proof fn lemma_with_expertise_ids(badges: Seq<BadgeView>, areas: Seq<Seq<char>>, earned_at: u64)
    requires
        ids_distinct(badges),
    ensures
        ids_distinct(with_expertise(badges, areas, earned_at)),
    decreases areas.len(),
{
    if areas.len() > 0 {
        let before = with_expertise(badges, areas.drop_last(), earned_at);
        let after = with_expertise(badges, areas, earned_at);
        let badge = expertise_badge(areas.last(), earned_at);
        lemma_with_expertise_ids(badges, areas.drop_last(), earned_at);
        if some_name_contains(before, areas.last()) || holds_id(before, badge.id) {
            assert(after == before);
        } else {
            assert(after == before.push(badge));
            assert forall|i: int, j: int| 0 <= i < j < after.len() implies (
            #[trigger] after[i]).id != (#[trigger] after[j]).id by {
                assert(after[i] == before[i]);
                if j < before.len() {
                    assert(after[j] == before[j]);
                } else {
                    assert(after[j] == badge);
                    assert(before[i].id != badge.id);
                }
            }
        }
    }
}

/// Within one run with an assessment no identifier is given twice.
pub proof fn lemma_enhanced_ids_distinct(
    a: GitHubAnalysisView,
    quality: ScoreView,
    innovation: ScoreView,
    areas: Seq<Seq<char>>,
    earned_at: u64,
)
    ensures
        ids_distinct(enhanced_badges(a, quality, innovation, areas, earned_at)),
{
    let own = all_badges(a, earned_at);
    let q = quality_award(quality, earned_at);
    let n = innovator_award(innovation, earned_at);
    let base = own + q + n;
    lemma_badge_ids_distinct(a, earned_at);
    lemma_engine_id_forms(a, earned_at);
    lemma_fixed_ranks();
    reveal_strlit("ai_quality_master");
    reveal_strlit("ai_innovator");
    reveal_strlit("open_source_contributor");
    reveal_strlit("community_builder");
    reveal_strlit("consistent_contributor");
    reveal_strlit("repository_creator");
    reveal_strlit("commit_master");
    reveal_strlit("star_collector");
    reveal_strlit("coding_streak");
    reveal_strlit("early_adopter");
    reveal_strlit("polyglot");
    reveal_strlit("innovator");
    assert("ai_quality_master"@[0] == 'a');
    assert("ai_innovator"@[0] == 'a');
    assert("ai_quality_master"@.len() == 17);
    assert("ai_innovator"@.len() == 12);
    assert("open_source_contributor"@[0] == 'o');
    assert("community_builder"@[0] == 'c');
    assert("consistent_contributor"@[0] == 'c');
    assert("repository_creator"@[0] == 'r');
    assert("commit_master"@[0] == 'c');
    assert("star_collector"@[0] == 's');
    assert("coding_streak"@[0] == 'c');
    assert("early_adopter"@[0] == 'e');
    assert("polyglot"@[0] == 'p');
    assert("innovator"@[0] == 'i');
    assert(fixed_rank("ai_quality_master"@) == -1);
    assert(fixed_rank("ai_innovator"@) == -1);
    assert forall|i: int, j: int| 0 <= i < j < base.len() implies (#[trigger] base[i]).id != (
    #[trigger] base[j]).id by {
        if j < own.len() {
            assert(base[i] == own[i]);
            assert(base[j] == own[j]);
        } else if i < own.len() {
            assert(base[i] == own[i]);
            assert(fixed_rank(own[i].id) >= 0 || starts_with_l(own[i].id));
            if j < own.len() + q.len() {
                assert(base[j] == q[j - own.len()]);
            } else {
                assert(base[j] == n[j - own.len() - q.len()]);
            }
        } else {
            assert(base[i] == q[i - own.len()]);
            assert(base[j] == n[j - own.len() - q.len()]);
        }
    }
    lemma_with_expertise_ids(base, areas, earned_at);
}

} // verus!
