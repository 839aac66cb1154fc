//! Tier classifiers: fixed tables that map a metric onto a tier.
//!
//! Each table is a row of nine lower bounds. A metric below the first bound
//! earns nothing; the last band has no upper end.

use crate::models::{views, BadgeTier, Repository, RepositoryView};
use crate::text::{decimal_string, decimal_text, join3, join4};
use vstd::prelude::*;
use vstd::string::*;

verus! {

/// The justification of an achievement: the tier's words, the metric in
/// decimal and the unit counted.
pub open spec fn achievement_criterion(phrase: Seq<char>, n: nat, unit: Seq<char>) -> Seq<char> {
    phrase + " - "@ + decimal_text(n) + unit
}

fn achievement_criteria(phrase: &str, n: u32, unit: &str) -> (criteria: Vec<String>)
    ensures
        views(criteria@) == seq![achievement_criterion(phrase@, n as nat, unit@)],
{
    let number = decimal_string(n as u64);
    let mut line = String::from_str(phrase);
    line.append(" - ");
    line.append(number.as_str());
    line.append(unit);
    let mut criteria: Vec<String> = Vec::new();
    criteria.push(line);
    assert(views(criteria@) =~= seq![achievement_criterion(phrase@, n as nat, unit@)]);
    criteria
}

/// The tier that a number of repositories earns. The bands from Bronze I to
/// Gold III begin at 5, 10, 26, 51, 101, 201, 301, 501 and 1001; below 5
/// nothing is earned.
pub open spec fn repository_tier(n: nat) -> Option<BadgeTier> {
    if n < 5 {
        None
    } else if n < 10 {
        Some(BadgeTier::Bronze1)
    } else if n < 26 {
        Some(BadgeTier::Bronze2)
    } else if n < 51 {
        Some(BadgeTier::Bronze3)
    } else if n < 101 {
        Some(BadgeTier::Silver1)
    } else if n < 201 {
        Some(BadgeTier::Silver2)
    } else if n < 301 {
        Some(BadgeTier::Silver3)
    } else if n < 501 {
        Some(BadgeTier::Gold1)
    } else if n < 1001 {
        Some(BadgeTier::Gold2)
    } else {
        Some(BadgeTier::Gold3)
    }
}

/// The words that go with a tier earned by a number of repositories.
pub open spec fn repository_phrase(tier: BadgeTier) -> Seq<char> {
    match tier {
        BadgeTier::Bronze1 => "Created first repositories"@,
        BadgeTier::Bronze2 => "Regular repository creator"@,
        BadgeTier::Bronze3 => "Prolific project starter"@,
        BadgeTier::Silver1 => "Dedicated builder"@,
        BadgeTier::Silver2 => "Project factory"@,
        BadgeTier::Silver3 => "Repository master"@,
        BadgeTier::Gold1 => "Elite creator"@,
        BadgeTier::Gold2 => "Legendary builder"@,
        BadgeTier::Gold3 => "Repository titan"@,
    }
}

/// The justification recorded with a tier earned by a number of repositories.
pub open spec fn repository_criterion(tier: BadgeTier, n: nat) -> Seq<char> {
    achievement_criterion(repository_phrase(tier), n, " repositories created"@)
}

fn repository_band(n: u32) -> (r: Option<(BadgeTier, &'static str)>)
    ensures
        r is Some <==> repository_tier(n as nat) is Some,
        r matches Some((tier, phrase)) ==> Some(tier) == repository_tier(n as nat) && phrase@
            == repository_phrase(tier),
{
    if n < 5 {
        None
    } else if n < 10 {
        Some((BadgeTier::Bronze1, "Created first repositories"))
    } else if n < 26 {
        Some((BadgeTier::Bronze2, "Regular repository creator"))
    } else if n < 51 {
        Some((BadgeTier::Bronze3, "Prolific project starter"))
    } else if n < 101 {
        Some((BadgeTier::Silver1, "Dedicated builder"))
    } else if n < 201 {
        Some((BadgeTier::Silver2, "Project factory"))
    } else if n < 301 {
        Some((BadgeTier::Silver3, "Repository master"))
    } else if n < 501 {
        Some((BadgeTier::Gold1, "Elite creator"))
    } else if n < 1001 {
        Some((BadgeTier::Gold2, "Legendary builder"))
    } else {
        Some((BadgeTier::Gold3, "Repository titan"))
    }
}

/// Classifies a number of repositories: nothing below the first band, else
/// the tier, its one-line justification and the metric itself as the score.
pub fn determine_repository_achievement(repo_count: u32) -> (r: Option<
    (BadgeTier, Vec<String>, u32),
>)
    ensures
        r is Some <==> repository_tier(repo_count as nat) is Some,
        r matches Some((tier, criteria, score)) ==> {
            &&& Some(tier) == repository_tier(repo_count as nat)
            &&& views(criteria@) == seq![repository_criterion(tier, repo_count as nat)]
            &&& score == repo_count
        },
{
    match repository_band(repo_count) {
        Some((tier, phrase)) => {
            let criteria = achievement_criteria(phrase, repo_count, " repositories created");
            Some((tier, criteria, repo_count))
        },
        None => None,
    }
}

/// A larger metric never earns a lower tier: if `a` earns a tier and
/// `a <= b`, then `b` earns a tier of at least that rank, worth at least as
/// many points.
pub proof fn lemma_repository_tier_monotonic(a: nat, b: nat)
    requires
        a <= b,
        repository_tier(a) is Some,
    ensures
        repository_tier(b) is Some,
        repository_tier(a)->0.rank() <= repository_tier(b)->0.rank(),
        repository_tier(a)->0.points() <= repository_tier(b)->0.points(),
{
}

/// The tier that a number of commits earns. The bands from Bronze I to Gold
/// III begin at 100, 500, 1001, 2501, 5001, 10001, 25001, 50001 and 100001;
/// below 100 nothing is earned.
pub open spec fn commit_tier(n: nat) -> Option<BadgeTier> {
    if n < 100 {
        None
    } else if n < 500 {
        Some(BadgeTier::Bronze1)
    } else if n < 1001 {
        Some(BadgeTier::Bronze2)
    } else if n < 2501 {
        Some(BadgeTier::Bronze3)
    } else if n < 5001 {
        Some(BadgeTier::Silver1)
    } else if n < 10001 {
        Some(BadgeTier::Silver2)
    } else if n < 25001 {
        Some(BadgeTier::Silver3)
    } else if n < 50001 {
        Some(BadgeTier::Gold1)
    } else if n < 100001 {
        Some(BadgeTier::Gold2)
    } else {
        Some(BadgeTier::Gold3)
    }
}

/// The words that go with a tier earned by a number of commits.
pub open spec fn commit_phrase(tier: BadgeTier) -> Seq<char> {
    match tier {
        BadgeTier::Bronze1 => "Getting into the rhythm"@,
        BadgeTier::Bronze2 => "Regular committer"@,
        BadgeTier::Bronze3 => "Consistent contributor"@,
        BadgeTier::Silver1 => "Dedicated coder"@,
        BadgeTier::Silver2 => "Prolific committer"@,
        BadgeTier::Silver3 => "Commit machine"@,
        BadgeTier::Gold1 => "Elite contributor"@,
        BadgeTier::Gold2 => "Legendary committer"@,
        BadgeTier::Gold3 => "Commit titan"@,
    }
}

/// The justification recorded with a tier earned by a number of commits.
pub open spec fn commit_criterion(tier: BadgeTier, n: nat) -> Seq<char> {
    achievement_criterion(commit_phrase(tier), n, " commits made"@)
}

fn commit_band(n: u32) -> (r: Option<(BadgeTier, &'static str)>)
    ensures
        r is Some <==> commit_tier(n as nat) is Some,
        r matches Some((tier, phrase)) ==> Some(tier) == commit_tier(n as nat) && phrase@
            == commit_phrase(tier),
{
    if n < 100 {
        None
    } else if n < 500 {
        Some((BadgeTier::Bronze1, "Getting into the rhythm"))
    } else if n < 1001 {
        Some((BadgeTier::Bronze2, "Regular committer"))
    } else if n < 2501 {
        Some((BadgeTier::Bronze3, "Consistent contributor"))
    } else if n < 5001 {
        Some((BadgeTier::Silver1, "Dedicated coder"))
    } else if n < 10001 {
        Some((BadgeTier::Silver2, "Prolific committer"))
    } else if n < 25001 {
        Some((BadgeTier::Silver3, "Commit machine"))
    } else if n < 50001 {
        Some((BadgeTier::Gold1, "Elite contributor"))
    } else if n < 100001 {
        Some((BadgeTier::Gold2, "Legendary committer"))
    } else {
        Some((BadgeTier::Gold3, "Commit titan"))
    }
}

/// Classifies a number of commits: nothing below the first band, else the
/// tier, its one-line justification and the metric itself as the score.
pub fn determine_commit_achievement(commit_count: u32) -> (r: Option<
    (BadgeTier, Vec<String>, u32),
>)
    ensures
        r is Some <==> commit_tier(commit_count as nat) is Some,
        r matches Some((tier, criteria, score)) ==> {
            &&& Some(tier) == commit_tier(commit_count as nat)
            &&& views(criteria@) == seq![commit_criterion(tier, commit_count as nat)]
            &&& score == commit_count
        },
{
    match commit_band(commit_count) {
        Some((tier, phrase)) => {
            let criteria = achievement_criteria(phrase, commit_count, " commits made");
            Some((tier, criteria, commit_count))
        },
        None => None,
    }
}

/// A larger metric never earns a lower tier: if `a` earns a tier and
/// `a <= b`, then `b` earns a tier of at least that rank, worth at least as
/// many points.
pub proof fn lemma_commit_tier_monotonic(a: nat, b: nat)
    requires
        a <= b,
        commit_tier(a) is Some,
    ensures
        commit_tier(b) is Some,
        commit_tier(a)->0.rank() <= commit_tier(b)->0.rank(),
        commit_tier(a)->0.points() <= commit_tier(b)->0.points(),
{
}

/// The tier that a number of stars received earns. The bands from Bronze I to
/// Gold III begin at 10, 50, 151, 301, 751, 1501, 3001, 7501 and 15001; below
/// 10 nothing is earned.
pub open spec fn star_tier(n: nat) -> Option<BadgeTier> {
    if n < 10 {
        None
    } else if n < 50 {
        Some(BadgeTier::Bronze1)
    } else if n < 151 {
        Some(BadgeTier::Bronze2)
    } else if n < 301 {
        Some(BadgeTier::Bronze3)
    } else if n < 751 {
        Some(BadgeTier::Silver1)
    } else if n < 1501 {
        Some(BadgeTier::Silver2)
    } else if n < 3001 {
        Some(BadgeTier::Silver3)
    } else if n < 7501 {
        Some(BadgeTier::Gold1)
    } else if n < 15001 {
        Some(BadgeTier::Gold2)
    } else {
        Some(BadgeTier::Gold3)
    }
}

/// The words that go with a tier earned by a number of stars received.
pub open spec fn star_phrase(tier: BadgeTier) -> Seq<char> {
    match tier {
        BadgeTier::Bronze1 => "Gaining recognition"@,
        BadgeTier::Bronze2 => "Community appreciated"@,
        BadgeTier::Bronze3 => "Popular creator"@,
        BadgeTier::Silver1 => "Widely recognized"@,
        BadgeTier::Silver2 => "Highly regarded"@,
        BadgeTier::Silver3 => "Community favorite"@,
        BadgeTier::Gold1 => "Influential creator"@,
        BadgeTier::Gold2 => "Legendary developer"@,
        BadgeTier::Gold3 => "Star magnet"@,
    }
}

/// The justification recorded with a tier earned by a number of stars received.
pub open spec fn star_criterion(tier: BadgeTier, n: nat) -> Seq<char> {
    achievement_criterion(star_phrase(tier), n, " stars received"@)
}

fn star_band(n: u32) -> (r: Option<(BadgeTier, &'static str)>)
    ensures
        r is Some <==> star_tier(n as nat) is Some,
        r matches Some((tier, phrase)) ==> Some(tier) == star_tier(n as nat) && phrase@
            == star_phrase(tier),
{
    if n < 10 {
        None
    } else if n < 50 {
        Some((BadgeTier::Bronze1, "Gaining recognition"))
    } else if n < 151 {
        Some((BadgeTier::Bronze2, "Community appreciated"))
    } else if n < 301 {
        Some((BadgeTier::Bronze3, "Popular creator"))
    } else if n < 751 {
        Some((BadgeTier::Silver1, "Widely recognized"))
    } else if n < 1501 {
        Some((BadgeTier::Silver2, "Highly regarded"))
    } else if n < 3001 {
        Some((BadgeTier::Silver3, "Community favorite"))
    } else if n < 7501 {
        Some((BadgeTier::Gold1, "Influential creator"))
    } else if n < 15001 {
        Some((BadgeTier::Gold2, "Legendary developer"))
    } else {
        Some((BadgeTier::Gold3, "Star magnet"))
    }
}

/// Classifies a number of stars received: nothing below the first band, else
/// the tier, its one-line justification and the metric itself as the score.
pub fn determine_star_achievement(star_count: u32) -> (r: Option<
    (BadgeTier, Vec<String>, u32),
>)
    ensures
        r is Some <==> star_tier(star_count as nat) is Some,
        r matches Some((tier, criteria, score)) ==> {
            &&& Some(tier) == star_tier(star_count as nat)
            &&& views(criteria@) == seq![star_criterion(tier, star_count as nat)]
            &&& score == star_count
        },
{
    match star_band(star_count) {
        Some((tier, phrase)) => {
            let criteria = achievement_criteria(phrase, star_count, " stars received");
            Some((tier, criteria, star_count))
        },
        None => None,
    }
}

/// A larger metric never earns a lower tier: if `a` earns a tier and
/// `a <= b`, then `b` earns a tier of at least that rank, worth at least as
/// many points.
pub proof fn lemma_star_tier_monotonic(a: nat, b: nat)
    requires
        a <= b,
        star_tier(a) is Some,
    ensures
        star_tier(b) is Some,
        star_tier(a)->0.rank() <= star_tier(b)->0.rank(),
        star_tier(a)->0.points() <= star_tier(b)->0.points(),
{
}

/// The tier that a number of contributions in the current year earns. The
/// bands from Bronze I to Gold III begin at 50, 100, 201, 366, 501, 751,
/// 1001, 1501 and 2001; below 50 nothing is earned.
pub open spec fn streak_tier(n: nat) -> Option<BadgeTier> {
    if n < 50 {
        None
    } else if n < 100 {
        Some(BadgeTier::Bronze1)
    } else if n < 201 {
        Some(BadgeTier::Bronze2)
    } else if n < 366 {
        Some(BadgeTier::Bronze3)
    } else if n < 501 {
        Some(BadgeTier::Silver1)
    } else if n < 751 {
        Some(BadgeTier::Silver2)
    } else if n < 1001 {
        Some(BadgeTier::Silver3)
    } else if n < 1501 {
        Some(BadgeTier::Gold1)
    } else if n < 2001 {
        Some(BadgeTier::Gold2)
    } else {
        Some(BadgeTier::Gold3)
    }
}

/// The words that go with a tier earned by a number of contributions in the current year.
pub open spec fn streak_phrase(tier: BadgeTier) -> Seq<char> {
    match tier {
        BadgeTier::Bronze1 => "Building momentum"@,
        BadgeTier::Bronze2 => "Steady progress"@,
        BadgeTier::Bronze3 => "Daily contributor"@,
        BadgeTier::Silver1 => "Dedicated maintainer"@,
        BadgeTier::Silver2 => "Consistent champion"@,
        BadgeTier::Silver3 => "Unstoppable force"@,
        BadgeTier::Gold1 => "Elite contributor"@,
        BadgeTier::Gold2 => "Legendary consistency"@,
        BadgeTier::Gold3 => "Ultimate dedication"@,
    }
}

/// The justification recorded with a tier earned by a number of contributions in the current year.
pub open spec fn streak_criterion(tier: BadgeTier, n: nat) -> Seq<char> {
    achievement_criterion(streak_phrase(tier), n, " contributions this year"@)
}

fn streak_band(n: u32) -> (r: Option<(BadgeTier, &'static str)>)
    ensures
        r is Some <==> streak_tier(n as nat) is Some,
        r matches Some((tier, phrase)) ==> Some(tier) == streak_tier(n as nat) && phrase@
            == streak_phrase(tier),
{
    if n < 50 {
        None
    } else if n < 100 {
        Some((BadgeTier::Bronze1, "Building momentum"))
    } else if n < 201 {
        Some((BadgeTier::Bronze2, "Steady progress"))
    } else if n < 366 {
        Some((BadgeTier::Bronze3, "Daily contributor"))
    } else if n < 501 {
        Some((BadgeTier::Silver1, "Dedicated maintainer"))
    } else if n < 751 {
        Some((BadgeTier::Silver2, "Consistent champion"))
    } else if n < 1001 {
        Some((BadgeTier::Silver3, "Unstoppable force"))
    } else if n < 1501 {
        Some((BadgeTier::Gold1, "Elite contributor"))
    } else if n < 2001 {
        Some((BadgeTier::Gold2, "Legendary consistency"))
    } else {
        Some((BadgeTier::Gold3, "Ultimate dedication"))
    }
}

/// Classifies a number of contributions in the current year: nothing below
/// the first band, else the tier, its one-line justification and the metric
/// itself as the score.
pub fn determine_streak_achievement(contributions: u32) -> (r: Option<
    (BadgeTier, Vec<String>, u32),
>)
    ensures
        r is Some <==> streak_tier(contributions as nat) is Some,
        r matches Some((tier, criteria, score)) ==> {
            &&& Some(tier) == streak_tier(contributions as nat)
            &&& views(criteria@) == seq![streak_criterion(tier, contributions as nat)]
            &&& score == contributions
        },
{
    match streak_band(contributions) {
        Some((tier, phrase)) => {
            let criteria = achievement_criteria(phrase, contributions, " contributions this year");
            Some((tier, criteria, contributions))
        },
        None => None,
    }
}

/// A larger metric never earns a lower tier: if `a` earns a tier and
/// `a <= b`, then `b` earns a tier of at least that rank, worth at least as
/// many points.
pub proof fn lemma_streak_tier_monotonic(a: nat, b: nat)
    requires
        a <= b,
        streak_tier(a) is Some,
    ensures
        streak_tier(b) is Some,
        streak_tier(a)->0.rank() <= streak_tier(b)->0.rank(),
        streak_tier(a)->0.points() <= streak_tier(b)->0.points(),
{
}

/// The tier that a contribution score earns. The bands from Bronze I to Gold
/// III begin at 10, 26, 51, 76, 101, 151, 201, 301 and 501; below 10 nothing
/// is earned.
pub open spec fn contribution_tier(n: nat) -> Option<BadgeTier> {
    if n < 10 {
        None
    } else if n < 26 {
        Some(BadgeTier::Bronze1)
    } else if n < 51 {
        Some(BadgeTier::Bronze2)
    } else if n < 76 {
        Some(BadgeTier::Bronze3)
    } else if n < 101 {
        Some(BadgeTier::Silver1)
    } else if n < 151 {
        Some(BadgeTier::Silver2)
    } else if n < 201 {
        Some(BadgeTier::Silver3)
    } else if n < 301 {
        Some(BadgeTier::Gold1)
    } else if n < 501 {
        Some(BadgeTier::Gold2)
    } else {
        Some(BadgeTier::Gold3)
    }
}

/// The words that go with a tier earned by a contribution score.
pub open spec fn contribution_phrase(tier: BadgeTier) -> Seq<char> {
    match tier {
        BadgeTier::Bronze1 => "Getting started"@,
        BadgeTier::Bronze2 => "Regular contributor"@,
        BadgeTier::Bronze3 => "Active participant"@,
        BadgeTier::Silver1 => "Dedicated contributor"@,
        BadgeTier::Silver2 => "Community leader"@,
        BadgeTier::Silver3 => "Influential member"@,
        BadgeTier::Gold1 => "Community champion"@,
        BadgeTier::Gold2 => "Elite contributor"@,
        BadgeTier::Gold3 => "Legendary figure"@,
    }
}

/// The justification recorded with a tier earned by a contribution score in
/// the named category.
pub open spec fn contribution_criterion(tier: BadgeTier, score: nat, category: Seq<char>) -> Seq<
    char,
> {
    contribution_phrase(tier) + " in "@ + category + " category with score "@ + decimal_text(score)
}

fn contribution_band(n: u32) -> (r: Option<(BadgeTier, &'static str)>)
    ensures
        r is Some <==> contribution_tier(n as nat) is Some,
        r matches Some((tier, phrase)) ==> Some(tier) == contribution_tier(n as nat) && phrase@
            == contribution_phrase(tier),
{
    if n < 10 {
        None
    } else if n < 26 {
        Some((BadgeTier::Bronze1, "Getting started"))
    } else if n < 51 {
        Some((BadgeTier::Bronze2, "Regular contributor"))
    } else if n < 76 {
        Some((BadgeTier::Bronze3, "Active participant"))
    } else if n < 101 {
        Some((BadgeTier::Silver1, "Dedicated contributor"))
    } else if n < 151 {
        Some((BadgeTier::Silver2, "Community leader"))
    } else if n < 201 {
        Some((BadgeTier::Silver3, "Influential member"))
    } else if n < 301 {
        Some((BadgeTier::Gold1, "Community champion"))
    } else if n < 501 {
        Some((BadgeTier::Gold2, "Elite contributor"))
    } else {
        Some((BadgeTier::Gold3, "Legendary figure"))
    }
}

/// Classifies a contribution score of the named category: nothing below the
/// first band, else the tier and its one-line justification.
pub fn determine_contribution_tier(score: u32, category: &str) -> (r: Option<
    (BadgeTier, Vec<String>),
>)
    ensures
        r is Some <==> contribution_tier(score as nat) is Some,
        r matches Some((tier, criteria)) ==> {
            &&& Some(tier) == contribution_tier(score as nat)
            &&& views(criteria@) == seq![contribution_criterion(tier, score as nat, category@)]
        },
{
    match contribution_band(score) {
        Some((tier, phrase)) => {
            let number = decimal_string(score as u64);
            let mut line = String::from_str(phrase);
            line.append(" in ");
            line.append(category);
            line.append(" category with score ");
            line.append(number.as_str());
            let mut criteria: Vec<String> = Vec::new();
            criteria.push(line);
            assert(views(criteria@) =~= seq![
                contribution_criterion(tier, score as nat, category@),
            ]);
            Some((tier, criteria))
        },
        None => None,
    }
}

/// A larger metric never earns a lower tier: if `a` earns a tier and
/// `a <= b`, then `b` earns a tier of at least that rank, worth at least as
/// many points.
pub proof fn lemma_contribution_tier_monotonic(a: nat, b: nat)
    requires
        a <= b,
        contribution_tier(a) is Some,
    ensures
        contribution_tier(b) is Some,
        contribution_tier(a)->0.rank() <= contribution_tier(b)->0.rank(),
        contribution_tier(a)->0.points() <= contribution_tier(b)->0.points(),
{
}

/// How many of the repositories are written in the language.
pub open spec fn repos_using(repos: Seq<RepositoryView>, language: Seq<char>) -> nat
    decreases repos.len(),
{
    if repos.len() == 0 {
        0
    } else {
        repos_using(repos.drop_last(), language) + if repos.last().language == Some(language) {
            1nat
        } else {
            0nat
        }
    }
}

/// The tier that a language earns. Both the lines of code written in it and
/// the number of repositories that use it must lie in the same band; where
/// they do not, the language earns nothing.
pub open spec fn language_tier(lines_of_code: nat, repos: nat) -> Option<BadgeTier> {
    if 1000 <= lines_of_code && lines_of_code <= 5000 && 1 <= repos && repos <= 2 {
        Some(BadgeTier::Bronze1)
    } else if 5001 <= lines_of_code && lines_of_code <= 15000 && 2 <= repos && repos <= 5 {
        Some(BadgeTier::Bronze2)
    } else if 15001 <= lines_of_code && lines_of_code <= 50000 && 3 <= repos && repos <= 8 {
        Some(BadgeTier::Bronze3)
    } else if 50001 <= lines_of_code && lines_of_code <= 100000 && 5 <= repos && repos <= 15 {
        Some(BadgeTier::Silver1)
    } else if 100001 <= lines_of_code && lines_of_code <= 250000 && 8 <= repos && repos <= 20 {
        Some(BadgeTier::Silver2)
    } else if 250001 <= lines_of_code && lines_of_code <= 500000 && 15 <= repos && repos <= 30 {
        Some(BadgeTier::Silver3)
    } else if 500001 <= lines_of_code && lines_of_code <= 1000000 && 20 <= repos && repos <= 50 {
        Some(BadgeTier::Gold1)
    } else if 1000001 <= lines_of_code && lines_of_code <= 2000000 && 30 <= repos {
        Some(BadgeTier::Gold2)
    } else if 2000001 <= lines_of_code && 50 <= repos {
        Some(BadgeTier::Gold3)
    } else {
        None
    }
}

/// The justification recorded with a tier earned by a language.
pub open spec fn language_criterion(
    tier: BadgeTier,
    lines_of_code: nat,
    repos: nat,
    language: Seq<char>,
) -> Seq<char> {
    match tier {
        BadgeTier::Bronze1 => "Written "@ + decimal_text(lines_of_code) + "+ lines in "@
            + language,
        BadgeTier::Bronze2 => "Written "@ + decimal_text(lines_of_code) + "+ lines across "@
            + decimal_text(repos) + " projects"@,
        BadgeTier::Bronze3 => "Extensive "@ + language + " experience across "@ + decimal_text(
            repos,
        ) + " repositories"@,
        BadgeTier::Silver1 => "Professional-level "@ + language + " development"@,
        BadgeTier::Silver2 => "Advanced "@ + language + " expertise"@,
        BadgeTier::Silver3 => "Expert-level "@ + language + " mastery"@,
        BadgeTier::Gold1 => "Elite "@ + language + " developer"@,
        BadgeTier::Gold2 => "Legendary "@ + language + " expertise"@,
        BadgeTier::Gold3 => "Master "@ + language + " architect"@,
    }
}

/// The score recorded for a language: its lines of code in hundreds.
pub open spec fn language_score(lines_of_code: nat) -> nat {
    lines_of_code / 100
}

fn count_repos_using(repositories: &[Repository], language: &str) -> (count: usize)
    ensures
        count == repos_using(views(repositories@), language@),
{
    let wanted = String::from_str(language);
    let mut count: usize = 0;
    let mut i: usize = 0;
    while i < repositories.len()
        invariant
            i <= repositories.len(),
            wanted@ == language@,
            count <= i,
            count == repos_using(views(repositories@).take(i as int), language@),
        decreases repositories.len() - i,
    {
        let uses = match &repositories[i].language {
            Some(l) => *l == wanted,
            None => false,
        };
        proof {
            let all = views(repositories@);
            assert(all.take(i + 1).drop_last() =~= all.take(i as int));
            assert(all.take(i + 1).last() == repositories@[i as int]@);
        }
        if uses {
            count = count + 1;
        }
        i = i + 1;
    }
    assert(views(repositories@).take(i as int) =~= views(repositories@));
    count
}

fn language_band(lines_of_code: u32, repos: usize) -> (tier: Option<BadgeTier>)
    ensures
        tier == language_tier(lines_of_code as nat, repos as nat),
{
    if 1000 <= lines_of_code && lines_of_code <= 5000 && 1 <= repos && repos <= 2 {
        Some(BadgeTier::Bronze1)
    } else if 5001 <= lines_of_code && lines_of_code <= 15000 && 2 <= repos && repos <= 5 {
        Some(BadgeTier::Bronze2)
    } else if 15001 <= lines_of_code && lines_of_code <= 50000 && 3 <= repos && repos <= 8 {
        Some(BadgeTier::Bronze3)
    } else if 50001 <= lines_of_code && lines_of_code <= 100000 && 5 <= repos && repos <= 15 {
        Some(BadgeTier::Silver1)
    } else if 100001 <= lines_of_code && lines_of_code <= 250000 && 8 <= repos && repos <= 20 {
        Some(BadgeTier::Silver2)
    } else if 250001 <= lines_of_code && lines_of_code <= 500000 && 15 <= repos && repos <= 30 {
        Some(BadgeTier::Silver3)
    } else if 500001 <= lines_of_code && lines_of_code <= 1000000 && 20 <= repos && repos <= 50 {
        Some(BadgeTier::Gold1)
    } else if 1000001 <= lines_of_code && lines_of_code <= 2000000 && 30 <= repos {
        Some(BadgeTier::Gold2)
    } else if 2000001 <= lines_of_code && 50 <= repos {
        Some(BadgeTier::Gold3)
    } else {
        None
    }
}

fn language_criterion_line(tier: BadgeTier, lines_of_code: u32, repos: usize, language: &str) -> (line:
    String)
    ensures
        line@ == language_criterion(tier, lines_of_code as nat, repos as nat, language@),
{
    let lines = decimal_string(lines_of_code as u64);
    let projects = decimal_string(repos as u64);
    match tier {
        BadgeTier::Bronze1 => join4("Written ", lines.as_str(), "+ lines in ", language),
        BadgeTier::Bronze2 => {
            let mut line = join4("Written ", lines.as_str(), "+ lines across ", projects.as_str());
            line.append(" projects");
            line
        },
        BadgeTier::Bronze3 => {
            let mut line = join4("Extensive ", language, " experience across ", projects.as_str());
            line.append(" repositories");
            line
        },
        BadgeTier::Silver1 => join3("Professional-level ", language, " development"),
        BadgeTier::Silver2 => join3("Advanced ", language, " expertise"),
        BadgeTier::Silver3 => join3("Expert-level ", language, " mastery"),
        BadgeTier::Gold1 => join3("Elite ", language, " developer"),
        BadgeTier::Gold2 => join3("Legendary ", language, " expertise"),
        BadgeTier::Gold3 => join3("Master ", language, " architect"),
    }
}

/// Classifies a language by the lines of code written in it and by the number
/// of the given repositories that use it. Returns the tier, if one is earned,
/// its one-line justification (none without a tier), and the score, which is
/// the lines of code in hundreds whether or not a tier is earned.
pub fn determine_language_tier(lines_of_code: u32, repositories: &[Repository], language: &str) -> (r: (
    Option<BadgeTier>,
    Vec<String>,
    u32,
))
    ensures
        r.0 == language_tier(
            lines_of_code as nat,
            repos_using(views(repositories@), language@),
        ),
        r.0 matches Some(tier) ==> views(r.1@) == seq![
            language_criterion(
                tier,
                lines_of_code as nat,
                repos_using(views(repositories@), language@),
                language@,
            ),
        ],
        r.0 is None ==> r.1@.len() == 0,
        r.2 == language_score(lines_of_code as nat),
{
    let repos = count_repos_using(repositories, language);
    let score: u32 = lines_of_code / 100;
    let tier = language_band(lines_of_code, repos);
    let mut criteria: Vec<String> = Vec::new();
    match tier {
        Some(t) => {
            let line = language_criterion_line(t, lines_of_code, repos, language);
            criteria.push(line);
            assert(views(criteria@) =~= seq![
                language_criterion(t, lines_of_code as nat, repos as nat, language@),
            ]);
        },
        None => {},
    }
    (tier, criteria, score)
}

/// Among languages that earn a tier, more lines of code never earn a lower
/// one, whatever the repository counts are.
pub proof fn lemma_language_tier_monotonic(lines_a: nat, repos_a: nat, lines_b: nat, repos_b: nat)
    requires
        lines_a <= lines_b,
        language_tier(lines_a, repos_a) is Some,
        language_tier(lines_b, repos_b) is Some,
    ensures
        language_tier(lines_a, repos_a)->0.rank() <= language_tier(lines_b, repos_b)->0.rank(),
        language_tier(lines_a, repos_a)->0.points() <= language_tier(lines_b, repos_b)->0.points(),
{
}

} // verus!
