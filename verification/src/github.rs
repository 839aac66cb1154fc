//! Metrics derived from the repositories of an account.
//!
//! Dates are read by their year alone. Sums that could leave 32 bits are
//! kept to 32 bits.

use crate::models::{
    usage_views, views, GitHubAnalysis, GitHubAnalysisView, Repository, RepositoryView,
};
use crate::text::{parse_unsigned, unsigned_value};
use vstd::prelude::*;
use vstd::string::*;
use vstd::utf8::encode_utf8;

verus! {

/// The length of a year of 365 days, in nanoseconds.
pub const NANOS_PER_YEAR: u64 = 31_536_000_000_000_000;

/// The length of a day, in nanoseconds.
pub const NANOS_PER_DAY: u64 = 86_400_000_000_000;

/// The first year that counts as the current one.
pub const CURRENT_YEAR: u32 = 2024;

/// The year that a date starts with: its first four bytes, read as an
/// unsigned decimal number. A date of fewer than four bytes has none.
pub open spec fn year_of(date: Seq<u8>) -> Option<nat> {
    if date.len() >= 4 {
        unsigned_value(date.subrange(0, 4), u32::MAX as nat)
    } else {
        None
    }
}

/// The year that a date text starts with.
pub open spec fn date_year(date: Seq<char>) -> Option<nat> {
    year_of(encode_utf8(date))
}

/// The start of a year in nanoseconds since 1970, counting 365 days for each
/// year and nothing for a year before 1970, kept to 64 bits.
pub open spec fn year_nanos(year: nat) -> u64 {
    if year > 1970 {
        (((year - 1970) * NANOS_PER_YEAR) % 0x1_0000_0000_0000_0000) as u64
    } else {
        0
    }
}

/// The approximate time of a date text, if it starts with a year.
pub open spec fn date_nanos(date: Seq<char>) -> Option<u64> {
    match date_year(date) {
        Some(year) => Some(year_nanos(year)),
        None => None,
    }
}

/// Whether a date text starts with a year that counts as the current one.
pub open spec fn in_current_year(date: Seq<char>) -> bool {
    date_year(date) matches Some(year) && year >= CURRENT_YEAR
}

fn leading_year(date_str: &str) -> (year: Option<u32>)
    ensures
        year is Some <==> date_year(date_str@) is Some,
        year matches Some(y) ==> date_year(date_str@) == Some(y as nat),
{
    let bytes = date_str.as_bytes();
    if bytes.len() >= 4 {
        match parse_unsigned(bytes, 0, 4, 0xffff_ffff) {
            Some(y) => Some(y as u32),
            None => None,
        }
    } else {
        None
    }
}

/// Reads the year at the start of a date and returns the start of that year
/// in nanoseconds since 1970, or nothing where the date starts with no year.
pub fn parse_github_date(date_str: &str) -> (r: Option<u64>)
    ensures
        r == date_nanos(date_str@),
{
    match leading_year(date_str) {
        Some(year) => {
            let years: u32 = if year > 1970 {
                year - 1970
            } else {
                0
            };
            let nanos: u128 = (years as u128) * (NANOS_PER_YEAR as u128);
            Some((nanos % 0x1_0000_0000_0000_0000) as u64)
        },
        None => None,
    }
}

/// Whether a date starts with a year that counts as the current one.
pub fn is_from_current_year(date_str: &str) -> (r: bool)
    ensures
        r == in_current_year(date_str@),
{
    match leading_year(date_str) {
        Some(year) => year >= CURRENT_YEAR,
        None => false,
    }
}

/// The commits that one repository is taken to hold: none for a fork, else
/// ten for a repository that is not empty and one more for each hundred of
/// its size, up to fifty.
pub open spec fn commit_estimate(r: RepositoryView) -> nat {
    if r.is_fork {
        0
    } else {
        let by_size: nat = if r.size / 100 < 50 {
            (r.size / 100) as nat
        } else {
            50
        };
        let base: nat = if r.size > 0 {
            10
        } else {
            0
        };
        base + by_size
    }
}

/// The commits that the repositories are taken to hold together.
pub open spec fn commit_estimates(repos: Seq<RepositoryView>) -> nat
    decreases repos.len(),
{
    if repos.len() == 0 {
        0
    } else {
        commit_estimates(repos.drop_last()) + commit_estimate(repos.last())
    }
}

/// Estimates the number of commits in the repositories.
pub fn estimate_commit_count(repositories: &[Repository]) -> (count: u32)
    ensures
        count == commit_estimates(views(repositories@)) % 0x1_0000_0000,
{
    let mut total: u128 = 0;
    let mut i: usize = 0;
    while i < repositories.len()
        invariant
            i <= repositories.len(),
            total == commit_estimates(views(repositories@).take(i as int)),
            total <= i * 60,
        decreases repositories.len() - i,
    {
        proof {
            let all = views(repositories@);
            assert(all.take(i + 1).drop_last() =~= all.take(i as int));
            assert(all.take(i + 1).last() == repositories@[i as int]@);
        }
        let r = &repositories[i];
        if !r.is_fork {
            let by_size: u32 = if r.size / 100 < 50 {
                r.size / 100
            } else {
                50
            };
            let base: u32 = if r.size > 0 {
                10
            } else {
                0
            };
            total = total + (base + by_size) as u128;
        }
        i = i + 1;
    }
    assert(views(repositories@).take(i as int) =~= views(repositories@));
    (total % 0x1_0000_0000) as u32
}

/// How many of the repositories were last updated in the current year.
pub open spec fn updated_this_year(repos: Seq<RepositoryView>) -> nat
    decreases repos.len(),
{
    if repos.len() == 0 {
        0
    } else {
        updated_this_year(repos.drop_last()) + if in_current_year(repos.last().updated_at) {
            1nat
        } else {
            0nat
        }
    }
}

/// Estimates the contributions of the current year: twenty for each
/// repository updated in it.
pub fn estimate_yearly_contributions(repositories: &[Repository]) -> (count: u32)
    ensures
        count == (updated_this_year(views(repositories@)) * 20) % 0x1_0000_0000,
{
    let mut active: usize = 0;
    let mut i: usize = 0;
    while i < repositories.len()
        invariant
            i <= repositories.len(),
            active == updated_this_year(views(repositories@).take(i as int)),
            active <= i,
        decreases repositories.len() - i,
    {
        proof {
            let all = views(repositories@);
            assert(all.take(i + 1).drop_last() =~= all.take(i as int));
            assert(all.take(i + 1).last() == repositories@[i as int]@);
        }
        if is_from_current_year(repositories[i].updated_at.as_str()) {
            active = active + 1;
        }
        i = i + 1;
    }
    assert(views(repositories@).take(i as int) =~= views(repositories@));
    let total: u128 = (active as u128) * 20;
    (total % 0x1_0000_0000) as u32
}

/// The earliest creation time among the repositories whose creation date
/// starts with a year.
pub open spec fn oldest_creation(repos: Seq<RepositoryView>) -> Option<u64>
    decreases repos.len(),
{
    if repos.len() == 0 {
        None
    } else {
        let before = oldest_creation(repos.drop_last());
        match (before, date_nanos(repos.last().created_at)) {
            (Some(a), Some(b)) => Some(
                if b < a {
                    b
                } else {
                    a
                },
            ),
            (Some(a), None) => Some(a),
            (None, other) => other,
        }
    }
}

/// The age of an account in whole days at the time `now`: the time since its
/// oldest dated repository was created. Without a dated repository, and
/// where that time lies ahead of `now`, the age is zero.
pub open spec fn account_age_days(repos: Seq<RepositoryView>, now: u64) -> nat {
    match oldest_creation(repos) {
        Some(oldest) => if oldest < now {
            ((now - oldest) / NANOS_PER_DAY as int) as nat
        } else {
            0
        },
        None => 0,
    }
}

/// Estimates the age of an account at the time `now`, in nanoseconds since
/// 1970, from the creation dates of its repositories.
pub fn estimate_account_age(repositories: &[Repository], now: u64) -> (days: u32)
    ensures
        days == account_age_days(views(repositories@), now),
{
    let mut oldest: Option<u64> = None;
    let mut i: usize = 0;
    while i < repositories.len()
        invariant
            i <= repositories.len(),
            oldest == oldest_creation(views(repositories@).take(i as int)),
        decreases repositories.len() - i,
    {
        proof {
            let all = views(repositories@);
            assert(all.take(i + 1).drop_last() =~= all.take(i as int));
            assert(all.take(i + 1).last() == repositories@[i as int]@);
        }
        let created = parse_github_date(repositories[i].created_at.as_str());
        oldest =
        match (oldest, created) {
            (Some(a), Some(b)) => Some(
                if b < a {
                    b
                } else {
                    a
                },
            ),
            (Some(a), None) => Some(a),
            (None, other) => other,
        };
        i = i + 1;
    }
    assert(views(repositories@).take(i as int) =~= views(repositories@));
    match oldest {
        Some(oldest) => if oldest < now {
            ((now - oldest) / NANOS_PER_DAY) as u32
        } else {
            0
        },
        None => 0,
    }
}

/// The size of the repositories written in the language, added up.
pub open spec fn language_total(repos: Seq<RepositoryView>, language: Seq<char>) -> nat
    decreases repos.len(),
{
    if repos.len() == 0 {
        0
    } else {
        language_total(repos.drop_last(), language) + if repos.last().language == Some(
            language,
        ) {
            repos.last().size as nat
        } else {
            0nat
        }
    }
}

/// The languages that the repositories name, each once, in the order in
/// which they first occur. An empty name is no language.
pub open spec fn languages_seen(repos: Seq<RepositoryView>) -> Seq<Seq<char>>
    decreases repos.len(),
{
    if repos.len() == 0 {
        seq![]
    } else {
        let before = languages_seen(repos.drop_last());
        match repos.last().language {
            Some(l) => if l.len() > 0 && !before.contains(l) {
                before.push(l)
            } else {
                before
            },
            None => before,
        }
    }
}

/// The languages of the repositories, each with the size of the repositories
/// written in it, kept to 32 bits.
pub open spec fn language_usage(repos: Seq<RepositoryView>) -> Seq<(Seq<char>, u32)> {
    Seq::new(
        languages_seen(repos).len(),
        |i: int|
            (
                languages_seen(repos)[i],
                (language_total(repos, languages_seen(repos)[i]) % 0x1_0000_0000) as u32,
            ),
    )
}

/// The languages seen are named, pairwise distinct, and exactly the
/// languages that some repository names; a language that is not among them
/// has no size.
pub proof fn lemma_languages_seen(repos: Seq<RepositoryView>)
    ensures
        languages_seen(repos).no_duplicates(),
        forall|i: int|
            0 <= i < languages_seen(repos).len() ==> (#[trigger] languages_seen(repos)[i]).len()
                > 0,
        forall|l: Seq<char>|
            languages_seen(repos).contains(l) <==> l.len() > 0 && exists|k: int|
                0 <= k < repos.len() && (#[trigger] repos[k]).language == Some(l),
        forall|l: Seq<char>|
            !languages_seen(repos).contains(l) && l.len() > 0 ==> #[trigger] language_total(
                repos,
                l,
            ) == 0,
    decreases repos.len(),
{
    if repos.len() > 0 {
        let rest = repos.drop_last();
        let before = languages_seen(rest);
        let seen = languages_seen(repos);
        lemma_languages_seen(rest);
        assert forall|l: Seq<char>| seen.contains(l) implies l.len() > 0 && exists|k: int|
            0 <= k < repos.len() && (#[trigger] repos[k]).language == Some(l) by {
            let i = choose|i: int| 0 <= i < seen.len() && seen[i] == l;
            if i < before.len() {
                assert(before[i] == l);
                assert(before.contains(l));
                let k = choose|k: int| 0 <= k < rest.len() && (#[trigger] rest[k]).language
                    == Some(l);
                assert(repos[k] == rest[k]);
            } else {
                assert(repos[repos.len() - 1].language == Some(l));
            }
        }
        assert forall|l: Seq<char>|
            l.len() > 0 && (exists|k: int|
                0 <= k < repos.len() && (#[trigger] repos[k]).language == Some(
                    l,
                )) implies seen.contains(l) by {
            let k = choose|k: int| 0 <= k < repos.len() && (#[trigger] repos[k]).language == Some(
                l,
            );
            if k < rest.len() {
                assert(rest[k] == repos[k]);
                assert(before.contains(l));
                let i = choose|i: int| 0 <= i < before.len() && before[i] == l;
                assert(seen[i] == l);
            } else {
                if before.contains(l) {
                    let i = choose|i: int| 0 <= i < before.len() && before[i] == l;
                    assert(seen[i] == l);
                } else {
                    assert(seen[seen.len() - 1] == l);
                }
            }
        }
        assert forall|l: Seq<char>| !seen.contains(l) && l.len() > 0 implies #[trigger] language_total(
            repos,
            l,
        ) == 0 by {
            if before.contains(l) {
                let i = choose|i: int| 0 <= i < before.len() && before[i] == l;
                assert(seen[i] == l);
                assert(seen.contains(l));
            }
            assert(language_total(rest, l) == 0);
            if repos.last().language == Some(l) {
                assert(seen[seen.len() - 1] == l);
                assert(seen.contains(l));
            }
        }
    }
}

fn position_of(languages: &Vec<(String, u32)>, name: &String) -> (r: Option<usize>)
    ensures
        r matches Some(k) ==> k < languages@.len() && languages@[k as int].0@ == name@,
        r is None ==> forall|j: int| 0 <= j < languages@.len() ==> languages@[j].0@ != name@,
{
    let mut k: usize = 0;
    while k < languages.len()
        invariant
            k <= languages@.len(),
            forall|j: int| 0 <= j < k ==> languages@[j].0@ != name@,
        decreases languages.len() - k,
    {
        if languages[k].0 == *name {
            return Some(k);
        }
        k = k + 1;
    }
    None
}

/// Adds up, for each language that the repositories name, the size of the
/// repositories written in it. Each language is listed once, in the order in
/// which the languages first occur.
pub fn analyze_languages(repositories: &[Repository]) -> (languages: Vec<(String, u32)>)
    ensures
        usage_views(languages@) == language_usage(views(repositories@)),
{
    let mut languages: Vec<(String, u32)> = Vec::new();
    let mut i: usize = 0;
    assert(usage_views(languages@) =~= language_usage(views(repositories@).take(0)));
    while i < repositories.len()
        invariant
            i <= repositories.len(),
            usage_views(languages@) == language_usage(views(repositories@).take(i as int)),
        decreases repositories.len() - i,
    {
        let ghost all = views(repositories@);
        let ghost done = all.take(i as int);
        let ghost next = all.take(i + 1);
        let ghost before = usage_views(languages@);
        proof {
            assert(next.drop_last() =~= done);
            assert(next.last() == repositories@[i as int]@);
            lemma_languages_seen(done);
            assert(before.len() == languages_seen(done).len());
            assert forall|j: int| 0 <= j < before.len() implies before[j].0 == languages_seen(
                done,
            )[j] by {}
        }
        let size: u32 = repositories[i].size;
        match &repositories[i].language {
            Some(language) => {
                if !language.as_str().is_empty() {
                    match position_of(&languages, language) {
                        Some(k) => {
                            let total: u32 = languages[k].1;
                            let sum: u64 = (total as u64 + size as u64) % 0x1_0000_0000;
                            languages.set(k, (language.clone(), sum as u32));
                            proof {
                                assert(before[k as int].0 == language@);
                                assert(languages_seen(done)[k as int] == language@);
                                assert(languages_seen(done).contains(language@));
                                assert(languages_seen(next) == languages_seen(done));
                                let after = usage_views(languages@);
                                assert(after.len() == before.len());
                                assert(language_usage(next).len() == before.len());
                                assert forall|j: int| 0 <= j < after.len() implies #[trigger] after[j]
                                    == language_usage(next)[j] by {
                                    if j != k {
                                        assert(languages_seen(done)[j] != languages_seen(done)[k as int]);
                                        assert(after[j] == before[j]);
                                    }
                                }
                                assert(after =~= language_usage(next));
                            }
                        },
                        None => {
                            languages.push((language.clone(), size));
                            proof {
                                if languages_seen(done).contains(language@) {
                                    let j = choose|j: int|
                                        0 <= j < languages_seen(done).len() && languages_seen(
                                            done,
                                        )[j] == language@;
                                    assert(before[j].0 == language@);
                                }
                                assert(!languages_seen(done).contains(language@));
                                assert(language_total(done, language@) == 0);
                                assert(languages_seen(next) == languages_seen(done).push(
                                    language@,
                                ));
                                let after = usage_views(languages@);
                                assert(after.len() == before.len() + 1);
                                assert forall|j: int| 0 <= j < after.len() implies #[trigger] after[j]
                                    == language_usage(next)[j] by {
                                    if j < before.len() {
                                        assert(languages_seen(done).contains(
                                            languages_seen(done)[j],
                                        ));
                                        assert(after[j] == before[j]);
                                    }
                                }
                                assert(after =~= language_usage(next));
                            }
                        },
                    }
                } else {
                    assert(usage_views(languages@) =~= language_usage(next));
                }
            },
            None => {
                assert(usage_views(languages@) =~= language_usage(next));
            },
        }
        i = i + 1;
    }
    assert(views(repositories@).take(i as int) =~= views(repositories@));
    languages
}

/// The stars of the repositories, added up.
pub open spec fn stars_total(repos: Seq<RepositoryView>) -> nat
    decreases repos.len(),
{
    if repos.len() == 0 {
        0
    } else {
        stars_total(repos.drop_last()) + repos.last().stars as nat
    }
}

/// The forks of the repositories, added up.
pub open spec fn forks_total(repos: Seq<RepositoryView>) -> nat
    decreases repos.len(),
{
    if repos.len() == 0 {
        0
    } else {
        forks_total(repos.drop_last()) + repos.last().forks as nat
    }
}

/// A count or sum as it is stored: kept to 32 bits.
pub open spec fn stored(n: nat) -> u32 {
    (n % 0x1_0000_0000) as u32
}

/// Counts the repositories, estimates their commits and adds up their
/// stars, in this order.
pub fn repository_stats(repositories: &[Repository]) -> (stats: (u32, u32, u32))
    ensures
        stats.0 == stored(repositories@.len()),
        stats.1 == stored(commit_estimates(views(repositories@))),
        stats.2 == stored(stars_total(views(repositories@))),
{
    let mut stars: u128 = 0;
    let mut i: usize = 0;
    while i < repositories.len()
        invariant
            i <= repositories.len(),
            stars == stars_total(views(repositories@).take(i as int)),
            stars <= i * 0xffff_ffff,
        decreases repositories.len() - i,
    {
        proof {
            let all = views(repositories@);
            assert(all.take(i + 1).drop_last() =~= all.take(i as int));
            assert(all.take(i + 1).last() == repositories@[i as int]@);
        }
        stars = stars + repositories[i].stars as u128;
        i = i + 1;
    }
    assert(views(repositories@).take(i as int) =~= views(repositories@));
    let total_repos: u32 = ((repositories.len() as u64) % 0x1_0000_0000) as u32;
    (total_repos, estimate_commit_count(repositories), (stars % 0x1_0000_0000) as u32)
}

/// Adds up the forks of the repositories.
pub fn total_forks(repositories: &[Repository]) -> (forks: u32)
    ensures
        forks == stored(forks_total(views(repositories@))),
{
    let mut forks: u128 = 0;
    let mut i: usize = 0;
    while i < repositories.len()
        invariant
            i <= repositories.len(),
            forks == forks_total(views(repositories@).take(i as int)),
            forks <= i * 0xffff_ffff,
        decreases repositories.len() - i,
    {
        proof {
            let all = views(repositories@);
            assert(all.take(i + 1).drop_last() =~= all.take(i as int));
            assert(all.take(i + 1).last() == repositories@[i as int]@);
        }
        forks = forks + repositories[i].forks as u128;
        i = i + 1;
    }
    assert(views(repositories@).take(i as int) =~= views(repositories@));
    (forks % 0x1_0000_0000) as u32
}

/// The snapshot of an account: what is counted and estimated from its
/// repositories at the time `now`, with the three scores as given. Followers
/// and followed accounts are not known and stand at zero.
pub open spec fn analysis_of(
    username: Seq<char>,
    repos: Seq<RepositoryView>,
    commit_frequency_score: u32,
    code_quality_score: u32,
    community_engagement_score: u32,
    now: u64,
) -> GitHubAnalysisView {
    GitHubAnalysisView {
        username,
        total_repos: stored(repos.len()),
        total_commits: stored(commit_estimates(repos)),
        total_stars_received: stored(stars_total(repos)),
        total_forks_received: stored(forks_total(repos)),
        languages: language_usage(repos),
        repositories: repos,
        contributions_this_year: stored(updated_this_year(repos) * 20),
        account_age_days: account_age_days(repos, now) as u32,
        followers: 0,
        following: 0,
        analyzed_at: now,
        commit_frequency_score,
        code_quality_score,
        community_engagement_score,
    }
}

/// Assembles the snapshot of an account from its repositories, the three
/// scores and the time of the analysis.
pub fn build_analysis(
    username: &str,
    repositories: Vec<Repository>,
    commit_frequency_score: u32,
    code_quality_score: u32,
    community_engagement_score: u32,
    now: u64,
) -> (analysis: GitHubAnalysis)
    ensures
        analysis@ == analysis_of(
            username@,
            views(repositories@),
            commit_frequency_score,
            code_quality_score,
            community_engagement_score,
            now,
        ),
{
    let (total_repos, total_commits, total_stars) = repository_stats(repositories.as_slice());
    let total_forks = total_forks(repositories.as_slice());
    let languages = analyze_languages(repositories.as_slice());
    let account_age_days = estimate_account_age(repositories.as_slice(), now);
    let contributions_this_year = estimate_yearly_contributions(repositories.as_slice());
    GitHubAnalysis {
        username: String::from_str(username),
        total_repos,
        total_commits,
        total_stars_received: total_stars,
        total_forks_received: total_forks,
        languages,
        repositories,
        contributions_this_year,
        account_age_days,
        followers: 0,
        following: 0,
        analyzed_at: now,
        commit_frequency_score,
        code_quality_score,
        community_engagement_score,
    }
}

/// A snapshot that is assembled from repositories names no language twice.
pub proof fn lemma_analysis_languages_distinct(
    username: Seq<char>,
    repos: Seq<RepositoryView>,
    commit_frequency_score: u32,
    code_quality_score: u32,
    community_engagement_score: u32,
    now: u64,
)
    ensures
        analysis_of(
            username,
            repos,
            commit_frequency_score,
            code_quality_score,
            community_engagement_score,
            now,
        ).languages_distinct(),
{
    lemma_languages_seen(repos);
}

} // verus!
