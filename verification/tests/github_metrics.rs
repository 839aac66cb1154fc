use veriflair::github::{
    analyze_languages, build_analysis, estimate_account_age, estimate_commit_count,
    estimate_yearly_contributions, is_from_current_year, parse_github_date, repository_stats,
    total_forks, NANOS_PER_DAY, NANOS_PER_YEAR,
};
use veriflair::models::Repository;

fn repository(language: Option<&str>, size: u32, is_fork: bool) -> Repository {
    Repository {
        name: "r".to_string(),
        full_name: "dev/r".to_string(),
        description: None,
        language: language.map(|l| l.to_string()),
        stars: 0,
        forks: 0,
        size,
        is_fork,
        is_private: false,
        created_at: String::new(),
        updated_at: String::new(),
        pushed_at: String::new(),
        commits_count: None,
    }
}

fn dated(created_at: &str, updated_at: &str) -> Repository {
    let mut r = repository(None, 0, false);
    r.created_at = created_at.to_string();
    r.updated_at = updated_at.to_string();
    r
}

#[test]
fn dates_are_read_by_their_year() {
    assert_eq!(parse_github_date("1970-01-01T00:00:00Z"), Some(0));
    assert_eq!(parse_github_date("1971-06-01T00:00:00Z"), Some(NANOS_PER_YEAR));
    assert_eq!(parse_github_date("2020-02-29T12:00:00Z"), Some(50 * NANOS_PER_YEAR));
    assert_eq!(parse_github_date("2020"), Some(50 * 365 * 24 * 60 * 60 * 1_000_000_000));
    assert_eq!(parse_github_date("1969-12-31"), Some(0));
    assert_eq!(parse_github_date("0000"), Some(0));
    assert_eq!(parse_github_date("+999 "), Some(0));
}

#[test]
fn dates_without_a_year_are_not_read() {
    for text in ["", "202", "20a0-01-01", "-202", "year", " 2020", "20 20", "２０２０"] {
        assert_eq!(parse_github_date(text), None, "{:?}", text);
    }
}

#[test]
fn far_years_are_kept_to_64_bits() {
    // 2554 is the last year whose start fits.
    assert_eq!(parse_github_date("2554"), Some(584 * NANOS_PER_YEAR));
    let wrapped = ((585u128 * NANOS_PER_YEAR as u128) % (1u128 << 64)) as u64;
    assert_eq!(parse_github_date("2555"), Some(wrapped));
    let wrapped = ((8029u128 * NANOS_PER_YEAR as u128) % (1u128 << 64)) as u64;
    assert_eq!(parse_github_date("9999-12-31"), Some(wrapped));
}

#[test]
fn current_year_starts_in_2024() {
    assert!(is_from_current_year("2024-01-01T00:00:00Z"));
    assert!(is_from_current_year("2025"));
    assert!(is_from_current_year("9999"));
    assert!(!is_from_current_year("2023-12-31T23:59:59Z"));
    assert!(!is_from_current_year("202"));
    assert!(!is_from_current_year(""));
    assert!(!is_from_current_year("abcd"));
    assert!(!is_from_current_year("+202"));
}

#[test]
fn commits_are_estimated_from_size() {
    assert_eq!(estimate_commit_count(&[]), 0);
    assert_eq!(estimate_commit_count(&[repository(None, 0, false)]), 0);
    assert_eq!(estimate_commit_count(&[repository(None, 1, false)]), 10);
    assert_eq!(estimate_commit_count(&[repository(None, 99, false)]), 10);
    assert_eq!(estimate_commit_count(&[repository(None, 100, false)]), 11);
    assert_eq!(estimate_commit_count(&[repository(None, 4999, false)]), 59);
    assert_eq!(estimate_commit_count(&[repository(None, 5000, false)]), 60);
    assert_eq!(estimate_commit_count(&[repository(None, u32::MAX, false)]), 60);
    assert_eq!(estimate_commit_count(&[repository(None, 5000, true)]), 0);
    let all = [
        repository(None, 250, false),
        repository(None, 9000, true),
        repository(None, 7, false),
        repository(None, 0, false),
    ];
    assert_eq!(estimate_commit_count(&all), 12 + 0 + 10 + 0);
}

#[test]
fn yearly_contributions_count_twenty_per_repository() {
    assert_eq!(estimate_yearly_contributions(&[]), 0);
    let all = [
        dated("2019-01-01", "2024-03-01T00:00:00Z"),
        dated("2019-01-01", "2023-03-01T00:00:00Z"),
        dated("2019-01-01", "2026-03-01T00:00:00Z"),
        dated("2025-01-01", ""),
    ];
    assert_eq!(estimate_yearly_contributions(&all), 40);
}

#[test]
fn account_age_goes_by_the_oldest_repository() {
    let now = 55 * NANOS_PER_YEAR + 3 * NANOS_PER_DAY + 5;
    assert_eq!(estimate_account_age(&[], now), 0);
    assert_eq!(estimate_account_age(&[dated("", "")], now), 0);
    let all =
        [dated("2022-05-01", ""), dated("bad", ""), dated("2015-01-01", ""), dated("2018", "")];
    // 2015 starts 45 years of 365 days after 1970
    assert_eq!(estimate_account_age(&all, now), 10 * 365 + 3);
    assert_eq!(estimate_account_age(&all, 45 * NANOS_PER_YEAR), 0);
    assert_eq!(estimate_account_age(&all, 45 * NANOS_PER_YEAR + NANOS_PER_DAY - 1), 0);
    assert_eq!(estimate_account_age(&all, 45 * NANOS_PER_YEAR + NANOS_PER_DAY), 1);
    assert_eq!(estimate_account_age(&all, 0), 0);
    assert_eq!(estimate_account_age(&[dated("1970", "")], u64::MAX), 213503);
}

#[test]
fn languages_are_listed_once_in_order_of_first_use() {
    assert!(analyze_languages(&[]).is_empty());
    let all = [
        repository(Some("Rust"), 100, false),
        repository(None, 5, false),
        repository(Some("Go"), 7, false),
        repository(Some(""), 9, false),
        repository(Some("Rust"), 30, true),
        repository(Some("rust"), 1, false),
        repository(Some("Go"), 0, false),
    ];
    assert_eq!(
        analyze_languages(&all),
        vec![("Rust".to_string(), 130), ("Go".to_string(), 7), ("rust".to_string(), 1)]
    );
}

#[test]
fn language_sizes_are_kept_to_32_bits() {
    let all = [
        repository(Some("C"), u32::MAX, false),
        repository(Some("C"), 3, false),
        repository(Some("D"), 1, false),
    ];
    assert_eq!(analyze_languages(&all), vec![("C".to_string(), 2), ("D".to_string(), 1)]);
}

#[test]
fn repository_stats_count_and_add_up() {
    assert_eq!(repository_stats(&[]), (0, 0, 0));
    let mut a = repository(None, 250, false);
    a.stars = 5;
    a.forks = 2;
    let mut b = repository(None, 0, true);
    b.stars = u32::MAX;
    b.forks = 40;
    let all = [a, b];
    assert_eq!(repository_stats(&all), (2, 12, 4));
    assert_eq!(total_forks(&all), 42);
    assert_eq!(total_forks(&[]), 0);
}

#[test]
fn analysis_is_assembled_from_the_repositories() {
    let mut a = repository(Some("Rust"), 1200, false);
    a.stars = 11;
    a.forks = 3;
    a.created_at = "2016-01-01T00:00:00Z".to_string();
    a.updated_at = "2024-01-01T00:00:00Z".to_string();
    let mut b = repository(Some("Go"), 10, true);
    b.stars = 1;
    b.created_at = "2020-01-01T00:00:00Z".to_string();
    b.updated_at = "2021-01-01T00:00:00Z".to_string();
    let now = 56 * NANOS_PER_YEAR;
    let analysis = build_analysis("dev", vec![a.clone(), b.clone()], 41, 82, 63, now);
    assert_eq!(analysis.username, "dev");
    assert_eq!(analysis.total_repos, 2);
    assert_eq!(analysis.total_commits, 22);
    assert_eq!(analysis.total_stars_received, 12);
    assert_eq!(analysis.total_forks_received, 3);
    assert_eq!(analysis.languages, vec![("Rust".to_string(), 1200), ("Go".to_string(), 10)]);
    assert_eq!(analysis.repositories, vec![a, b]);
    assert_eq!(analysis.contributions_this_year, 20);
    assert_eq!(analysis.account_age_days, 10 * 365);
    assert_eq!(analysis.followers, 0);
    assert_eq!(analysis.following, 0);
    assert_eq!(analysis.analyzed_at, now);
    assert_eq!(analysis.commit_frequency_score, 41);
    assert_eq!(analysis.code_quality_score, 82);
    assert_eq!(analysis.community_engagement_score, 63);
}
