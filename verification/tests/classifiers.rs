use veriflair::classify::{
    determine_commit_achievement, determine_contribution_tier, determine_language_tier,
    determine_repository_achievement, determine_star_achievement, determine_streak_achievement,
};
use veriflair::models::{BadgeTier, Repository};
use veriflair::text::decimal_string;

const TIERS: [BadgeTier; 9] = [
    BadgeTier::Bronze1,
    BadgeTier::Bronze2,
    BadgeTier::Bronze3,
    BadgeTier::Silver1,
    BadgeTier::Silver2,
    BadgeTier::Silver3,
    BadgeTier::Gold1,
    BadgeTier::Gold2,
    BadgeTier::Gold3,
];

fn repos_in(language: &str, n: usize) -> Vec<Repository> {
    let mut v = Vec::new();
    for i in 0..n {
        v.push(Repository {
            name: format!("r{}", i),
            full_name: format!("dev/r{}", i),
            description: None,
            language: Some(language.to_string()),
            stars: 0,
            forks: 0,
            size: 0,
            is_fork: false,
            is_private: false,
            created_at: String::new(),
            updated_at: String::new(),
            pushed_at: String::new(),
            commits_count: None,
        });
    }
    v
}

fn check_bands(
    classify: fn(u32) -> Option<(BadgeTier, Vec<String>, u32)>,
    lower: [u32; 9],
) {
    assert!(classify(0).is_none());
    assert!(classify(lower[0] - 1).is_none());
    for i in 0..9 {
        let (tier, criteria, score) = classify(lower[i]).expect("a band starts here");
        assert_eq!(tier, TIERS[i]);
        assert_eq!(score, lower[i]);
        assert_eq!(criteria.len(), 1);
        if i > 0 {
            let (below, _, score) = classify(lower[i] - 1).expect("the band below");
            assert_eq!(below, TIERS[i - 1]);
            assert_eq!(score, lower[i] - 1);
        }
    }
    let (top, _, score) = classify(u32::MAX).expect("the last band is open");
    assert_eq!(top, BadgeTier::Gold3);
    assert_eq!(score, u32::MAX);
}

#[test]
fn tier_points_colors_and_names() {
    let points = [10, 20, 30, 50, 75, 100, 150, 200, 300];
    let names = [
        "Bronze I",
        "Bronze II",
        "Bronze III",
        "Silver I",
        "Silver II",
        "Silver III",
        "Gold I",
        "Gold II",
        "Gold III",
    ];
    for i in 0..9 {
        assert_eq!(TIERS[i].get_points(), points[i]);
        assert_eq!(TIERS[i].get_display_name(), names[i]);
        let color = match i / 3 {
            0 => "#CD7F32",
            1 => "#C0C0C0",
            _ => "#FFD700",
        };
        assert_eq!(TIERS[i].get_color(), color);
    }
}

#[test]
fn commit_classifier_examples() {
    assert_eq!(determine_commit_achievement(101).unwrap().0, BadgeTier::Bronze1);
    assert_eq!(determine_commit_achievement(1001).unwrap().0, BadgeTier::Bronze3);
    assert_eq!(determine_commit_achievement(100001).unwrap().0, BadgeTier::Gold3);
}

#[test]
fn commit_classifier_below_first_band() {
    assert!(determine_commit_achievement(99).is_none());
}

#[test]
fn commit_classifier_bands() {
    check_bands(
        determine_commit_achievement,
        [100, 500, 1001, 2501, 5001, 10001, 25001, 50001, 100001],
    );
    let (tier, criteria, score) = determine_commit_achievement(1500).unwrap();
    assert_eq!(tier, BadgeTier::Bronze3);
    assert_eq!(criteria, vec!["Consistent contributor - 1500 commits made"]);
    assert_eq!(score, 1500);
    assert_eq!(
        determine_commit_achievement(4_294_967_295).unwrap().1,
        vec!["Commit titan - 4294967295 commits made"]
    );
}

#[test]
fn commit_classifier_never_steps_down() {
    let mut last = 0;
    let mut n: u32 = 0;
    while n < 120_000 {
        let points = determine_commit_achievement(n).map(|r| r.0.get_points()).unwrap_or(0);
        assert!(points >= last);
        last = points;
        n += 7;
    }
}

#[test]
fn commit_phrases() {
    let phrases = [
        (100, "Getting into the rhythm"),
        (500, "Regular committer"),
        (1001, "Consistent contributor"),
        (2501, "Dedicated coder"),
        (5001, "Prolific committer"),
        (10001, "Commit machine"),
        (25001, "Elite contributor"),
        (50001, "Legendary committer"),
        (100001, "Commit titan"),
    ];
    for (n, phrase) in phrases {
        let (_, criteria, _) = determine_commit_achievement(n).unwrap();
        assert_eq!(criteria, vec![format!("{} - {} commits made", phrase, n)]);
    }
}

#[test]
fn star_classifier_bands() {
    check_bands(determine_star_achievement, [10, 50, 151, 301, 751, 1501, 3001, 7501, 15001]);
    let phrases = [
        (10, "Gaining recognition"),
        (50, "Community appreciated"),
        (151, "Popular creator"),
        (301, "Widely recognized"),
        (751, "Highly regarded"),
        (1501, "Community favorite"),
        (3001, "Influential creator"),
        (7501, "Legendary developer"),
        (15001, "Star magnet"),
    ];
    for (n, phrase) in phrases {
        let (_, criteria, _) = determine_star_achievement(n).unwrap();
        assert_eq!(criteria, vec![format!("{} - {} stars received", phrase, n)]);
    }
}

#[test]
fn repository_classifier_bands() {
    check_bands(determine_repository_achievement, [5, 10, 26, 51, 101, 201, 301, 501, 1001]);
    let phrases = [
        (5, "Created first repositories"),
        (10, "Regular repository creator"),
        (26, "Prolific project starter"),
        (51, "Dedicated builder"),
        (101, "Project factory"),
        (201, "Repository master"),
        (301, "Elite creator"),
        (501, "Legendary builder"),
        (1001, "Repository titan"),
    ];
    for (n, phrase) in phrases {
        let (_, criteria, _) = determine_repository_achievement(n).unwrap();
        assert_eq!(criteria, vec![format!("{} - {} repositories created", phrase, n)]);
    }
}

#[test]
fn streak_classifier_bands() {
    check_bands(determine_streak_achievement, [50, 100, 201, 366, 501, 751, 1001, 1501, 2001]);
    let phrases = [
        (50, "Building momentum"),
        (100, "Steady progress"),
        (201, "Daily contributor"),
        (366, "Dedicated maintainer"),
        (501, "Consistent champion"),
        (751, "Unstoppable force"),
        (1001, "Elite contributor"),
        (1501, "Legendary consistency"),
        (2001, "Ultimate dedication"),
    ];
    for (n, phrase) in phrases {
        let (_, criteria, _) = determine_streak_achievement(n).unwrap();
        assert_eq!(criteria, vec![format!("{} - {} contributions this year", phrase, n)]);
    }
}

#[test]
fn contribution_classifier_bands() {
    let lower: [u32; 9] = [10, 26, 51, 76, 101, 151, 201, 301, 501];
    let phrases = [
        "Getting started",
        "Regular contributor",
        "Active participant",
        "Dedicated contributor",
        "Community leader",
        "Influential member",
        "Community champion",
        "Elite contributor",
        "Legendary figure",
    ];
    assert!(determine_contribution_tier(0, "community").is_none());
    assert!(determine_contribution_tier(9, "community").is_none());
    for i in 0..9 {
        let (tier, criteria) = determine_contribution_tier(lower[i], "community").unwrap();
        assert_eq!(tier, TIERS[i]);
        assert_eq!(
            criteria,
            vec![format!("{} in community category with score {}", phrases[i], lower[i])]
        );
        if i > 0 {
            assert_eq!(
                determine_contribution_tier(lower[i] - 1, "x").unwrap().0,
                TIERS[i - 1]
            );
        }
    }
    assert_eq!(determine_contribution_tier(25, "x").unwrap().0, BadgeTier::Bronze1);
    assert_eq!(determine_contribution_tier(u32::MAX, "x").unwrap().0, BadgeTier::Gold3);
}

#[test]
fn language_classifier_bands() {
    let cases: [(u32, usize, Option<BadgeTier>); 30] = [
        (999, 1, None),
        (1000, 0, None),
        (1000, 1, Some(BadgeTier::Bronze1)),
        (5000, 2, Some(BadgeTier::Bronze1)),
        (5000, 3, None),
        (5001, 1, None),
        (5001, 2, Some(BadgeTier::Bronze2)),
        (15000, 5, Some(BadgeTier::Bronze2)),
        (15000, 6, None),
        (15001, 3, Some(BadgeTier::Bronze3)),
        (50000, 8, Some(BadgeTier::Bronze3)),
        (50000, 9, None),
        (50001, 5, Some(BadgeTier::Silver1)),
        (100000, 15, Some(BadgeTier::Silver1)),
        (100000, 4, None),
        (100001, 8, Some(BadgeTier::Silver2)),
        (250000, 20, Some(BadgeTier::Silver2)),
        (250000, 21, None),
        (250001, 15, Some(BadgeTier::Silver3)),
        (500000, 30, Some(BadgeTier::Silver3)),
        (500000, 14, None),
        (500001, 20, Some(BadgeTier::Gold1)),
        (1000000, 50, Some(BadgeTier::Gold1)),
        (1000000, 51, None),
        (1000001, 30, Some(BadgeTier::Gold2)),
        (2000000, 80, Some(BadgeTier::Gold2)),
        (2000000, 29, None),
        (2000001, 50, Some(BadgeTier::Gold3)),
        (u32::MAX, 60, Some(BadgeTier::Gold3)),
        (2000001, 49, None),
    ];
    for (lines, repos, expected) in cases {
        let repositories = repos_in("Go", repos);
        let (tier, criteria, score) = determine_language_tier(lines, &repositories, "Go");
        assert_eq!(tier, expected, "{} lines in {} repositories", lines, repos);
        assert_eq!(score, lines / 100);
        assert_eq!(criteria.len(), if expected.is_some() { 1 } else { 0 });
    }
}

#[test]
fn language_classifier_justifications() {
    let cases: [(u32, usize, &str); 9] = [
        (1000, 1, "Written 1000+ lines in Go"),
        (5001, 2, "Written 5001+ lines across 2 projects"),
        (15001, 3, "Extensive Go experience across 3 repositories"),
        (50001, 5, "Professional-level Go development"),
        (100001, 8, "Advanced Go expertise"),
        (250001, 15, "Expert-level Go mastery"),
        (500001, 20, "Elite Go developer"),
        (1000001, 30, "Legendary Go expertise"),
        (2000001, 50, "Master Go architect"),
    ];
    for (lines, repos, line) in cases {
        let repositories = repos_in("Go", repos);
        let (_, criteria, _) = determine_language_tier(lines, &repositories, "Go");
        assert_eq!(criteria, vec![line.to_string()]);
    }
}

#[test]
fn language_classifier_counts_exact_names_only() {
    let mut repositories = repos_in("Go", 1);
    repositories.extend(repos_in("go", 3));
    repositories.extend(repos_in("Golang", 3));
    repositories[2].language = None;
    let (tier, _, _) = determine_language_tier(2000, &repositories, "Go");
    assert_eq!(tier, Some(BadgeTier::Bronze1));
    let (tier, _, _) = determine_language_tier(2000, &repositories, "go");
    assert_eq!(tier, Some(BadgeTier::Bronze1));
    let (tier, _, _) = determine_language_tier(2000, &repositories, "Golang");
    assert_eq!(tier, None);
}

#[test]
fn decimal_rendering() {
    for n in [0u64, 1, 9, 10, 11, 99, 100, 101, 1825, 4_294_967_295, 10_000_000_000, u64::MAX] {
        assert_eq!(decimal_string(n), n.to_string());
    }
}
