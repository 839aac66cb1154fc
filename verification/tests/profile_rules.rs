use veriflair::badges::create_achievement_badge;
use veriflair::models::{Badge, BadgeTier, GitHubData, HttpRequest};
use veriflair::profile::{
    award_badges, check_force_sync, check_sync_allowed, connect_github_oauth,
    create_initial_profile, disconnect_github, get_leaderboard, get_stats, http_request, is_admin,
    leaderboard_size, select_new_badges, UserProfile, SYNC_INTERVAL_NS,
};
use veriflair::statistics::get_badge_statistics;

fn badge(id: &str, name: &str, tier: BadgeTier) -> Badge {
    create_achievement_badge(id, name, "about", tier, Vec::new(), 1, 1)
}

fn blank(principal: &[u8], now: u64) -> UserProfile {
    UserProfile {
        user_principal: principal.to_vec(),
        github_username: String::new(),
        github_connected: false,
        github_data: None,
        created_at: now,
        updated_at: now,
        last_github_sync: None,
        reputation_score: 0,
        badges: Vec::new(),
        total_badges: 0,
    }
}

fn ranked(principal: u8, connected: bool, reputation: u64) -> UserProfile {
    let mut p = blank(&[principal], 0);
    p.github_connected = connected;
    p.reputation_score = reputation;
    p
}

fn data(login: &str) -> GitHubData {
    GitHubData {
        login: login.to_string(),
        name: Some("Octo".to_string()),
        avatar_url: "https://a".to_string(),
        bio: None,
        public_repos: 3,
        followers: 1,
        following: 2,
        created_at: "2015".to_string(),
        updated_at: "2024".to_string(),
    }
}

#[test]
fn sync_interval_is_an_hour() {
    assert_eq!(SYNC_INTERVAL_NS, 3600_000_000_000);
}

#[test]
fn initial_profile_is_blank() {
    assert_eq!(create_initial_profile(&[1, 2], false, 77), Ok(blank(&[1, 2], 77)));
    assert_eq!(
        create_initial_profile(&[1, 2], true, 77),
        Err("Profile already exists for this user".to_string())
    );
}

#[test]
fn awards_are_merged_by_identifier() {
    let mut p = blank(&[1], 5);
    p.badges = vec![badge("a", "A", BadgeTier::Bronze1)];
    p.total_badges = 1;
    p.reputation_score = 10;
    let awards = vec![
        badge("b", "B", BadgeTier::Gold3),
        badge("a", "A", BadgeTier::Silver2),
        badge("c", "C", BadgeTier::Bronze2),
    ];
    let updated = award_badges(p.clone(), awards.clone(), 900);
    let mut expected = p;
    expected.badges.push(awards[0].clone());
    expected.badges.push(awards[2].clone());
    expected.total_badges = 3;
    expected.reputation_score = 10 + 300 + 20;
    expected.last_github_sync = Some(900);
    expected.updated_at = 900;
    assert_eq!(updated, expected);
    let again = award_badges(updated.clone(), awards, 901);
    assert_eq!(again.badges, updated.badges);
    assert_eq!(again.reputation_score, 330);
    assert_eq!(again.total_badges, 3);
    assert_eq!(again.last_github_sync, Some(901));
    assert_eq!(again.updated_at, 901);
}

#[test]
fn connecting_fills_the_profile() {
    let awards = vec![badge("b", "B", BadgeTier::Silver1)];
    let connected = connect_github_oauth(None, &[7], data("octo"), awards.clone(), 40);
    let mut expected = blank(&[7], 40);
    expected.github_username = "octo".to_string();
    expected.github_connected = true;
    expected.github_data = Some(data("octo"));
    expected.badges = awards.clone();
    expected.total_badges = 1;
    expected.reputation_score = 50;
    expected.last_github_sync = Some(40);
    assert_eq!(connected, expected);
}

#[test]
fn connecting_again_awards_no_badge_twice() {
    let first = vec![badge("commit_master", "Commit Master", BadgeTier::Bronze3)];
    let connected = connect_github_oauth(None, &[7], data("octo"), first.clone(), 40);
    assert_eq!(connected.reputation_score, 30);
    let second = vec![
        badge("commit_master", "Commit Master", BadgeTier::Silver1),
        badge("star_collector", "Star Collector", BadgeTier::Bronze1),
    ];
    let again = connect_github_oauth(Some(connected), &[8], data("cat"), second.clone(), 90);
    assert_eq!(again.user_principal, vec![7]);
    assert_eq!(again.github_username, "cat");
    assert_eq!(again.github_data, Some(data("cat")));
    assert_eq!(again.created_at, 40);
    assert_eq!(again.updated_at, 90);
    assert_eq!(again.last_github_sync, Some(90));
    assert_eq!(again.badges, vec![first[0].clone(), second[1].clone()]);
    assert_eq!(again.badges.iter().filter(|b| b.id == "commit_master").count(), 1);
    assert_eq!(again.total_badges, 2);
    assert_eq!(again.reputation_score, 30 + 10);
}

#[test]
fn sync_is_allowed_once_an_hour() {
    assert_eq!(check_sync_allowed(None, 0), Err("Profile not found".to_string()));
    let mut p = blank(&[1], 0);
    assert_eq!(check_sync_allowed(Some(&p), 0), Err("GitHub account not connected".to_string()));
    p.github_connected = true;
    assert_eq!(check_sync_allowed(Some(&p), 0), Ok(()));
    p.last_github_sync = Some(1_000);
    let words = "GitHub sync can only be triggered once per hour".to_string();
    assert_eq!(check_sync_allowed(Some(&p), 1_000), Err(words.clone()));
    assert_eq!(check_sync_allowed(Some(&p), 999 + SYNC_INTERVAL_NS), Err(words));
    assert_eq!(check_sync_allowed(Some(&p), 1_000 + SYNC_INTERVAL_NS), Ok(()));
    // A last analysis that lies ahead counts as long ago.
    assert_eq!(check_sync_allowed(Some(&p), 999), Ok(()));
}

#[test]
fn forced_sync_needs_a_connection() {
    assert_eq!(check_force_sync(None), Err("User profile not found".to_string()));
    let mut p = blank(&[1], 0);
    assert_eq!(check_force_sync(Some(&p)), Err("User has no GitHub connection".to_string()));
    p.github_connected = true;
    p.last_github_sync = Some(5);
    assert_eq!(check_force_sync(Some(&p)), Ok(()));
}

#[test]
fn badges_already_held_are_not_awarded_again() {
    let held = vec![badge("a", "A", BadgeTier::Bronze1), badge("b", "B", BadgeTier::Bronze1)];
    let candidates = vec![
        badge("c", "C", BadgeTier::Gold1),
        badge("a", "A again", BadgeTier::Gold1),
        badge("d", "D", BadgeTier::Gold1),
        badge("B", "upper case", BadgeTier::Gold1),
        badge("c", "C twice", BadgeTier::Gold1),
        badge("b", "B", BadgeTier::Bronze1),
    ];
    let fresh = select_new_badges(&held, candidates.clone());
    assert_eq!(
        fresh,
        vec![
            candidates[0].clone(),
            candidates[2].clone(),
            candidates[3].clone(),
            candidates[4].clone()
        ]
    );
    assert_eq!(select_new_badges(&Vec::new(), candidates.clone()), candidates);
    assert!(select_new_badges(&held, Vec::new()).is_empty());
    assert!(select_new_badges(&held, held.clone()).is_empty());
}

#[test]
fn disconnecting_keeps_the_badges() {
    assert_eq!(disconnect_github(None, 5), Err("Profile not found".to_string()));
    let p = connect_github_oauth(None, &[7], data("octo"), vec![badge("b", "B", BadgeTier::Gold2)], 40);
    let updated = disconnect_github(Some(p.clone()), 60).unwrap();
    let mut expected = p;
    expected.github_connected = false;
    expected.github_data = None;
    expected.updated_at = 60;
    assert_eq!(updated, expected);
    assert_eq!(updated.github_username, "octo");
    assert_eq!(updated.reputation_score, 200);
}

#[test]
fn leaderboard_size_is_capped() {
    assert_eq!(leaderboard_size(None), 100);
    assert_eq!(leaderboard_size(Some(0)), 0);
    assert_eq!(leaderboard_size(Some(7)), 7);
    assert_eq!(leaderboard_size(Some(1000)), 1000);
    assert_eq!(leaderboard_size(Some(1001)), 1000);
    assert_eq!(leaderboard_size(Some(u32::MAX)), 1000);
}

#[test]
fn leaderboard_ranks_connected_profiles() {
    let profiles = vec![
        ranked(1, true, 50),
        ranked(2, false, 900),
        ranked(3, true, 70),
        ranked(4, true, 50),
        ranked(5, true, 0),
        ranked(6, true, 70),
        ranked(7, true, u64::MAX),
    ];
    let order = |board: Vec<UserProfile>| -> Vec<u8> {
        board.into_iter().map(|p| p.user_principal[0]).collect()
    };
    assert_eq!(order(get_leaderboard(profiles.clone(), None)), vec![7, 3, 6, 1, 4, 5]);
    assert_eq!(order(get_leaderboard(profiles.clone(), Some(3))), vec![7, 3, 6]);
    assert_eq!(order(get_leaderboard(profiles.clone(), Some(6))), vec![7, 3, 6, 1, 4, 5]);
    assert_eq!(order(get_leaderboard(profiles.clone(), Some(0))), Vec::<u8>::new());
    assert!(get_leaderboard(Vec::new(), None).is_empty());
    let mut expected = profiles.clone();
    expected.retain(|p| p.github_connected);
    expected.sort_by(|a, b| b.reputation_score.cmp(&a.reputation_score));
    assert_eq!(get_leaderboard(profiles, Some(1000)), expected);
}

#[test]
fn leaderboard_shows_a_hundred_by_default() {
    let mut profiles = Vec::new();
    for i in 0..250u64 {
        let mut p = ranked((i % 251) as u8, true, (i * 7919) % 101);
        p.created_at = i;
        profiles.push(p);
    }
    let mut expected = profiles.clone();
    expected.sort_by(|a, b| b.reputation_score.cmp(&a.reputation_score));
    let board = get_leaderboard(profiles.clone(), None);
    assert_eq!(board.len(), 100);
    assert_eq!(board, expected[..100].to_vec());
    assert_eq!(get_leaderboard(profiles, Some(5000)), expected);
}

#[test]
fn administrators_are_not_anonymous() {
    assert_eq!(is_admin(&[1, 2, 3]), Ok(()));
    assert_eq!(is_admin(&[]), Ok(()));
    assert_eq!(is_admin(&[4]), Err("Admin access required".to_string()));
}

#[test]
fn http_requests_get_the_same_answer() {
    let request = HttpRequest {
        method: "OPTIONS".to_string(),
        url: "/any".to_string(),
        headers: Vec::new(),
        body: vec![1],
    };
    let response = http_request(request);
    assert_eq!(response.status_code, 200);
    let headers: Vec<(&str, &str)> =
        response.headers.iter().map(|h| (h.name.as_str(), h.value.as_str())).collect();
    assert_eq!(
        headers,
        vec![
            ("Access-Control-Allow-Origin", "*"),
            ("Access-Control-Allow-Methods", "GET, POST, OPTIONS"),
            ("Access-Control-Allow-Headers", "Content-Type, Authorization"),
        ]
    );
    assert_eq!(response.body, "VeriFlair Backend API with GitHub Integration".as_bytes().to_vec());
}

#[test]
fn statistics_count_users_and_badges() {
    let counts = get_stats(&[]);
    assert_eq!(
        (
            counts.total_users,
            counts.github_connected_users,
            counts.total_badges_earned,
            counts.total_reputation
        ),
        (0, 0, 0, 0)
    );
    let mut a = ranked(1, true, 30);
    a.badges = vec![badge("a", "A", BadgeTier::Bronze3)];
    let mut b = ranked(2, false, u64::MAX);
    b.badges = vec![badge("a", "A", BadgeTier::Bronze3), badge("b", "B", BadgeTier::Gold1)];
    let c = ranked(3, true, 5);
    let counts = get_stats(&[a, b, c]);
    assert_eq!(counts.total_users, 3);
    assert_eq!(counts.github_connected_users, 2);
    assert_eq!(counts.total_badges_earned, 3);
    assert_eq!(counts.total_reputation, 34);
}

#[test]
fn badge_statistics_list_the_most_frequent_names() {
    assert!(get_badge_statistics(&[]).is_empty());
    let mut a = blank(&[1], 0);
    a.badges = vec![
        badge("x", "Polyglot", BadgeTier::Bronze1),
        badge("y", "Commit Master", BadgeTier::Bronze1),
    ];
    let mut b = blank(&[2], 0);
    b.badges = vec![
        badge("y", "Commit Master", BadgeTier::Gold1),
        badge("z", "Star Collector", BadgeTier::Gold1),
        badge("y", "Commit Master", BadgeTier::Gold1),
        badge("w", "Innovator", BadgeTier::Gold1),
        badge("z", "Star Collector", BadgeTier::Gold1),
    ];
    let c = blank(&[3], 0);
    assert_eq!(
        get_badge_statistics(&[a, b, c]),
        vec![
            ("Commit Master".to_string(), 3),
            ("Star Collector".to_string(), 2),
            ("Polyglot".to_string(), 1),
            ("Innovator".to_string(), 1),
        ]
    );
}

#[test]
fn badge_statistics_stop_at_twenty_names() {
    let mut p = blank(&[1], 0);
    for i in 0..30 {
        p.badges.push(badge("i", &format!("B{}", i), BadgeTier::Bronze1));
    }
    for i in 25..30 {
        p.badges.push(badge("i", &format!("B{}", i), BadgeTier::Bronze1));
    }
    let stats = get_badge_statistics(&[p]);
    assert_eq!(stats.len(), 20);
    let names: Vec<&str> = stats.iter().map(|s| s.0.as_str()).collect();
    assert_eq!(&names[..7], ["B25", "B26", "B27", "B28", "B29", "B0", "B1"]);
    assert_eq!(names[19], "B14");
    assert!(stats[..5].iter().all(|s| s.1 == 2));
    assert!(stats[5..].iter().all(|s| s.1 == 1));
}
