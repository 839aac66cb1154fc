use veriflair::json::{
    github_user_from_json, parse_github_user, parse_repositories, repositories_from_json,
    repository_from_json,
};
use veriflair::models::{GitHubData, Repository};

const USER: &str = r#"{
  "login": "octo",
  "name": "The Octo",
  "avatar_url": "https://a/1.png",
  "bio": null,
  "public_repos": 12,
  "followers": 4294967298,
  "following": "many",
  "created_at": "2015-01-01T00:00:00Z",
  "updated_at": "2024-02-02T00:00:00Z",
  "extra": [1, 2]
}"#;

const REPOS: &str = r#"[
  {
    "name": "one", "full_name": "octo/one", "description": "first",
    "language": "Rust", "stargazers_count": 5, "forks_count": 2, "size": 1200,
    "fork": false, "private": true,
    "created_at": "2016", "updated_at": "2024", "pushed_at": "2024-01"
  },
  { "name": 7, "language": null, "fork": "yes", "size": -3, "stargazers_count": 1.5 },
  "not an object",
  {}
]"#;

fn empty_repository() -> Repository {
    Repository {
        name: String::new(),
        full_name: String::new(),
        description: None,
        language: None,
        stars: 0,
        forks: 0,
        size: 0,
        is_fork: false,
        is_private: false,
        created_at: String::new(),
        updated_at: String::new(),
        pushed_at: String::new(),
        commits_count: None,
    }
}

#[test]
fn profile_is_read_from_json() {
    let expected = GitHubData {
        login: "octo".to_string(),
        name: Some("The Octo".to_string()),
        avatar_url: "https://a/1.png".to_string(),
        bio: None,
        public_repos: 12,
        followers: 2,
        following: 0,
        created_at: "2015-01-01T00:00:00Z".to_string(),
        updated_at: "2024-02-02T00:00:00Z".to_string(),
    };
    assert_eq!(parse_github_user(USER), Ok(expected.clone()));
    let value = serde_json::from_str::<serde_json::Value>(USER).unwrap();
    assert_eq!(github_user_from_json(&value), expected);
}

#[test]
fn profile_of_any_json_value_has_defaults() {
    let blank = GitHubData {
        login: String::new(),
        name: None,
        avatar_url: String::new(),
        bio: None,
        public_repos: 0,
        followers: 0,
        following: 0,
        created_at: String::new(),
        updated_at: String::new(),
    };
    for text in ["{}", "[]", "null", "17", "\"login\"", "[{\"login\": \"x\"}]"] {
        assert_eq!(parse_github_user(text), Ok(blank.clone()), "{}", text);
    }
}

#[test]
fn profile_needs_json() {
    for text in ["", "{", "{\"login\": }", "login"] {
        let words = serde_json::from_str::<serde_json::Value>(text).unwrap_err().to_string();
        assert_eq!(
            parse_github_user(text),
            Err(format!("Failed to parse user JSON: {}", words)),
            "{}",
            text
        );
    }
}

#[test]
fn repositories_are_read_from_json() {
    let first = Repository {
        name: "one".to_string(),
        full_name: "octo/one".to_string(),
        description: Some("first".to_string()),
        language: Some("Rust".to_string()),
        stars: 5,
        forks: 2,
        size: 1200,
        is_fork: false,
        is_private: true,
        created_at: "2016".to_string(),
        updated_at: "2024".to_string(),
        pushed_at: "2024-01".to_string(),
        commits_count: None,
    };
    let expected = vec![first.clone(), empty_repository(), empty_repository(), empty_repository()];
    assert_eq!(parse_repositories(REPOS), Ok(expected.clone()));
    let value = serde_json::from_str::<serde_json::Value>(REPOS).unwrap();
    assert_eq!(repositories_from_json(&value), Ok(expected));
    assert_eq!(repository_from_json(&value[0]), first);
    assert_eq!(repository_from_json(&value[2]), empty_repository());
    assert_eq!(parse_repositories("[]"), Ok(Vec::new()));
}

#[test]
fn repository_counts_are_kept_to_32_bits() {
    let value: serde_json::Value = serde_json::from_str(
        r#"{"stargazers_count": 4294967295, "forks_count": 4294967296, "size": 18446744073709551615, "fork": true}"#,
    )
    .unwrap();
    let r = repository_from_json(&value);
    assert_eq!(r.stars, u32::MAX);
    assert_eq!(r.forks, 0);
    assert_eq!(r.size, u32::MAX);
    assert!(r.is_fork);
    assert!(!r.is_private);
}

#[test]
fn repositories_need_a_json_array() {
    for text in ["{}", "null", "5", "\"[]\"", "{\"0\": {}}"] {
        assert_eq!(
            parse_repositories(text),
            Err("Expected array of repositories".to_string()),
            "{}",
            text
        );
    }
    for text in ["", "[", "[{]"] {
        let words = serde_json::from_str::<serde_json::Value>(text).unwrap_err().to_string();
        assert_eq!(
            parse_repositories(text),
            Err(format!("Failed to parse repositories JSON: {}", words)),
            "{}",
            text
        );
    }
}
