use veriflair::llm::{
    answer_content_of, azure_chat_request, azure_is_configured, parse_azure_openai_response,
    read_answer_content, set_azure_openai_config, set_llm_config, AssessmentAnswer,
    AzureOpenAIConfig, FALLBACK_CODE_QUALITY, FALLBACK_COMMUNITY_IMPACT, FALLBACK_CONSISTENCY,
    FALLBACK_INNOVATION, FALLBACK_TECHNICAL_BREADTH, SUMMARY_LENGTH,
};
use veriflair::models::GitHubOAuthRequest;
use veriflair::requests::{
    api_failure, has_username_form, oauth_failure, oauth_token_request, repositories_request,
    set_github_oauth_config, user_profile_request, username_request, GitHubOAuthConfig,
};

fn pair(name: &str, value: &str) -> (String, String) {
    (name.to_string(), value.to_string())
}

#[test]
fn oauth_config_is_stored() {
    let mut config = GitHubOAuthConfig::new();
    assert_eq!(config.client_id, None);
    assert_eq!(config.client_secret, None);
    set_github_oauth_config(&mut config, "id-1".to_string(), "s3".to_string());
    assert_eq!(config.client_id.as_deref(), Some("id-1"));
    assert_eq!(config.client_secret.as_deref(), Some("s3"));
    set_github_oauth_config(&mut config, "id-2".to_string(), String::new());
    assert_eq!(config.client_id.as_deref(), Some("id-2"));
    assert_eq!(config.client_secret.as_deref(), Some(""));
}

#[test]
fn token_exchange_needs_both_credentials() {
    let request = GitHubOAuthRequest { code: "c0de".to_string(), state: "st".to_string() };
    let mut config = GitHubOAuthConfig::new();
    assert_eq!(
        oauth_token_request(&config, &request),
        Err("GitHub client ID not configured".to_string())
    );
    config.client_secret = Some("s".to_string());
    assert_eq!(
        oauth_token_request(&config, &request),
        Err("GitHub client ID not configured".to_string())
    );
    config.client_secret = None;
    config.client_id = Some("i".to_string());
    assert_eq!(
        oauth_token_request(&config, &request),
        Err("GitHub client secret not configured".to_string())
    );
}

#[test]
fn token_exchange_request_carries_the_form() {
    let request = GitHubOAuthRequest { code: "c0de".to_string(), state: "st".to_string() };
    let mut config = GitHubOAuthConfig::new();
    set_github_oauth_config(&mut config, "me".to_string(), "hush".to_string());
    let out = oauth_token_request(&config, &request).unwrap();
    assert_eq!(out.max_response_bytes, 8192);
    assert_eq!(out.request.method, "POST");
    assert_eq!(out.request.url, "https://github.com/login/oauth/access_token");
    assert_eq!(
        out.request.headers,
        vec![
            pair("Accept", "application/json"),
            pair("Content-Type", "application/x-www-form-urlencoded"),
            pair("User-Agent", "VeriFlair-ICP-Canister"),
        ]
    );
    assert_eq!(
        out.request.body,
        "client_id=me&client_secret=hush&code=c0de&state=st".as_bytes().to_vec()
    );
}

#[test]
fn profile_request_carries_the_token() {
    let out = user_profile_request("t0k");
    assert_eq!(out.max_response_bytes, 16384);
    assert_eq!(out.request.method, "GET");
    assert_eq!(out.request.url, "https://api.github.com/user");
    assert_eq!(
        out.request.headers,
        vec![
            pair("Authorization", "Bearer t0k"),
            pair("Accept", "application/vnd.github.v3+json"),
            pair("User-Agent", "VeriFlair-ICP-Canister"),
        ]
    );
    assert!(out.request.body.is_empty());
}

#[test]
fn repositories_request_with_and_without_token() {
    let out = repositories_request("octo", None);
    assert_eq!(out.max_response_bytes, 65536);
    assert_eq!(out.request.method, "GET");
    assert_eq!(
        out.request.url,
        "https://api.github.com/users/octo/repos?type=all&sort=updated&per_page=100"
    );
    assert_eq!(
        out.request.headers,
        vec![
            pair("Accept", "application/vnd.github.v3+json"),
            pair("User-Agent", "VeriFlair-ICP-Canister"),
        ]
    );
    assert!(out.request.body.is_empty());
    let out = repositories_request("octo", Some("abc"));
    assert_eq!(
        out.request.headers,
        vec![
            pair("Accept", "application/vnd.github.v3+json"),
            pair("User-Agent", "VeriFlair-ICP-Canister"),
            pair("Authorization", "Bearer abc"),
        ]
    );
}

#[test]
fn usernames_have_a_form() {
    for name in ["a", "octo-cat", "A1", "-", "x".repeat(39).as_str(), "ünï", "名前"] {
        assert!(has_username_form(name), "{:?}", name);
    }
    for name in ["", "x".repeat(40).as_str(), "a b", "a_b", "a.b", "a/b", "é".repeat(20).as_str()] {
        assert!(!has_username_form(name), "{:?}", name);
    }
}

#[test]
fn username_lookup_is_skipped_for_a_bad_name() {
    assert_eq!(username_request(""), None);
    assert_eq!(username_request("no spaces"), None);
    let out = username_request("octo-cat").unwrap();
    assert_eq!(out.max_response_bytes, 4096);
    assert_eq!(out.request.method, "GET");
    assert_eq!(out.request.url, "https://api.github.com/users/octo-cat");
    assert_eq!(out.request.headers, vec![pair("User-Agent", "VeriFlair-ICP-Canister")]);
    assert!(out.request.body.is_empty());
}

#[test]
fn failures_name_the_status() {
    assert_eq!(api_failure("404"), "GitHub API request failed with status: 404");
    assert_eq!(oauth_failure("500"), "GitHub OAuth failed with status: 500");
}

#[test]
fn azure_config_starts_with_defaults() {
    let config = AzureOpenAIConfig::new();
    assert_eq!(config.api_key, None);
    assert_eq!(config.endpoint, "");
    assert_eq!(config.deployment, "gpt-35-turbo");
    assert_eq!(config.api_version, "2025-01-01-preview");
    assert!(!azure_is_configured(&config));
}

#[test]
fn azure_config_is_stored() {
    let mut config = AzureOpenAIConfig::new();
    set_azure_openai_config(&mut config, "k".to_string(), "https://e".to_string(), None, None);
    assert_eq!(config.api_key.as_deref(), Some("k"));
    assert_eq!(config.endpoint, "https://e");
    assert_eq!(config.deployment, "gpt-35-turbo");
    assert_eq!(config.api_version, "2025-01-01-preview");
    assert!(azure_is_configured(&config));
    set_azure_openai_config(
        &mut config,
        "k2".to_string(),
        String::new(),
        Some("gpt-4".to_string()),
        Some("v9".to_string()),
    );
    assert_eq!(config.api_key.as_deref(), Some("k2"));
    assert_eq!(config.endpoint, "");
    assert_eq!(config.deployment, "gpt-4");
    assert_eq!(config.api_version, "v9");
    assert!(!azure_is_configured(&config));
}

#[test]
fn llm_config_takes_an_azure_address_only() {
    let mut config = AzureOpenAIConfig::new();
    set_llm_config(&mut config, "k".to_string(), Some("https://api.openai.com".to_string()));
    assert_eq!(config.api_key.as_deref(), Some("k"));
    assert_eq!(config.endpoint, "");
    set_llm_config(&mut config, "k2".to_string(), Some("https://x.azure.com".to_string()));
    assert_eq!(config.api_key.as_deref(), Some("k2"));
    assert_eq!(config.endpoint, "https://x.azure.com");
    set_llm_config(&mut config, "k3".to_string(), None);
    assert_eq!(config.api_key.as_deref(), Some("k3"));
    assert_eq!(config.endpoint, "https://x.azure.com");
    set_llm_config(&mut config, "k4".to_string(), Some("https://x.Azure.com".to_string()));
    assert_eq!(config.endpoint, "https://x.azure.com");
    assert_eq!(config.deployment, "gpt-35-turbo");
    assert_eq!(config.api_version, "2025-01-01-preview");
}

#[test]
fn chat_request_needs_a_configuration() {
    let mut config = AzureOpenAIConfig::new();
    assert_eq!(azure_chat_request(&config, vec![1, 2]), None);
    config.api_key = Some("key".to_string());
    assert_eq!(azure_chat_request(&config, vec![1, 2]), None);
    config.endpoint = "https://e.azure.com".to_string();
    let out = azure_chat_request(&config, vec![1, 2]).unwrap();
    assert_eq!(out.max_response_bytes, 4096);
    assert_eq!(out.request.method, "POST");
    assert_eq!(
        out.request.url,
        "https://e.azure.com/openai/deployments/gpt-35-turbo/chat/completions?api-version=2025-01-01-preview"
    );
    assert_eq!(
        out.request.headers,
        vec![pair("api-key", "key"), pair("Content-Type", "application/json")]
    );
    assert_eq!(out.request.body, vec![1, 2]);
    config.api_key = None;
    assert_eq!(azure_chat_request(&config, Vec::new()), None);
}

fn value(text: &str) -> serde_json::Value {
    serde_json::from_str(text).unwrap()
}

fn texts(items: &[&str]) -> Vec<String> {
    items.iter().map(|s| s.to_string()).collect()
}

fn answer_with(content: &str) -> String {
    let mut message = serde_json::Map::new();
    message.insert("content".to_string(), content.into());
    let mut choice = serde_json::Map::new();
    choice.insert("message".to_string(), message.into());
    let mut answer = serde_json::Map::new();
    answer.insert("choices".to_string(), vec![choice].into());
    serde_json::Value::Object(answer).to_string()
}

#[test]
fn fallback_scores() {
    assert_eq!(
        (
            FALLBACK_CODE_QUALITY,
            FALLBACK_CONSISTENCY,
            FALLBACK_COMMUNITY_IMPACT,
            FALLBACK_TECHNICAL_BREADTH,
            FALLBACK_INNOVATION,
            SUMMARY_LENGTH
        ),
        (75, 70, 65, 80, 70, 200)
    );
}

#[test]
fn content_is_the_first_choice() {
    let answer = value(r#"{"choices": [{"message": {"content": "one"}}, {"message": {"content": "two"}}]}"#);
    assert_eq!(answer_content_of(&answer), Some("one".to_string()));
    for text in [
        "{}",
        "[]",
        r#"{"choices": []}"#,
        r#"{"choices": {"message": {"content": "x"}}}"#,
        r#"{"choices": [{"message": {"content": 5}}]}"#,
        r#"{"choices": [{"message": "content"}]}"#,
        r#"{"choices": [{"content": "x"}]}"#,
    ] {
        assert_eq!(answer_content_of(&value(text)), None, "{}", text);
    }
}

#[test]
fn content_that_is_json_gives_the_lists() {
    let content = r#"{
        "code_quality_score": 91.5,
        "expertise_areas": ["Rust", 7, "Systems", null, ["x"]],
        "recommended_badges": "none",
        "analysis_summary": "solid",
        "strengths": [],
        "improvement_areas": ["tests"]
    }"#;
    let answer = read_answer_content(content);
    assert_eq!(
        answer,
        AssessmentAnswer {
            document: Some(value(content)),
            expertise_areas: texts(&["Rust", "Systems"]),
            recommended_badges: Vec::new(),
            analysis_summary: "solid".to_string(),
            strengths: Vec::new(),
            improvement_areas: texts(&["tests"]),
        }
    );
    let bare = read_answer_content("[1, 2]");
    assert_eq!(bare.document, Some(value("[1, 2]")));
    assert_eq!(bare.analysis_summary, "Azure OpenAI analysis completed");
    assert!(bare.expertise_areas.is_empty());
    assert!(bare.improvement_areas.is_empty());
}

#[test]
fn content_that_is_no_json_gives_the_standing_lists() {
    let answer = read_answer_content("The developer is fine.");
    assert_eq!(
        answer,
        AssessmentAnswer {
            document: None,
            expertise_areas: texts(&["General Development"]),
            recommended_badges: texts(&["Developer"]),
            analysis_summary: "The developer is fine.".to_string(),
            strengths: texts(&["Active contributor"]),
            improvement_areas: texts(&["Expand skill diversity"]),
        }
    );
    let long: String = "é".repeat(150) + &"x".repeat(100);
    let expected: String = long.chars().take(200).collect();
    assert_eq!(read_answer_content(&long).analysis_summary, expected);
    let exact: String = "y".repeat(200);
    assert_eq!(read_answer_content(&exact).analysis_summary, exact);
    assert_eq!(read_answer_content("").analysis_summary, "");
}

#[test]
fn answers_are_read_or_refused() {
    let read = parse_azure_openai_response(&answer_with(r#"{"strengths": ["a", "b"]}"#)).unwrap();
    assert_eq!(read.strengths, texts(&["a", "b"]));
    assert_eq!(read.document, Some(value(r#"{"strengths": ["a", "b"]}"#)));
    let plain = parse_azure_openai_response(&answer_with("plain words")).unwrap();
    assert_eq!(plain.document, None);
    assert_eq!(plain.analysis_summary, "plain words");
    assert_eq!(
        parse_azure_openai_response(r#"{"choices": []}"#),
        Err("No content in Azure OpenAI response".to_string())
    );
    assert_eq!(
        parse_azure_openai_response("17"),
        Err("No content in Azure OpenAI response".to_string())
    );
    for text in ["", "{", "not json"] {
        let words = serde_json::from_str::<serde_json::Value>(text).unwrap_err().to_string();
        assert_eq!(
            parse_azure_openai_response(text),
            Err(format!("Failed to parse Azure OpenAI response JSON: {}", words))
        );
    }
}
