//! Requests to the code-hosting service, as values for the caller to send.
//!
//! Nothing is sent from here: each function says which request to make, and
//! how large an answer to accept.

use crate::models::{
    header_views, text_of, GitHubOAuthRequest, HttpRequest, HttpRequestView,
};
use crate::text::{alphanumeric, is_alphanumeric, join2, join3};
use vstd::prelude::*;
use vstd::string::*;
use vstd::utf8::encode_utf8;

verus! {

/// The credentials of the application at the code-hosting service.
#[derive(Clone, Debug, PartialEq, Eq)]
pub struct GitHubOAuthConfig {
    pub client_id: Option<String>,
    pub client_secret: Option<String>,
}

impl GitHubOAuthConfig {
    /// A configuration without credentials.
    pub fn new() -> (config: Self)
        ensures
            config.client_id is None,
            config.client_secret is None,
    {
        GitHubOAuthConfig { client_id: None, client_secret: None }
    }
}

/// Stores the credentials of the application.
pub fn set_github_oauth_config(
    config: &mut GitHubOAuthConfig,
    client_id: String,
    client_secret: String,
)
    ensures
        text_of(final(config).client_id) == Some(client_id@),
        text_of(final(config).client_secret) == Some(client_secret@),
{
    config.client_id = Some(client_id);
    config.client_secret = Some(client_secret);
}

/// A request to send, and the largest answer to accept, in bytes.
#[derive(Clone, Debug, PartialEq, Eq)]
pub struct OutgoingRequest {
    pub request: HttpRequest,
    pub max_response_bytes: u64,
}

/// The header that names this application.
pub open spec fn user_agent_header() -> (Seq<char>, Seq<char>) {
    ("User-Agent"@, "VeriFlair-ICP-Canister"@)
}

/// The header that asks for the service's JSON format.
pub open spec fn accept_api_header() -> (Seq<char>, Seq<char>) {
    ("Accept"@, "application/vnd.github.v3+json"@)
}

/// The header that carries an access token.
pub open spec fn bearer_header(access_token: Seq<char>) -> (Seq<char>, Seq<char>) {
    ("Authorization"@, "Bearer "@ + access_token)
}

fn header(name: &str, value: &str) -> (h: (String, String))
    ensures
        h.0@ == name@,
        h.1@ == value@,
{
    (String::from_str(name), String::from_str(value))
}

/// The form that exchanges an authorisation code for a token.
pub open spec fn token_exchange_form(
    client_id: Seq<char>,
    client_secret: Seq<char>,
    code: Seq<char>,
    state: Seq<char>,
) -> Seq<char> {
    "client_id="@ + client_id + "&client_secret="@ + client_secret + "&code="@ + code
        + "&state="@ + state
}

/// The request that exchanges an authorisation code for a token.
pub open spec fn token_exchange_request(
    client_id: Seq<char>,
    client_secret: Seq<char>,
    code: Seq<char>,
    state: Seq<char>,
) -> HttpRequestView {
    HttpRequestView {
        method: "POST"@,
        url: "https://github.com/login/oauth/access_token"@,
        headers: seq![
            ("Accept"@, "application/json"@),
            ("Content-Type"@, "application/x-www-form-urlencoded"@),
            user_agent_header(),
        ],
        body: encode_utf8(token_exchange_form(client_id, client_secret, code, state)),
    }
}

/// Builds the request that exchanges an authorisation code for an access
/// token. It fails where the application's identifier is not configured,
/// and else where its secret is not.
pub fn oauth_token_request(config: &GitHubOAuthConfig, oauth_request: &GitHubOAuthRequest) -> (r:
    Result<OutgoingRequest, String>)
    ensures
        r is Ok <==> config.client_id is Some && config.client_secret is Some,
        r matches Ok(out) ==> out.max_response_bytes == 8192 && out.request@
            == token_exchange_request(
            config.client_id->0@,
            config.client_secret->0@,
            oauth_request.code@,
            oauth_request.state@,
        ),
        r matches Err(e) ==> e@ == (if config.client_id is None {
            "GitHub client ID not configured"@
        } else {
            "GitHub client secret not configured"@
        }),
{
    let client_id = match &config.client_id {
        Some(id) => id,
        None => {
            return Err(String::from_str("GitHub client ID not configured"));
        },
    };
    let client_secret = match &config.client_secret {
        Some(secret) => secret,
        None => {
            return Err(String::from_str("GitHub client secret not configured"));
        },
    };
    let mut form = join4_owned("client_id=", client_id, "&client_secret=", client_secret);
    form.append("&code=");
    form.append(oauth_request.code.as_str());
    form.append("&state=");
    form.append(oauth_request.state.as_str());
    let mut headers: Vec<(String, String)> = Vec::new();
    headers.push(header("Accept", "application/json"));
    headers.push(header("Content-Type", "application/x-www-form-urlencoded"));
    headers.push(header("User-Agent", "VeriFlair-ICP-Canister"));
    let request = HttpRequest {
        method: String::from_str("POST"),
        url: String::from_str("https://github.com/login/oauth/access_token"),
        headers,
        body: form.as_str().as_bytes_vec(),
    };
    assert(header_views(request.headers@) =~= seq![
        ("Accept"@, "application/json"@),
        ("Content-Type"@, "application/x-www-form-urlencoded"@),
        user_agent_header(),
    ]);
    Ok(OutgoingRequest { request, max_response_bytes: 8192 })
}

fn join4_owned(a: &str, b: &String, c: &str, d: &String) -> (s: String)
    ensures
        s@ == a@ + b@ + c@ + d@,
{
    let mut s = join2(a, b.as_str());
    s.append(c);
    s.append(d.as_str());
    s
}

/// The request for the profile of the account that an access token belongs
/// to.
pub open spec fn user_profile_request_view(access_token: Seq<char>) -> HttpRequestView {
    HttpRequestView {
        method: "GET"@,
        url: "https://api.github.com/user"@,
        headers: seq![bearer_header(access_token), accept_api_header(), user_agent_header()],
        body: seq![],
    }
}

/// Builds the request for the profile of the account that the access token
/// belongs to.
pub fn user_profile_request(access_token: &str) -> (out: OutgoingRequest)
    ensures
        out.request@ == user_profile_request_view(access_token@),
        out.max_response_bytes == 16384,
{
    let mut headers: Vec<(String, String)> = Vec::new();
    headers.push((String::from_str("Authorization"), join2("Bearer ", access_token)));
    headers.push(header("Accept", "application/vnd.github.v3+json"));
    headers.push(header("User-Agent", "VeriFlair-ICP-Canister"));
    let request = HttpRequest {
        method: String::from_str("GET"),
        url: String::from_str("https://api.github.com/user"),
        headers,
        body: Vec::new(),
    };
    assert(header_views(request.headers@) =~= seq![
        bearer_header(access_token@),
        accept_api_header(),
        user_agent_header(),
    ]);
    assert(request.body@ =~= seq![]);
    OutgoingRequest { request, max_response_bytes: 16384 }
}

/// The request for the repositories of an account, with the access token
/// where there is one.
pub open spec fn repositories_request_view(
    username: Seq<char>,
    access_token: Option<Seq<char>>,
) -> HttpRequestView {
    HttpRequestView {
        method: "GET"@,
        url: "https://api.github.com/users/"@ + username
            + "/repos?type=all&sort=updated&per_page=100"@,
        headers: match access_token {
            Some(token) => seq![accept_api_header(), user_agent_header(), bearer_header(token)],
            None => seq![accept_api_header(), user_agent_header()],
        },
        body: seq![],
    }
}

/// Builds the request for the repositories of an account: the hundred most
/// recently updated ones.
pub fn repositories_request(username: &str, access_token: Option<&str>) -> (out: OutgoingRequest)
    ensures
        out.request@ == repositories_request_view(
            username@,
            match access_token {
                Some(token) => Some(token@),
                None => None,
            },
        ),
        out.max_response_bytes == 65536,
{
    let mut headers: Vec<(String, String)> = Vec::new();
    headers.push(header("Accept", "application/vnd.github.v3+json"));
    headers.push(header("User-Agent", "VeriFlair-ICP-Canister"));
    match access_token {
        Some(token) => {
            headers.push((String::from_str("Authorization"), join2("Bearer ", token)));
            assert(header_views(headers@) =~= seq![
                accept_api_header(),
                user_agent_header(),
                bearer_header(token@),
            ]);
        },
        None => {
            assert(header_views(headers@) =~= seq![accept_api_header(), user_agent_header()]);
        },
    }
    let request = HttpRequest {
        method: String::from_str("GET"),
        url: join3(
            "https://api.github.com/users/",
            username,
            "/repos?type=all&sort=updated&per_page=100",
        ),
        headers,
        body: Vec::new(),
    };
    assert(request.body@ =~= seq![]);
    OutgoingRequest { request, max_response_bytes: 65536 }
}

/// Whether a text has the form of an account name: between 1 and 39 bytes
/// in UTF-8, each character alphanumeric or a hyphen.
pub open spec fn username_form(username: Seq<char>) -> bool {
    &&& 0 < encode_utf8(username).len() <= 39
    &&& forall|i: int|
        0 <= i < username.len() ==> alphanumeric(#[trigger] username[i]) || username[i] == '-'
}

/// Whether a text has the form of an account name.
pub fn has_username_form(username: &str) -> (r: bool)
    ensures
        r == username_form(username@),
{
    let bytes: usize = username.as_bytes().len();
    if bytes == 0 || bytes > 39 {
        return false;
    }
    let n: usize = username.unicode_len();
    let mut i: usize = 0;
    while i < n
        invariant
            i <= n == username@.len(),
            0 < encode_utf8(username@).len() <= 39,
            forall|k: int|
                0 <= k < i ==> alphanumeric(#[trigger] username@[k]) || username@[k] == '-',
        decreases n - i,
    {
        let c: char = username.get_char(i);
        if !(is_alphanumeric(c) || c == '-') {
            return false;
        }
        i = i + 1;
    }
    true
}

/// The request that looks an account up by its name.
pub open spec fn username_request_view(username: Seq<char>) -> HttpRequestView {
    HttpRequestView {
        method: "GET"@,
        url: "https://api.github.com/users/"@ + username,
        headers: seq![user_agent_header()],
        body: seq![],
    }
}

/// Builds the request that looks an account up by its name, or nothing where
/// the name cannot be one: such a name is invalid without asking.
pub fn username_request(username: &str) -> (r: Option<OutgoingRequest>)
    ensures
        r is Some <==> username_form(username@),
        r matches Some(out) ==> out.request@ == username_request_view(username@)
            && out.max_response_bytes == 4096,
{
    if !has_username_form(username) {
        return None;
    }
    let mut headers: Vec<(String, String)> = Vec::new();
    headers.push(header("User-Agent", "VeriFlair-ICP-Canister"));
    let request = HttpRequest {
        method: String::from_str("GET"),
        url: join2("https://api.github.com/users/", username),
        headers,
        body: Vec::new(),
    };
    assert(header_views(request.headers@) =~= seq![user_agent_header()]);
    assert(request.body@ =~= seq![]);
    Some(OutgoingRequest { request, max_response_bytes: 4096 })
}

/// The error for an answer of the service with a status other than 200.
pub fn api_failure(status: &str) -> (e: String)
    ensures
        e@ == "GitHub API request failed with status: "@ + status@,
{
    join2("GitHub API request failed with status: ", status)
}

/// The error for an answer to the token exchange with a status other than
/// 200.
pub fn oauth_failure(status: &str) -> (e: String)
    ensures
        e@ == "GitHub OAuth failed with status: "@ + status@,
{
    join2("GitHub OAuth failed with status: ", status)
}

} // verus!
