//! Answers of the code-hosting service: JSON documents read into profiles
//! and repositories.
//!
//! The documents are parsed by serde_json. What the parser and the
//! accessors of its values return is named here, not restated; the rules for
//! missing members, defaults and number widths are this module's own.

use crate::models::{text_of, views, GitHubData, GitHubDataView, Repository, RepositoryView};
use crate::text::join2;
use vstd::prelude::*;
use vstd::string::*;

verus! {

/// Declares `serde_json::Value`, a JSON value, as a type that is carried
/// through: nothing is known of what it holds but what the accessors
/// return.
#[verifier::external_type_specification]
#[verifier::external_body]
pub struct ExValue(serde_json::Value);

/// Declares `serde_json::Error`, the error of the parser, as a type that is
/// carried through.
#[verifier::external_type_specification]
#[verifier::external_body]
pub struct ExError(serde_json::Error);

/// What `serde_json::from_str` returns for a text read as a JSON value.
pub uninterp spec fn json_document(text: Seq<char>) -> Result<serde_json::Value, serde_json::Error>;

/// The text that the `Display` of a parse error gives.
pub uninterp spec fn json_error_text(error: serde_json::Error) -> Seq<char>;

/// The string that a value holds under a key: what `as_str` returns for the
/// value indexed by the key.
pub uninterp spec fn member_text(value: serde_json::Value, key: Seq<char>) -> Option<Seq<char>>;

/// The number that a value holds under a key: what `as_u64` returns for the
/// value indexed by the key.
pub uninterp spec fn member_number(value: serde_json::Value, key: Seq<char>) -> Option<u64>;

/// The flag that a value holds under a key: what `as_bool` returns for the
/// value indexed by the key.
pub uninterp spec fn member_flag(value: serde_json::Value, key: Seq<char>) -> Option<bool>;

/// The items of a value that is an array: what `as_array` returns for it.
pub uninterp spec fn array_items(value: serde_json::Value) -> Option<Seq<serde_json::Value>>;

/// The value that a value holds under a key: what indexing by the key
/// returns.
pub uninterp spec fn json_member(value: serde_json::Value, key: Seq<char>) -> serde_json::Value;

/// The value that a value holds at a position: what indexing by the
/// position returns.
pub uninterp spec fn json_item(value: serde_json::Value, position: nat) -> serde_json::Value;

/// The string that a value is: what `as_str` returns for it.
pub uninterp spec fn json_text(value: serde_json::Value) -> Option<Seq<char>>;

/// Indexes a `Value` by a key and copies what is found. The contract only
/// gives the result its name, `json_member`.
#[verifier::external_body]
pub(crate) fn member_of(value: &serde_json::Value, key: &str) -> (r: serde_json::Value)
    ensures
        r == json_member(*value, key@),
{
    value[key].clone()
}

/// Indexes a `Value` by a position and copies what is found. The contract
/// only gives the result its name, `json_item`.
#[verifier::external_body]
pub(crate) fn item_of(value: &serde_json::Value, position: usize) -> (r: serde_json::Value)
    ensures
        r == json_item(*value, position as nat),
{
    value[position].clone()
}

/// Calls `as_str` on a `Value`, copying the string. The contract only gives
/// the result its name, `json_text`.
#[verifier::external_body]
pub(crate) fn text_of_value(value: &serde_json::Value) -> (r: Option<String>)
    ensures
        text_of(r) == json_text(*value),
{
    value.as_str().map(|s| s.to_string())
}

/// Calls `serde_json::from_str` for a `Value`. The contract only gives the
/// result its name, `json_document`.
#[verifier::external_body]
pub(crate) fn parse_document(text: &str) -> (r: Result<serde_json::Value, serde_json::Error>)
    ensures
        r == json_document(text@),
{
    serde_json::from_str(text)
}

/// Calls `to_string` on a parse error of serde_json, which goes by its
/// `Display`. The contract only gives the text its name, `json_error_text`.
#[verifier::external_body]
pub(crate) fn error_text(error: &serde_json::Error) -> (text: String)
    ensures
        text@ == json_error_text(*error),
{
    error.to_string()
}

/// Indexes a `Value` by a key and calls `as_str` on what is found, copying
/// the string. The contract only gives the result its name, `member_text`.
#[verifier::external_body]
pub(crate) fn text_member(value: &serde_json::Value, key: &str) -> (r: Option<String>)
    ensures
        text_of(r) == member_text(*value, key@),
{
    value[key].as_str().map(|s| s.to_string())
}

/// Indexes a `Value` by a key and calls `as_u64` on what is found. The
/// contract only gives the result its name, `member_number`.
#[verifier::external_body]
fn number_member(value: &serde_json::Value, key: &str) -> (r: Option<u64>)
    ensures
        r == member_number(*value, key@),
{
    value[key].as_u64()
}

/// Indexes a `Value` by a key and calls `as_bool` on what is found. The
/// contract only gives the result its name, `member_flag`.
#[verifier::external_body]
fn flag_member(value: &serde_json::Value, key: &str) -> (r: Option<bool>)
    ensures
        r == member_flag(*value, key@),
{
    value[key].as_bool()
}

/// Calls `as_array` on a `Value` and copies the items. The contract only
/// gives the result its name, `array_items`.
#[verifier::external_body]
pub(crate) fn items_of(value: &serde_json::Value) -> (r: Option<Vec<serde_json::Value>>)
    ensures
        r is Some <==> array_items(*value) is Some,
        r matches Some(items) ==> Some(items@) == array_items(*value),
{
    value.as_array().cloned()
}

/// The string under a key, or the empty text where there is none.
pub open spec fn text_or_empty(value: serde_json::Value, key: Seq<char>) -> Seq<char> {
    match member_text(value, key) {
        Some(text) => text,
        None => Seq::empty(),
    }
}

/// The number under a key kept to 32 bits, or zero where there is none.
pub open spec fn count_or_zero(value: serde_json::Value, key: Seq<char>) -> u32 {
    match member_number(value, key) {
        Some(n) => (n % 0x1_0000_0000) as u32,
        None => 0,
    }
}

/// The flag under a key, or `false` where there is none.
pub open spec fn flag_or_false(value: serde_json::Value, key: Seq<char>) -> bool {
    match member_flag(value, key) {
        Some(flag) => flag,
        None => false,
    }
}

fn text_or_empty_of(value: &serde_json::Value, key: &str) -> (text: String)
    ensures
        text@ == text_or_empty(*value, key@),
{
    match text_member(value, key) {
        Some(text) => text,
        None => String::new(),
    }
}

fn count_or_zero_of(value: &serde_json::Value, key: &str) -> (n: u32)
    ensures
        n == count_or_zero(*value, key@),
{
    match number_member(value, key) {
        Some(n) => (n % 0x1_0000_0000) as u32,
        None => 0,
    }
}

fn flag_or_false_of(value: &serde_json::Value, key: &str) -> (flag: bool)
    ensures
        flag == flag_or_false(*value, key@),
{
    match flag_member(value, key) {
        Some(flag) => flag,
        None => false,
    }
}

/// The profile that a JSON value describes. A text that is missing is
/// empty, or absent where the profile may lack it; a count that is missing
/// is zero.
pub open spec fn github_user_of(user: serde_json::Value) -> GitHubDataView {
    GitHubDataView {
        login: text_or_empty(user, "login"@),
        name: member_text(user, "name"@),
        avatar_url: text_or_empty(user, "avatar_url"@),
        bio: member_text(user, "bio"@),
        public_repos: count_or_zero(user, "public_repos"@),
        followers: count_or_zero(user, "followers"@),
        following: count_or_zero(user, "following"@),
        created_at: text_or_empty(user, "created_at"@),
        updated_at: text_or_empty(user, "updated_at"@),
    }
}

/// Reads a profile from a JSON value.
pub fn github_user_from_json(user: &serde_json::Value) -> (data: GitHubData)
    ensures
        data@ == github_user_of(*user),
{
    GitHubData {
        login: text_or_empty_of(user, "login"),
        name: text_member(user, "name"),
        avatar_url: text_or_empty_of(user, "avatar_url"),
        bio: text_member(user, "bio"),
        public_repos: count_or_zero_of(user, "public_repos"),
        followers: count_or_zero_of(user, "followers"),
        following: count_or_zero_of(user, "following"),
        created_at: text_or_empty_of(user, "created_at"),
        updated_at: text_or_empty_of(user, "updated_at"),
    }
}

/// Reads a profile from a JSON text. It fails where the text is no JSON
/// value, with the parser's words.
pub fn parse_github_user(json_str: &str) -> (r: Result<GitHubData, String>)
    ensures
        r is Ok <==> json_document(json_str@) is Ok,
        r matches Ok(data) ==> data@ == github_user_of(json_document(json_str@)->Ok_0),
        r matches Err(e) ==> e@ == "Failed to parse user JSON: "@ + json_error_text(
            json_document(json_str@)->Err_0,
        ),
{
    match parse_document(json_str) {
        Ok(user) => Ok(github_user_from_json(&user)),
        Err(error) => {
            let words = error_text(&error);
            Err(join2("Failed to parse user JSON: ", words.as_str()))
        },
    }
}

/// The repository that a JSON value describes. A text that is missing is
/// empty, or absent where the repository may lack it; a count that is
/// missing is zero and a flag that is missing is off. The number of commits
/// is not known.
pub open spec fn repository_of(repo: serde_json::Value) -> RepositoryView {
    RepositoryView {
        name: text_or_empty(repo, "name"@),
        full_name: text_or_empty(repo, "full_name"@),
        description: member_text(repo, "description"@),
        language: member_text(repo, "language"@),
        stars: count_or_zero(repo, "stargazers_count"@),
        forks: count_or_zero(repo, "forks_count"@),
        size: count_or_zero(repo, "size"@),
        is_fork: flag_or_false(repo, "fork"@),
        is_private: flag_or_false(repo, "private"@),
        created_at: text_or_empty(repo, "created_at"@),
        updated_at: text_or_empty(repo, "updated_at"@),
        pushed_at: text_or_empty(repo, "pushed_at"@),
        commits_count: None,
    }
}

/// Reads a repository from a JSON value.
pub fn repository_from_json(repo: &serde_json::Value) -> (repository: Repository)
    ensures
        repository@ == repository_of(*repo),
{
    Repository {
        name: text_or_empty_of(repo, "name"),
        full_name: text_or_empty_of(repo, "full_name"),
        description: text_member(repo, "description"),
        language: text_member(repo, "language"),
        stars: count_or_zero_of(repo, "stargazers_count"),
        forks: count_or_zero_of(repo, "forks_count"),
        size: count_or_zero_of(repo, "size"),
        is_fork: flag_or_false_of(repo, "fork"),
        is_private: flag_or_false_of(repo, "private"),
        created_at: text_or_empty_of(repo, "created_at"),
        updated_at: text_or_empty_of(repo, "updated_at"),
        pushed_at: text_or_empty_of(repo, "pushed_at"),
        commits_count: None,
    }
}

/// The repositories that the items of an array describe, in their order.
pub open spec fn repositories_of(items: Seq<serde_json::Value>) -> Seq<RepositoryView> {
    Seq::new(items.len(), |i: int| repository_of(items[i]))
}

/// Reads the repositories from a JSON value, which must be an array.
pub fn repositories_from_json(repos: &serde_json::Value) -> (r: Result<Vec<Repository>, String>)
    ensures
        r is Ok <==> array_items(*repos) is Some,
        r matches Ok(repositories) ==> views(repositories@) == repositories_of(
            array_items(*repos)->0,
        ),
        r matches Err(e) ==> e@ == "Expected array of repositories"@,
{
    let items = match items_of(repos) {
        Some(items) => items,
        None => {
            return Err(String::from_str("Expected array of repositories"));
        },
    };
    let mut repositories: Vec<Repository> = Vec::new();
    let mut i: usize = 0;
    while i < items.len()
        invariant
            i <= items@.len(),
            views(repositories@) == repositories_of(items@.take(i as int)),
        decreases items.len() - i,
    {
        let ghost before = views(repositories@);
        let repository = repository_from_json(&items[i]);
        repositories.push(repository);
        proof {
            assert(views(repositories@) =~= before.push(repository@));
            assert(repositories_of(items@.take(i + 1)) =~= repositories_of(
                items@.take(i as int),
            ).push(repository_of(items@[i as int])));
        }
        i = i + 1;
    }
    assert(items@.take(i as int) =~= items@);
    Ok(repositories)
}

/// Reads the repositories from a JSON text. It fails where the text is no
/// JSON value, with the parser's words, and where the value is no array.
pub fn parse_repositories(json_str: &str) -> (r: Result<Vec<Repository>, String>)
    ensures
        r is Ok <==> (json_document(json_str@) is Ok && array_items(
            json_document(json_str@)->Ok_0,
        ) is Some),
        r matches Ok(repositories) ==> views(repositories@) == repositories_of(
            array_items(json_document(json_str@)->Ok_0)->0,
        ),
        r matches Err(e) ==> e@ == (if json_document(json_str@) is Ok {
            "Expected array of repositories"@
        } else {
            "Failed to parse repositories JSON: "@ + json_error_text(
                json_document(json_str@)->Err_0,
            )
        }),
{
    match parse_document(json_str) {
        Ok(repos) => repositories_from_json(&repos),
        Err(error) => {
            let words = error_text(&error);
            Err(join2("Failed to parse repositories JSON: ", words.as_str()))
        },
    }
}

} // verus!
