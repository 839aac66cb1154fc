//! Profile rules: what connecting an account, a fresh analysis or a
//! disconnect does to the profile of a user.
//!
//! The profiles themselves are stored by the caller. Each function takes the
//! stored profile, as far as there is one, and the current time, and returns
//! the profile to store or the reason why nothing changes.

use crate::models::{
    holds_id, ids_distinct, views, Badge, BadgeView, GitHubData, GitHubDataView, HttpHeader, HttpRequest,
    HttpResponse, HttpResponseView,
};
use crate::auth::{anonymous_bytes, is_anonymous};
use crate::badges::has_badge;
use crate::bytes::copy_bytes;
use crate::reputation::{calculate_reputation_score, total_points};
use vstd::prelude::*;
use vstd::string::*;
use vstd::utf8::encode_utf8;

verus! {

/// The shortest time between two analyses that a user asks for: an hour, in
/// nanoseconds.
pub const SYNC_INTERVAL_NS: u64 = 3_600_000_000_000;

/// The profile of a user.
#[derive(Clone, Debug, PartialEq, Eq)]
pub struct UserProfile {
    pub user_principal: Vec<u8>,
    pub github_username: String,
    pub github_connected: bool,
    pub github_data: Option<GitHubData>,
    pub created_at: u64,
    pub updated_at: u64,
    pub last_github_sync: Option<u64>,
    pub reputation_score: u64,
    pub badges: Vec<Badge>,
    pub total_badges: u32,
}

/// A profile as the rules see it: the principal as bytes, the texts as
/// such, the badges by their views.
#[verifier::ext_equal]
pub struct UserProfileView {
    pub user_principal: Seq<u8>,
    pub github_username: Seq<char>,
    pub github_connected: bool,
    pub github_data: Option<GitHubDataView>,
    pub created_at: u64,
    pub updated_at: u64,
    pub last_github_sync: Option<u64>,
    pub reputation_score: u64,
    pub badges: Seq<BadgeView>,
    pub total_badges: u32,
}

impl View for UserProfile {
    type V = UserProfileView;

    open spec fn view(&self) -> UserProfileView {
        UserProfileView {
            user_principal: self.user_principal@,
            github_username: self.github_username@,
            github_connected: self.github_connected,
            github_data: match self.github_data {
                Some(d) => Some(d@),
                None => None,
            },
            created_at: self.created_at,
            updated_at: self.updated_at,
            last_github_sync: self.last_github_sync,
            reputation_score: self.reputation_score,
            badges: views(self.badges@),
            total_badges: self.total_badges,
        }
    }
}

/// The profile of a user that has connected nothing yet.
pub open spec fn blank_profile(caller: Seq<u8>, now: u64) -> UserProfileView {
    UserProfileView {
        user_principal: caller,
        github_username: Seq::empty(),
        github_connected: false,
        github_data: None,
        created_at: now,
        updated_at: now,
        last_github_sync: None,
        reputation_score: 0,
        badges: Seq::empty(),
        total_badges: 0,
    }
}

/// The reputation that is stored for a badge collection: the total of its
/// points, kept to 64 bits.
pub open spec fn stored_reputation(badges: Seq<BadgeView>) -> u64 {
    (total_points(badges) % 0x1_0000_0000_0000_0000) as u64
}

/// The number of badges that is stored for a badge collection: their
/// number, kept to 32 bits.
pub open spec fn stored_badge_count(badges: Seq<BadgeView>) -> u32 {
    (badges.len() % 0x1_0000_0000) as u32
}

/// The badges of a profile merged with the badges that an analysis awards:
/// the badges held, and behind them the awards whose identifier is not held.
pub open spec fn merged(held: Seq<BadgeView>, awards: Seq<BadgeView>) -> Seq<BadgeView> {
    held + not_yet_held(held, awards)
}

/// A profile after an analysis at the time `now` has awarded it badges: they
/// are merged with the badges it holds by their identifiers, and the number
/// of badges and the reputation are those of the merged badges.
pub open spec fn awarded(profile: UserProfileView, awards: Seq<BadgeView>, now: u64) -> UserProfileView {
    UserProfileView {
        badges: merged(profile.badges, awards),
        total_badges: stored_badge_count(merged(profile.badges, awards)),
        reputation_score: stored_reputation(merged(profile.badges, awards)),
        last_github_sync: Some(now),
        updated_at: now,
        ..profile
    }
}

/// A profile after the account with the given data was connected to it.
pub open spec fn connected(profile: UserProfileView, data: GitHubDataView) -> UserProfileView {
    UserProfileView {
        github_username: data.login,
        github_connected: true,
        github_data: Some(data),
        ..profile
    }
}

fn new_profile(caller: &[u8], now: u64) -> (profile: UserProfile)
    ensures
        profile@ == blank_profile(caller@, now),
{
    let profile = UserProfile {
        user_principal: copy_bytes(caller),
        github_username: String::new(),
        github_connected: false,
        github_data: None,
        created_at: now,
        updated_at: now,
        last_github_sync: None,
        reputation_score: 0,
        badges: Vec::new(),
        total_badges: 0,
    };
    assert(profile@.badges =~= Seq::empty());
    profile
}

/// Creates the profile of a caller that has none yet. The profile returned
/// is to be stored.
pub fn create_initial_profile(caller: &[u8], exists: bool, current_time: u64) -> (r: Result<
    UserProfile,
    String,
>)
    ensures
        r is Ok <==> !exists,
        r matches Ok(profile) ==> profile@ == blank_profile(caller@, current_time),
        r matches Err(e) ==> e@ == "Profile already exists for this user"@,
{
    if exists {
        return Err(String::from_str("Profile already exists for this user"));
    }
    Ok(new_profile(caller, current_time))
}

/// Merges the badges that an analysis at the time `now` awards into a
/// profile: a badge whose identifier the profile holds already is not added
/// again. The number of badges and the reputation are brought up to date.
pub fn award_badges(profile: UserProfile, new_badges: Vec<Badge>, current_time: u64) -> (updated:
    UserProfile)
    ensures
        updated@ == awarded(profile@, views(new_badges@), current_time),
{
    let mut updated = profile;
    let mut fresh = select_new_badges(&updated.badges, new_badges);
    let ghost had = views(updated.badges@);
    let ghost kept = views(fresh@);
    updated.badges.append(&mut fresh);
    assert(views(updated.badges@) =~= had + kept);
    updated.total_badges = ((updated.badges.len() as u64) % 0x1_0000_0000) as u32;
    updated.reputation_score = calculate_reputation_score(updated.badges.as_slice());
    updated.last_github_sync = Some(current_time);
    updated.updated_at = current_time;
    updated
}

/// Connects an account to the profile of the caller, or to a new profile
/// where the caller has none, and merges the badges of the analysis into
/// it: a badge whose identifier the profile holds already is not added
/// again. The profile returned is to be stored.
pub fn connect_github_oauth(
    profile: Option<UserProfile>,
    caller: &[u8],
    github_data: GitHubData,
    new_badges: Vec<Badge>,
    current_time: u64,
) -> (updated: UserProfile)
    ensures
        updated@ == awarded(
            connected(
                match profile {
                    Some(p) => p@,
                    None => blank_profile(caller@, current_time),
                },
                github_data@,
            ),
            views(new_badges@),
            current_time,
        ),
{
    let mut p = match profile {
        Some(p) => p,
        None => new_profile(caller, current_time),
    };
    p.github_username = github_data.login.clone();
    p.github_connected = true;
    p.github_data = Some(github_data);
    award_badges(p, new_badges, current_time)
}

/// The time from `earlier` to `now`, kept to 64 bits.
pub open spec fn elapsed(now: u64, earlier: u64) -> u64 {
    ((now - earlier) % 0x1_0000_0000_0000_0000) as u64
}

/// Whether a user may ask for a fresh analysis at the time `now`: it has
/// asked for none before, or the last one is an hour old.
pub open spec fn sync_due(last_sync: Option<u64>, now: u64) -> bool {
    match last_sync {
        Some(last) => elapsed(now, last) >= SYNC_INTERVAL_NS,
        None => true,
    }
}

/// Decides whether a user may ask for a fresh analysis of its account.
pub fn check_sync_allowed(profile: Option<&UserProfile>, current_time: u64) -> (r: Result<
    (),
    String,
>)
    ensures
        r is Ok <==> (profile is Some && profile->0.github_connected && sync_due(
            profile->0.last_github_sync,
            current_time,
        )),
        r matches Err(e) ==> e@ == (if profile is None {
            "Profile not found"@
        } else if !profile->0.github_connected {
            "GitHub account not connected"@
        } else {
            "GitHub sync can only be triggered once per hour"@
        }),
{
    let p = match profile {
        Some(p) => p,
        None => {
            return Err(String::from_str("Profile not found"));
        },
    };
    if !p.github_connected {
        return Err(String::from_str("GitHub account not connected"));
    }
    match p.last_github_sync {
        Some(last) => {
            let since: u64 = current_time.wrapping_sub(last);
            if since < SYNC_INTERVAL_NS {
                return Err(String::from_str("GitHub sync can only be triggered once per hour"));
            }
        },
        None => {},
    }
    Ok(())
}

/// Decides whether an administrator may force a fresh analysis of the
/// account of a user.
pub fn check_force_sync(profile: Option<&UserProfile>) -> (r: Result<(), String>)
    ensures
        r is Ok <==> (profile is Some && profile->0.github_connected),
        r matches Err(e) ==> e@ == (if profile is None {
            "User profile not found"@
        } else {
            "User has no GitHub connection"@
        }),
{
    match profile {
        Some(p) => {
            if !p.github_connected {
                return Err(String::from_str("User has no GitHub connection"));
            }
            Ok(())
        },
        None => Err(String::from_str("User profile not found")),
    }
}

/// The candidates whose identifier is not among the badges held, in their
/// order.
pub open spec fn not_yet_held(held: Seq<BadgeView>, candidates: Seq<BadgeView>) -> Seq<BadgeView>
    decreases candidates.len(),
{
    if candidates.len() == 0 {
        seq![]
    } else {
        let before = not_yet_held(held, candidates.drop_last());
        if holds_id(held, candidates.last().id) {
            before
        } else {
            before.push(candidates.last())
        }
    }
}

/// What is kept of the candidates holds no badge that is already held, and
/// holds every candidate that is not: a candidate is kept exactly if no
/// badge held has its identifier.
pub proof fn lemma_not_yet_held(held: Seq<BadgeView>, candidates: Seq<BadgeView>)
    ensures
        forall|i: int|
            0 <= i < not_yet_held(held, candidates).len() ==> !holds_id(
                held,
                (#[trigger] not_yet_held(held, candidates)[i]).id,
            ),
        forall|i: int|
            0 <= i < not_yet_held(held, candidates).len() ==> candidates.contains(
                #[trigger] not_yet_held(held, candidates)[i],
            ),
        forall|k: int|
            0 <= k < candidates.len() && !holds_id(held, (#[trigger] candidates[k]).id)
                ==> not_yet_held(held, candidates).contains(candidates[k]),
    decreases candidates.len(),
{
    if candidates.len() > 0 {
        let rest = candidates.drop_last();
        let before = not_yet_held(held, rest);
        let kept = not_yet_held(held, candidates);
        lemma_not_yet_held(held, rest);
        assert forall|i: int| 0 <= i < kept.len() implies candidates.contains(
            #[trigger] kept[i],
        ) by {
            if i < before.len() {
                assert(kept[i] == before[i]);
                assert(rest.contains(before[i]));
                let k = choose|k: int| 0 <= k < rest.len() && rest[k] == before[i];
                assert(candidates[k] == rest[k]);
            } else {
                assert(kept[i] == candidates[candidates.len() - 1]);
            }
        }
        assert forall|i: int| 0 <= i < kept.len() implies !holds_id(
            held,
            (#[trigger] kept[i]).id,
        ) by {
            if i < before.len() {
                assert(kept[i] == before[i]);
            }
        }
        assert forall|k: int|
            0 <= k < candidates.len() && !holds_id(
                held,
                (#[trigger] candidates[k]).id,
            ) implies kept.contains(candidates[k]) by {
            if k < rest.len() {
                assert(candidates[k] == rest[k]);
                assert(before.contains(rest[k]));
                let i = choose|i: int| 0 <= i < before.len() && before[i] == rest[k];
                assert(kept[i] == candidates[k]);
            } else {
                assert(kept[kept.len() - 1] == candidates[k]);
            }
        }
    }
}

/// Merging keeps identifiers apart: where no identifier occurs twice among
/// the badges held, nor among the awards, none occurs twice among the
/// merged badges.
pub proof fn lemma_merged_ids_distinct(held: Seq<BadgeView>, awards: Seq<BadgeView>)
    requires
        ids_distinct(held),
        ids_distinct(awards),
    ensures
        ids_distinct(merged(held, awards)),
    decreases awards.len(),
{
    let kept = not_yet_held(held, awards);
    let all = merged(held, awards);
    lemma_not_yet_held(held, awards);
    if awards.len() > 0 {
        let rest = awards.drop_last();
        let before = not_yet_held(held, rest);
        assert forall|i: int, j: int| 0 <= i < j < rest.len() implies (#[trigger] rest[i]).id != (
        #[trigger] rest[j]).id by {
            assert(rest[i] == awards[i]);
            assert(rest[j] == awards[j]);
        }
        lemma_merged_ids_distinct(held, rest);
        lemma_not_yet_held(held, rest);
        let earlier = merged(held, rest);
        assert forall|i: int, j: int| 0 <= i < j < all.len() implies (#[trigger] all[i]).id != (
        #[trigger] all[j]).id by {
            if j < earlier.len() {
                assert(all[i] == earlier[i]);
                assert(all[j] == earlier[j]);
            } else {
                // The badge at `j` is the last award, which was kept.
                assert(kept == before.push(awards.last()));
                assert(all[j] == awards.last());
                if i < held.len() {
                    assert(all[i] == held[i]);
                    assert(!holds_id(held, awards.last().id));
                } else {
                    assert(all[i] == before[i - held.len()]);
                    assert(rest.contains(before[i - held.len()]));
                    let k = choose|k: int| 0 <= k < rest.len() && rest[k] == before[i - held.len()];
                    assert(awards[k] == rest[k]);
                    assert(awards[awards.len() - 1] == awards.last());
                }
            }
        }
    } else {
        assert(all =~= held);
    }
}

/// Keeps the candidates that the profile does not hold yet: a badge is held
/// if one with its identifier is among the badges of the profile.
pub fn select_new_badges(held: &Vec<Badge>, candidates: Vec<Badge>) -> (fresh: Vec<Badge>)
    ensures
        views(fresh@) == not_yet_held(views(held@), views(candidates@)),
{
    let mut candidates = candidates;
    let ghost all = views(candidates@);
    let mut fresh: Vec<Badge> = Vec::new();
    let mut rest: Vec<Badge> = Vec::new();
    // The candidates are taken from the back, so they come out reversed
    // and are turned round below.
    let mut n: usize = candidates.len();
    while n > 0
        invariant
            n == candidates@.len(),
            views(candidates@) == all.take(n as int),
            all.take(n as int) + views(rest@).reverse() == all,
        decreases n,
    {
        let ghost before = views(rest@);
        let ghost taken = candidates@;
        let badge = candidates.pop().unwrap();
        rest.push(badge);
        n = n - 1;
        proof {
            assert(views(taken)[n as int] == taken[n as int]@);
            assert(all.take(n + 1)[n as int] == all[n as int]);
            assert(badge@ == all[n as int]);
            assert(views(candidates@) =~= all.take(n as int));
            assert(views(rest@) =~= before.push(badge@));
            assert(views(rest@).reverse() =~= seq![badge@] + before.reverse());
            assert(all.take(n + 1) =~= all.take(n as int).push(all[n as int]));
            assert(all.take(n as int) + views(rest@).reverse() =~= all.take(n + 1)
                + before.reverse());
        }
    }
    assert(all.take(0) + views(rest@).reverse() =~= views(rest@).reverse());
    let ghost turned = views(rest@);
    let mut m: usize = rest.len();
    assert(all.take(0) =~= Seq::empty());
    assert(views(fresh@) =~= Seq::empty());
    while m > 0
        invariant
            m == rest@.len(),
            turned.len() == all.len(),
            m <= turned.len(),
            views(rest@) == turned.take(m as int),
            turned.reverse() == all,
            views(fresh@) == not_yet_held(views(held@), all.take(all.len() - m)),
        decreases m,
    {
        let ghost before = views(fresh@);
        let ghost done = all.len() - m;
        let ghost taken = rest@;
        let badge = rest.pop().unwrap();
        m = m - 1;
        proof {
            assert(views(taken)[m as int] == taken[m as int]@);
            assert(turned.take(m + 1)[m as int] == turned[m as int]);
            assert(views(rest@) =~= turned.take(m as int));
            assert(badge@ == turned[m as int]);
            assert(turned.reverse()[done] == turned[turned.len() - 1 - done]);
            assert(all[done] == badge@);
            assert(all.take(done + 1).drop_last() =~= all.take(done));
            assert(all.take(done + 1).last() == badge@);
        }
        if !has_badge(held, &badge.id) {
            fresh.push(badge);
            assert(views(fresh@) =~= before.push(badge@));
        }
    }
    assert(all.take(all.len() as int) =~= all);
    fresh
}

/// A profile after its account was disconnected at the time `now`.
pub open spec fn disconnected(profile: UserProfileView, now: u64) -> UserProfileView {
    UserProfileView { github_connected: false, github_data: None, updated_at: now, ..profile }
}

/// Disconnects the account from the profile of the caller. Badges and
/// reputation stay. The profile returned is to be stored.
pub fn disconnect_github(profile: Option<UserProfile>, current_time: u64) -> (r: Result<
    UserProfile,
    String,
>)
    ensures
        r is Ok <==> profile is Some,
        r matches Ok(updated) ==> updated@ == disconnected(profile->0@, current_time),
        r matches Err(e) ==> e@ == "Profile not found"@,
{
    match profile {
        Some(p) => {
            let mut p = p;
            p.github_connected = false;
            p.github_data = None;
            p.updated_at = current_time;
            Ok(p)
        },
        None => Err(String::from_str("Profile not found")),
    }
}

/// How many profiles a leaderboard shows: as many as asked for, a hundred
/// where nothing is asked for, and never more than a thousand.
pub open spec fn leaderboard_limit(limit: Option<u32>) -> nat {
    let asked: nat = match limit {
        Some(n) => n as nat,
        None => 100,
    };
    if asked < 1000 {
        asked
    } else {
        1000
    }
}

/// The number of profiles that a leaderboard shows.
pub fn leaderboard_size(limit: Option<u32>) -> (size: usize)
    ensures
        size == leaderboard_limit(limit),
{
    let asked: u32 = match limit {
        Some(n) => n,
        None => 100,
    };
    if asked < 1000 {
        asked as usize
    } else {
        1000
    }
}

/// Admits a caller that is not anonymous to the functions of an
/// administrator.
pub fn is_admin(caller: &[u8]) -> (r: Result<(), String>)
    ensures
        r is Ok <==> caller@ != anonymous_bytes(),
        r matches Err(e) ==> e@ == "Admin access required"@,
{
    if is_anonymous(caller) {
        return Err(String::from_str("Admin access required"));
    }
    Ok(())
}

/// The answer to any HTTP request: status 200, with headers that let pages
/// of any origin call, and a line that names the service.
pub open spec fn cors_response() -> HttpResponseView {
    HttpResponseView {
        status_code: 200,
        headers: seq![
            ("Access-Control-Allow-Origin"@, "*"@),
            ("Access-Control-Allow-Methods"@, "GET, POST, OPTIONS"@),
            ("Access-Control-Allow-Headers"@, "Content-Type, Authorization"@),
        ],
        body: encode_utf8("VeriFlair Backend API with GitHub Integration"@),
    }
}

fn response_header(name: &str, value: &str) -> (h: HttpHeader)
    ensures
        h@ == (name@, value@),
{
    HttpHeader { name: String::from_str(name), value: String::from_str(value) }
}

/// Answers an HTTP request, whatever it asks for.
pub fn http_request(request: HttpRequest) -> (response: HttpResponse)
    ensures
        response@ == cors_response(),
{
    let mut headers: Vec<HttpHeader> = Vec::new();
    headers.push(response_header("Access-Control-Allow-Origin", "*"));
    headers.push(response_header("Access-Control-Allow-Methods", "GET, POST, OPTIONS"));
    headers.push(response_header("Access-Control-Allow-Headers", "Content-Type, Authorization"));
    assert(views(headers@) =~= cors_response().headers);
    HttpResponse {
        status_code: 200,
        headers,
        body: "VeriFlair Backend API with GitHub Integration".as_bytes_vec(),
    }
}

/// Where a profile with the given reputation goes into a ranking: in front
/// of the first profile with a lower reputation, and behind all others.
pub open spec fn first_below(ranking: Seq<UserProfileView>, reputation: u64) -> int
    decreases ranking.len(),
{
    if ranking.len() == 0 {
        0
    } else if ranking.first().reputation_score < reputation {
        0
    } else {
        1 + first_below(ranking.drop_first(), reputation)
    }
}

/// The ranking of the profiles with a connected account: the higher
/// reputation first, and of two profiles with the same reputation the one
/// that comes first among the profiles.
pub open spec fn ranking(profiles: Seq<UserProfileView>) -> Seq<UserProfileView>
    decreases profiles.len(),
{
    if profiles.len() == 0 {
        seq![]
    } else {
        let before = ranking(profiles.drop_last());
        if profiles.last().github_connected {
            before.insert(first_below(before, profiles.last().reputation_score), profiles.last())
        } else {
            before
        }
    }
}

/// The leaderboard: the head of the ranking, as long as the limit allows.
pub open spec fn leaderboard(profiles: Seq<UserProfileView>, limit: Option<u32>) -> Seq<
    UserProfileView,
> {
    let all = ranking(profiles);
    if all.len() <= leaderboard_limit(limit) {
        all
    } else {
        all.take(leaderboard_limit(limit) as int)
    }
}

/// Whether no profile of a ranking has a lower reputation than one behind
/// it.
pub open spec fn descending(ranking: Seq<UserProfileView>) -> bool {
    forall|i: int, j: int|
        0 <= i <= j < ranking.len() ==> (#[trigger] ranking[i]).reputation_score >= (
        #[trigger] ranking[j]).reputation_score
}

/// The place of a new profile lies within the ranking; all profiles in
/// front of it have at least its reputation, and in a descending ranking all
/// behind it have less.
pub proof fn lemma_first_below(ranking: Seq<UserProfileView>, reputation: u64)
    ensures
        0 <= first_below(ranking, reputation) <= ranking.len(),
        forall|i: int|
            0 <= i < first_below(ranking, reputation) ==> (#[trigger] ranking[i]).reputation_score
                >= reputation,
        descending(ranking) ==> forall|i: int|
            first_below(ranking, reputation) <= i < ranking.len() ==> (
            #[trigger] ranking[i]).reputation_score < reputation,
    decreases ranking.len(),
{
    if ranking.len() > 0 && ranking.first().reputation_score >= reputation {
        let rest = ranking.drop_first();
        lemma_first_below(rest, reputation);
        assert forall|i: int| 0 <= i < first_below(ranking, reputation) implies (
        #[trigger] ranking[i]).reputation_score >= reputation by {
            if i > 0 {
                assert(ranking[i] == rest[i - 1]);
            }
        }
        if descending(ranking) {
            assert forall|i: int, j: int| 0 <= i <= j < rest.len() implies (
            #[trigger] rest[i]).reputation_score >= (#[trigger] rest[j]).reputation_score by {
                assert(rest[i] == ranking[i + 1]);
                assert(rest[j] == ranking[j + 1]);
            }
            assert forall|i: int|
                first_below(ranking, reputation) <= i < ranking.len() implies (
            #[trigger] ranking[i]).reputation_score < reputation by {
                assert(ranking[i] == rest[i - 1]);
            }
        }
    } else if ranking.len() > 0 {
        if descending(ranking) {
            assert forall|i: int| 0 <= i < ranking.len() implies (
            #[trigger] ranking[i]).reputation_score < reputation by {
                assert(ranking[0].reputation_score >= ranking[i].reputation_score);
            }
        }
    }
}

/// A ranking is in descending order of reputation.
pub proof fn lemma_ranking_descending(profiles: Seq<UserProfileView>)
    ensures
        descending(ranking(profiles)),
    decreases profiles.len(),
{
    if profiles.len() > 0 {
        let before = ranking(profiles.drop_last());
        lemma_ranking_descending(profiles.drop_last());
        if profiles.last().github_connected {
            let p = profiles.last();
            let k = first_below(before, p.reputation_score);
            lemma_first_below(before, p.reputation_score);
            let after = before.insert(k, p);
            assert forall|i: int, j: int| 0 <= i <= j < after.len() implies (
            #[trigger] after[i]).reputation_score >= (#[trigger] after[j]).reputation_score by {
                if i < k {
                    assert(after[i] == before[i]);
                } else if i > k {
                    assert(after[i] == before[i - 1]);
                }
                if j < k {
                    assert(after[j] == before[j]);
                } else if j > k {
                    assert(after[j] == before[j - 1]);
                }
            }
        }
    }
}

/// The profiles with a connected account, in their order.
pub open spec fn connected_only(profiles: Seq<UserProfileView>) -> Seq<UserProfileView>
    decreases profiles.len(),
{
    if profiles.len() == 0 {
        seq![]
    } else if profiles.last().github_connected {
        connected_only(profiles.drop_last()).push(profiles.last())
    } else {
        connected_only(profiles.drop_last())
    }
}

/// A ranking holds the profiles with a connected account, each as often as
/// it occurs among the profiles, and no others.
pub proof fn lemma_ranking_members(profiles: Seq<UserProfileView>)
    ensures
        ranking(profiles).to_multiset() == connected_only(profiles).to_multiset(),
    decreases profiles.len(),
{
    broadcast use vstd::seq_lib::group_to_multiset_ensures;

    if profiles.len() > 0 {
        let rest = profiles.drop_last();
        let before = ranking(rest);
        lemma_ranking_members(rest);
        if profiles.last().github_connected {
            lemma_first_below(before, profiles.last().reputation_score);
            let k = first_below(before, profiles.last().reputation_score);
            assert(before.insert(k, profiles.last()).to_multiset() == before.to_multiset().insert(
                profiles.last(),
            ));
            assert(connected_only(rest).push(profiles.last()).to_multiset() =~= connected_only(
                rest,
            ).to_multiset().insert(profiles.last()));
        }
    }
}

/// Ranks the profiles with a connected account by their reputation and
/// returns the head of the ranking: as many profiles as asked for, a hundred
/// where nothing is asked for, and never more than a thousand.
pub fn get_leaderboard(profiles: Vec<UserProfile>, limit: Option<u32>) -> (board: Vec<UserProfile>)
    ensures
        views(board@) == leaderboard(views(profiles@), limit),
{
    let mut profiles = profiles;
    let ghost all = views(profiles@);
    let mut board: Vec<UserProfile> = Vec::new();
    assert(all.skip(0) =~= all);
    assert(all.take(0) =~= Seq::empty());
    assert(views(board@) =~= Seq::empty());
    while profiles.len() > 0
        invariant
            profiles@.len() <= all.len(),
            views(profiles@) == all.skip(all.len() - profiles@.len()),
            views(board@) == ranking(all.take(all.len() - profiles@.len())),
        decreases profiles.len(),
    {
        let ghost done = all.len() - profiles@.len();
        let ghost before = views(board@);
        let ghost waiting = profiles@;
        let profile = profiles.remove(0);
        proof {
            assert(views(waiting)[0] == waiting[0]@);
            assert(all.skip(done)[0] == all[done]);
            assert(profile@ == all[done]);
            assert forall|j: int| 0 <= j < profiles@.len() implies #[trigger] views(profiles@)[j]
                == all.skip(done + 1)[j] by {
                assert(profiles@[j] == waiting[j + 1]);
                assert(views(waiting)[j + 1] == waiting[j + 1]@);
                assert(all.skip(done)[j + 1] == all[done + j + 1]);
            }
            assert(views(profiles@) =~= all.skip(done + 1));
            assert(all.take(done + 1).drop_last() =~= all.take(done));
            assert(all.take(done + 1).last() == profile@);
            lemma_first_below(before, profile.reputation_score);
        }
        if profile.github_connected {
            let place = place_in(&board, profile.reputation_score);
            board.insert(place, profile);
            assert(views(board@) =~= before.insert(place as int, profile@));
        }
    }
    assert(all.take(all.len() as int) =~= all);
    let size = leaderboard_size(limit);
    if board.len() > size {
        let ghost whole = views(board@);
        board.truncate(size);
        assert(views(board@) =~= whole.take(size as int));
    }
    board
}

fn place_in(board: &Vec<UserProfile>, reputation: u64) -> (place: usize)
    ensures
        place == first_below(views(board@), reputation),
        place <= board@.len(),
{
    let ghost ranked = views(board@);
    let mut k: usize = 0;
    assert(ranked.skip(0) =~= ranked);
    while k < board.len() && board[k].reputation_score >= reputation
        invariant
            k <= board@.len(),
            ranked == views(board@),
            first_below(ranked, reputation) == k + first_below(ranked.skip(k as int), reputation),
        decreases board.len() - k,
    {
        proof {
            let tail = ranked.skip(k as int);
            assert(tail.first() == board@[k as int]@);
            assert(tail.drop_first() =~= ranked.skip(k + 1));
        }
        k = k + 1;
    }
    proof {
        let tail = ranked.skip(k as int);
        if k < board@.len() {
            assert(tail.first() == board@[k as int]@);
        }
    }
    k
}

/// How many profiles have a connected account.
pub open spec fn connected_count(profiles: Seq<UserProfileView>) -> nat
    decreases profiles.len(),
{
    if profiles.len() == 0 {
        0
    } else {
        connected_count(profiles.drop_last()) + if profiles.last().github_connected {
            1nat
        } else {
            0nat
        }
    }
}

/// How many badges the profiles hold together.
pub open spec fn badge_count(profiles: Seq<UserProfileView>) -> nat
    decreases profiles.len(),
{
    if profiles.len() == 0 {
        0
    } else {
        badge_count(profiles.drop_last()) + profiles.last().badges.len()
    }
}

/// The reputations of the profiles, added up.
pub open spec fn reputation_total(profiles: Seq<UserProfileView>) -> nat
    decreases profiles.len(),
{
    if profiles.len() == 0 {
        0
    } else {
        reputation_total(profiles.drop_last()) + profiles.last().reputation_score as nat
    }
}

/// The counts of the statistics: users, users with a connected account,
/// badges earned and the sum of all reputations, each kept to 64 bits.
pub struct ProfileCounts {
    pub total_users: u64,
    pub github_connected_users: u64,
    pub total_badges_earned: u64,
    pub total_reputation: u64,
}

/// A count or sum as it is stored: kept to 64 bits.
pub open spec fn stored64(n: nat) -> u64 {
    (n % 0x1_0000_0000_0000_0000) as u64
}

/// Counts what the statistics report about the profiles.
pub fn get_stats(profiles: &[UserProfile]) -> (counts: ProfileCounts)
    ensures
        counts.total_users == stored64(profiles@.len()),
        counts.github_connected_users == stored64(connected_count(views(profiles@))),
        counts.total_badges_earned == stored64(badge_count(views(profiles@))),
        counts.total_reputation == stored64(reputation_total(views(profiles@))),
{
    let mut connected: usize = 0;
    let mut badges: u128 = 0;
    let mut reputation: u128 = 0;
    let mut i: usize = 0;
    while i < profiles.len()
        invariant
            i <= profiles.len(),
            connected <= i,
            connected == connected_count(views(profiles@).take(i as int)),
            badges == badge_count(views(profiles@).take(i as int)),
            badges <= i * 0xffff_ffff_ffff_ffff,
            reputation == reputation_total(views(profiles@).take(i as int)),
            reputation <= i * 0xffff_ffff_ffff_ffff,
        decreases profiles.len() - i,
    {
        proof {
            let all = views(profiles@);
            assert(all.take(i + 1).drop_last() =~= all.take(i as int));
            assert(all.take(i + 1).last() == profiles@[i as int]@);
        }
        if profiles[i].github_connected {
            connected = connected + 1;
        }
        badges = badges + profiles[i].badges.len() as u128;
        reputation = reputation + profiles[i].reputation_score as u128;
        i = i + 1;
    }
    assert(views(profiles@).take(i as int) =~= views(profiles@));
    ProfileCounts {
        total_users: profiles.len() as u64,
        github_connected_users: connected as u64,
        total_badges_earned: (badges % 0x1_0000_0000_0000_0000) as u64,
        total_reputation: (reputation % 0x1_0000_0000_0000_0000) as u64,
    }
}

} // verus!
