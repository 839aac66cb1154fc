//! Session rules: who may open a session, how long it lasts, and what each
//! request does to it.
//!
//! The sessions themselves are stored by the caller. Each function takes the
//! stored session of the principal concerned, as far as there is one, and
//! the current time, and says what to store, what to remove and what to
//! answer. Times are nanoseconds since 1970; a sum of times is kept to 64
//! bits.

use crate::bytes::{copy_bytes, same_bytes};
use crate::models::{text_of, views, UserRole};
use crate::text::{decimal_string, decimal_text};
use vstd::prelude::*;
use vstd::string::*;

verus! {

/// How long a session lasts after it is opened or renewed: thirty minutes.
pub const SESSION_DURATION_NS: u64 = 1_800_000_000_000;

/// How long after its creation a session can still be renewed: a day.
pub const MAX_SESSION_RENEWAL: u64 = 86_400_000_000_000;

/// The last byte of a principal that was derived from a public key.
pub const SELF_AUTHENTICATING_TAG: u8 = 2;

/// A session of a principal.
#[derive(Clone, Debug, PartialEq, Eq)]
pub struct UserSession {
    pub user_principal: Vec<u8>,
    pub github_username: Option<String>,
    pub created_at: u64,
    pub last_active: u64,
    pub expires_at: u64,
    pub role: UserRole,
    pub is_verified: bool,
}

/// A session as the rules see it: the principal as bytes, the account name
/// as text.
#[verifier::ext_equal]
pub struct UserSessionView {
    pub user_principal: Seq<u8>,
    pub github_username: Option<Seq<char>>,
    pub created_at: u64,
    pub last_active: u64,
    pub expires_at: u64,
    pub role: UserRole,
    pub is_verified: bool,
}

impl View for UserSession {
    type V = UserSessionView;

    open spec fn view(&self) -> UserSessionView {
        UserSessionView {
            user_principal: self.user_principal@,
            github_username: text_of(self.github_username),
            created_at: self.created_at,
            last_active: self.last_active,
            expires_at: self.expires_at,
            role: self.role,
            is_verified: self.is_verified,
        }
    }
}

impl UserSessionView {
    /// Whether the session has run out at the time `now`.
    pub open spec fn expired(self, now: u64) -> bool {
        now > self.expires_at
    }

    /// Whether the session is verified and has not run out at the time
    /// `now`.
    pub open spec fn active(self, now: u64) -> bool {
        self.is_verified && !self.expired(now)
    }

    /// Whether the session is too old to be renewed at the time `now`.
    pub open spec fn past_renewal(self, now: u64) -> bool {
        now > later(self.created_at, MAX_SESSION_RENEWAL)
    }
}

/// Why a session is not accepted.
#[derive(Clone, Debug, PartialEq, Eq)]
pub enum AuthError {
    NotAuthenticated,
    SessionExpired,
    InvalidPrincipal,
    InternalError(String),
}

/// A refusal: what to answer, and whether the stored session of the caller
/// is to be removed.
#[derive(Clone, Debug, PartialEq, Eq)]
pub struct Rejection {
    pub remove_session: bool,
    pub message: String,
}

/// The time `span` after `time`, kept to 64 bits.
pub open spec fn later(time: u64, span: u64) -> u64 {
    ((time + span) % 0x1_0000_0000_0000_0000) as u64
}

fn later_of(time: u64, span: u64) -> (t: u64)
    ensures
        t == later(time, span),
{
    ((time as u128 + span as u128) % 0x1_0000_0000_0000_0000) as u64
}

/// The bytes of the anonymous principal.
pub open spec fn anonymous_bytes() -> Seq<u8> {
    seq![4u8]
}

/// Calls `Principal::anonymous` of candid and copies what its `as_slice`
/// returns: the anonymous principal is the single byte 4.
#[verifier::external_body]
fn anonymous_principal() -> (bytes: Vec<u8>)
    ensures
        bytes@ == anonymous_bytes(),
{
    candid::Principal::anonymous().as_slice().to_vec()
}

/// Whether the principal is the anonymous one.
pub fn is_anonymous(principal: &[u8]) -> (r: bool)
    ensures
        r == (principal@ == anonymous_bytes()),
{
    let anonymous = anonymous_principal();
    same_bytes(principal, anonymous.as_slice())
}

/// Whether a principal was derived from a public key: whether its last byte
/// is the tag of such principals.
pub open spec fn self_authenticating(principal: Seq<u8>) -> bool {
    principal.len() > 0 && principal.last() == SELF_AUTHENTICATING_TAG
}

/// Whether a principal was derived from a public key.
pub fn is_self_authenticating(principal: &[u8]) -> (r: bool)
    ensures
        r == self_authenticating(principal@),
{
    principal.len() > 0 && principal[principal.len() - 1] == SELF_AUTHENTICATING_TAG
}

/// Whether a caller may hold a session: it is not anonymous and was derived
/// from a public key.
pub open spec fn may_hold_session(caller: Seq<u8>) -> bool {
    caller != anonymous_bytes() && self_authenticating(caller)
}

/// Admits a caller that may hold a session, and says why another may not.
pub fn require_authenticated_caller(caller: &[u8]) -> (r: Result<(), String>)
    ensures
        r is Ok <==> may_hold_session(caller@),
        r matches Err(e) ==> e@ == (if caller@ == anonymous_bytes() {
            "Anonymous users cannot create sessions"@
        } else {
            "Only Internet Identity authenticated users allowed"@
        }),
{
    if is_anonymous(caller) {
        return Err(String::from_str("Anonymous users cannot create sessions"));
    }
    if !is_self_authenticating(caller) {
        return Err(String::from_str("Only Internet Identity authenticated users allowed"));
    }
    Ok(())
}

/// The session that a caller gets when it authenticates at the time `now`:
/// verified, in the role of a user, lasting for the session duration.
pub open spec fn fresh_session(caller: Seq<u8>, now: u64) -> UserSessionView {
    UserSessionView {
        user_principal: caller,
        github_username: None,
        created_at: now,
        last_active: now,
        expires_at: later(now, SESSION_DURATION_NS),
        role: UserRole::User,
        is_verified: true,
    }
}

/// Opens a session for a caller that may hold one. The session returned is
/// to be stored in place of any earlier one.
pub fn authenticate_user(caller: &[u8], current_time: u64) -> (r: Result<UserSession, String>)
    ensures
        r is Ok <==> may_hold_session(caller@),
        r matches Ok(session) ==> session@ == fresh_session(caller@, current_time),
        r matches Err(e) ==> e@ == (if caller@ == anonymous_bytes() {
            "Anonymous users cannot create sessions"@
        } else {
            "Only Internet Identity authenticated users allowed"@
        }),
{
    match require_authenticated_caller(caller) {
        Ok(()) => Ok(
            UserSession {
                user_principal: copy_bytes(caller),
                github_username: None,
                created_at: current_time,
                last_active: current_time,
                expires_at: later_of(current_time, SESSION_DURATION_NS),
                role: UserRole::User,
                is_verified: true,
            },
        ),
        Err(e) => Err(e),
    }
}

/// Checks the stored session of a principal: it must exist, be verified and
/// not have run out.
pub fn validate_session(session: Option<UserSession>, current_time: u64) -> (r: Result<
    UserSession,
    AuthError,
>)
    ensures
        r is Ok <==> (session is Some && session->0@.active(current_time)),
        r matches Ok(s) ==> Some(s) == session,
        r matches Err(e) ==> e == (if session is Some && session->0.is_verified {
            AuthError::SessionExpired
        } else {
            AuthError::NotAuthenticated
        }),
{
    match session {
        Some(s) => {
            if !s.is_verified {
                return Err(AuthError::NotAuthenticated);
            }
            if current_time > s.expires_at {
                return Err(AuthError::SessionExpired);
            }
            Ok(s)
        },
        None => Err(AuthError::NotAuthenticated),
    }
}

/// The stored session of the caller, as far as it is verified and has not
/// run out.
pub fn get_session(session: Option<UserSession>, current_time: u64) -> (r: Option<UserSession>)
    ensures
        r is Some <==> (session is Some && session->0@.active(current_time)),
        r matches Some(s) ==> Some(s) == session,
{
    match session {
        Some(s) => {
            if current_time <= s.expires_at && s.is_verified {
                Some(s)
            } else {
                None
            }
        },
        None => None,
    }
}

/// Whether the caller is authenticated: it is not anonymous and its stored
/// session is verified and has not run out.
pub fn is_authenticated(caller: &[u8], session: Option<&UserSession>, current_time: u64) -> (r:
    bool)
    ensures
        r == (caller@ != anonymous_bytes() && session is Some && session->0@.active(
            current_time,
        )),
{
    if is_anonymous(caller) {
        return false;
    }
    match session {
        Some(s) => s.is_verified && current_time <= s.expires_at,
        None => false,
    }
}

fn refuse(remove_session: bool, message: &str) -> (r: Rejection)
    ensures
        r.remove_session == remove_session,
        r.message@ == message@,
{
    Rejection { remove_session, message: String::from_str(message) }
}

/// Why a caller that may not hold a session is turned away.
pub open spec fn caller_refusal(caller: Seq<u8>) -> Seq<char> {
    if caller == anonymous_bytes() {
        "Anonymous users cannot create sessions"@
    } else {
        "Only Internet Identity authenticated users allowed"@
    }
}

/// Records the account name of the caller in its session and marks the
/// session as used at the time `now`. The session returned is to be stored.
/// Without a stored session nothing changes; a session that has run out is
/// to be removed.
pub fn create_session(
    caller: &[u8],
    session: Option<UserSession>,
    github_username: Option<String>,
    current_time: u64,
) -> (r: Result<UserSession, Rejection>)
    ensures
        r is Ok <==> (may_hold_session(caller@) && session is Some && !session->0@.expired(
            current_time,
        )),
        r matches Ok(updated) ==> updated@ == (UserSessionView {
            github_username: text_of(github_username),
            last_active: current_time,
            ..session->0@
        }),
        r matches Err(e) ==> {
            if !may_hold_session(caller@) {
                !e.remove_session && e.message@ == caller_refusal(caller@)
            } else if session is None {
                !e.remove_session && e.message@
                    == "No active session found. Please authenticate first."@
            } else {
                e.remove_session && e.message@ == "Session expired. Please authenticate again."@
            }
        },
{
    match require_authenticated_caller(caller) {
        Ok(()) => {},
        Err(message) => {
            return Err(Rejection { remove_session: false, message });
        },
    }
    let mut s = match session {
        Some(s) => s,
        None => {
            return Err(refuse(false, "No active session found. Please authenticate first."));
        },
    };
    if current_time > s.expires_at {
        return Err(refuse(true, "Session expired. Please authenticate again."));
    }
    s.github_username = github_username;
    s.last_active = current_time;
    Ok(s)
}

/// Renews the session of the caller at the time `now`: it lasts for the
/// session duration from then on. The session returned is to be stored.
/// Without a stored session nothing changes; a session that is too old to
/// be renewed is to be removed.
pub fn renew_session(caller: &[u8], session: Option<UserSession>, current_time: u64) -> (r: Result<
    UserSession,
    Rejection,
>)
    ensures
        r is Ok <==> (may_hold_session(caller@) && session is Some && !session->0@.past_renewal(
            current_time,
        )),
        r matches Ok(updated) ==> updated@ == (UserSessionView {
            expires_at: later(current_time, SESSION_DURATION_NS),
            last_active: current_time,
            ..session->0@
        }),
        r matches Err(e) ==> {
            if !may_hold_session(caller@) {
                !e.remove_session && e.message@ == caller_refusal(caller@)
            } else if session is None {
                !e.remove_session && e.message@ == "No session to renew"@
            } else {
                e.remove_session && e.message@
                    == "Session cannot be renewed, please login again"@
            }
        },
{
    match require_authenticated_caller(caller) {
        Ok(()) => {},
        Err(message) => {
            return Err(Rejection { remove_session: false, message });
        },
    }
    let mut s = match session {
        Some(s) => s,
        None => {
            return Err(refuse(false, "No session to renew"));
        },
    };
    if current_time > later_of(s.created_at, MAX_SESSION_RENEWAL) {
        return Err(refuse(true, "Session cannot be renewed, please login again"));
    }
    s.expires_at = later_of(current_time, SESSION_DURATION_NS);
    s.last_active = current_time;
    Ok(s)
}

/// Marks the session of the caller as used at the time `now`. The session
/// returned is to be stored. Without a stored session nothing changes; a
/// session that has run out is to be removed.
pub fn update_last_active(caller: &[u8], session: Option<UserSession>, current_time: u64) -> (r:
    Result<UserSession, Rejection>)
    ensures
        r is Ok <==> (may_hold_session(caller@) && session is Some && !session->0@.expired(
            current_time,
        )),
        r matches Ok(updated) ==> updated@ == (UserSessionView {
            last_active: current_time,
            ..session->0@
        }),
        r matches Err(e) ==> {
            if !may_hold_session(caller@) {
                !e.remove_session && e.message@ == caller_refusal(caller@)
            } else if session is None {
                !e.remove_session && e.message@ == "Session not found"@
            } else {
                e.remove_session && e.message@ == "Session expired"@
            }
        },
{
    match require_authenticated_caller(caller) {
        Ok(()) => {},
        Err(message) => {
            return Err(Rejection { remove_session: false, message });
        },
    }
    let mut s = match session {
        Some(s) => s,
        None => {
            return Err(refuse(false, "Session not found"));
        },
    };
    if current_time > s.expires_at {
        return Err(refuse(true, "Session expired"));
    }
    s.last_active = current_time;
    Ok(s)
}

/// Logs a caller out that may hold a session: on success its stored session
/// is to be removed.
pub fn logout(caller: &[u8]) -> (r: Result<String, String>)
    ensures
        r is Ok <==> may_hold_session(caller@),
        r matches Ok(message) ==> message@ == "Successfully logged out"@,
        r matches Err(e) ==> e@ == caller_refusal(caller@),
{
    match require_authenticated_caller(caller) {
        Ok(()) => Ok(String::from_str("Successfully logged out")),
        Err(e) => Err(e),
    }
}

/// Gives the stored session of a user another role. The session returned is
/// to be stored.
pub fn set_user_role(session: Option<UserSession>, role: UserRole) -> (r: Result<
    UserSession,
    String,
>)
    ensures
        r is Ok <==> session is Some,
        r matches Ok(updated) ==> updated@ == (UserSessionView { role, ..session->0@ }),
        r matches Err(e) ==> e@ == "User session not found"@,
{
    match session {
        Some(s) => {
            let mut s = s;
            s.role = role;
            Ok(s)
        },
        None => Err(String::from_str("User session not found")),
    }
}

/// Admits a caller whose stored session is verified, has not run out and
/// has the role of an administrator.
pub fn is_admin(session: Option<&UserSession>, current_time: u64) -> (r: Result<(), String>)
    ensures
        r is Ok <==> (session is Some && session->0@.active(current_time) && session->0.role
            == UserRole::Admin),
        r matches Err(e) ==> e@ == (if session is Some && session->0@.active(current_time) {
            "Admin access required"@
        } else {
            "Authentication required"@
        }),
{
    match session {
        Some(s) => {
            if !s.is_verified || current_time > s.expires_at {
                return Err(String::from_str("Authentication required"));
            }
            match s.role {
                UserRole::Admin => Ok(()),
                _ => Err(String::from_str("Admin access required")),
            }
        },
        None => Err(String::from_str("Authentication required")),
    }
}

/// How many of the sessions are verified and have not run out at the time
/// `now`.
pub open spec fn active_count(sessions: Seq<UserSessionView>, now: u64) -> nat
    decreases sessions.len(),
{
    if sessions.len() == 0 {
        0
    } else {
        active_count(sessions.drop_last(), now) + if sessions.last().active(now) {
            1nat
        } else {
            0nat
        }
    }
}

/// Counts the sessions that are verified and have not run out.
pub fn get_active_sessions_count(sessions: &[UserSession], current_time: u64) -> (count: u64)
    ensures
        count == active_count(views(sessions@), current_time),
{
    let mut count: usize = 0;
    let mut i: usize = 0;
    while i < sessions.len()
        invariant
            i <= sessions.len(),
            count <= i,
            count == active_count(views(sessions@).take(i as int), current_time),
        decreases sessions.len() - i,
    {
        proof {
            let all = views(sessions@);
            assert(all.take(i + 1).drop_last() =~= all.take(i as int));
            assert(all.take(i + 1).last() == sessions@[i as int]@);
        }
        if sessions[i].is_verified && current_time <= sessions[i].expires_at {
            count = count + 1;
        }
        i = i + 1;
    }
    assert(views(sessions@).take(i as int) =~= views(sessions@));
    count as u64
}

/// Reports how many of the stored sessions are active.
pub fn health_check(sessions: &[UserSession], current_time: u64) -> (report: String)
    ensures
        report@ == "VeriFlair Auth canister healthy. Active sessions: "@ + decimal_text(
            active_count(views(sessions@), current_time),
        ) + " / Total sessions: "@ + decimal_text(sessions@.len()),
{
    let active = decimal_string(get_active_sessions_count(sessions, current_time));
    let total = decimal_string(sessions.len() as u64);
    let mut report = String::from_str("VeriFlair Auth canister healthy. Active sessions: ");
    report.append(active.as_str());
    report.append(" / Total sessions: ");
    report.append(total.as_str());
    report
}

/// The positions of the sessions that have run out at the time `now`, in
/// rising order.
pub open spec fn expired_positions(sessions: Seq<UserSessionView>, now: u64) -> Seq<usize>
    decreases sessions.len(),
{
    if sessions.len() == 0 {
        seq![]
    } else {
        let before = expired_positions(sessions.drop_last(), now);
        if sessions.last().expired(now) {
            before.push((sessions.len() - 1) as usize)
        } else {
            before
        }
    }
}

/// Finds the sessions that have run out, for an administrator: the result
/// lists their positions, which are to be removed, and reports their number.
pub fn cleanup_expired_sessions(
    caller: &[u8],
    caller_session: Option<&UserSession>,
    sessions: &[UserSession],
    current_time: u64,
) -> (r: Result<(Vec<usize>, String), String>)
    ensures
        r is Ok <==> (may_hold_session(caller@) && caller_session is Some && caller_session->0.role
            == UserRole::Admin),
        r matches Ok((expired, report)) ==> expired@ == expired_positions(
            views(sessions@),
            current_time,
        ) && report@ == "Cleaned up "@ + decimal_text(expired@.len()) + " expired sessions"@,
        r matches Err(e) ==> e@ == (if may_hold_session(caller@) {
            "Only admins can cleanup expired sessions"@
        } else {
            caller_refusal(caller@)
        }),
{
    match require_authenticated_caller(caller) {
        Ok(()) => {},
        Err(e) => {
            return Err(e);
        },
    }
    let is_admin_user = match caller_session {
        Some(s) => match s.role {
            UserRole::Admin => true,
            _ => false,
        },
        None => false,
    };
    if !is_admin_user {
        return Err(String::from_str("Only admins can cleanup expired sessions"));
    }
    let mut expired: Vec<usize> = Vec::new();
    let mut i: usize = 0;
    while i < sessions.len()
        invariant
            i <= sessions.len(),
            expired@ == expired_positions(
                views(sessions@).take(i as int),
                current_time,
            ),
        decreases sessions.len() - i,
    {
        proof {
            let all = views(sessions@);
            assert(all.take(i + 1).drop_last() =~= all.take(i as int));
            assert(all.take(i + 1).last() == sessions@[i as int]@);
        }
        if current_time > sessions[i].expires_at {
            expired.push(i);
        }
        i = i + 1;
    }
    assert(views(sessions@).take(i as int) =~= views(sessions@));
    let number = decimal_string(expired.len() as u64);
    let mut report = String::from_str("Cleaned up ");
    report.append(number.as_str());
    report.append(" expired sessions");
    Ok((expired, report))
}

} // verus!
