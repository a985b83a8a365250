//! Credentials, session claims and the resolution of a request's identity.

use vstd::prelude::*;
use crate::model::{Claims, User};
use crate::text::str_eq;

verus! {

/// Issuer written into every session token.
pub const ISSUER: &'static str = "tidders";

/// Name of the privileged role.
pub const ADMIN_ROLE: &'static str = "admin";

/// Lifetime of a session token: 365 days, in seconds.
pub const SESSION_SECONDS: usize = 31536000;

/// The two privilege levels.
#[derive(Debug, Clone, Copy, PartialEq, Eq, Structural)]
pub enum Role {
    Regular,
    Admin,
}

/// The role that a stored role name stands for: only the exact name `admin` is privileged.
pub open spec fn role_of(name: Seq<char>) -> Role {
    if name == ADMIN_ROLE@ {
        Role::Admin
    } else {
        Role::Regular
    }
}

impl Role {
    /// The role that a stored role name stands for.
    pub fn from_name(name: &str) -> (r: Role)
        ensures
            r == role_of(name@),
    {
        if str_eq(name, ADMIN_ROLE) {
            Role::Admin
        } else {
            Role::Regular
        }
    }

    /// The single privilege predicate.
    pub fn is_admin(&self) -> (r: bool)
        ensures
            r == (*self == Role::Admin),
    {
        match self {
            Role::Admin => true,
            Role::Regular => false,
        }
    }
}

/// An authenticated caller.
#[derive(Debug, Clone)]
pub struct Identity {
    pub subject: String,
    pub role: Role,
}

/// The request-level failures; none of them tells why it happened.
#[derive(Debug, Clone, Copy, PartialEq, Eq, Structural)]
pub enum AccessError {
    /// Missing, invalid, expired or forgery-suspect session.
    Unauthorized,
    /// Authenticated, but neither the owner nor privileged enough.
    Forbidden,
    /// Absent, or present but not to be shown to this caller.
    NotFound,
}

/// What a password check against a stored bcrypt hash gives: `Some(true)` on a
/// match, `Some(false)` on a mismatch, `None` where the hash is malformed.
pub uninterp spec fn bcrypt_outcome(password: Seq<char>, hash: Seq<char>) -> Option<bool>;

/// Relies on `bcrypt::verify`: it recomputes the hash of `password` with the
/// salt and cost read from `hash`; its result depends on the two strings alone,
/// and an error (malformed hash) is mapped to `None`.
#[verifier::external_body]
fn bcrypt_verify(password: &str, hash: &str) -> (r: Option<bool>)
    ensures
        r == bcrypt_outcome(password@, hash@),
{
    match bcrypt::verify(password, hash) {
        Ok(matches) => Some(matches),
        Err(_) => None,
    }
}

/// Relies on `bcrypt::hash` at `bcrypt::DEFAULT_COST`: a salted hash of
/// `password`, or `None` where bcrypt reports an error. The salt is random, so
/// the text is not known; but `bcrypt::verify` recomputes the hash from the same
/// password, salt and cost, so the password matches the hash it was given.
#[verifier::external_body]
pub(crate) fn bcrypt_hash(password: &str) -> (r: Option<String>)
    ensures
        r matches Some(h) ==> bcrypt_outcome(password@, h@) == Some(true),
{
    match bcrypt::hash(password, bcrypt::DEFAULT_COST) {
        Ok(h) => Some(h),
        Err(_) => None,
    }
}

/// Relies on `chrono::Utc::now` and `DateTime::timestamp`: the current time in
/// whole seconds since the Unix epoch. `Utc::now` takes the system time's
/// distance from the epoch and panics on a clock set before it, so the value
/// is never negative; nothing else is known of it.
#[verifier::external_body]
fn unix_now() -> (r: i64)
    ensures
        r >= 0,
{
    chrono::Utc::now().timestamp()
}

/// Whether a password-check outcome admits the caller: only a positive match
/// does; a mismatch and a malformed hash both refuse.
pub fn credentials_accepted(outcome: Option<bool>) -> (r: bool)
    ensures
        r == (outcome == Some(true)),
{
    match outcome {
        Some(b) => b,
        None => false,
    }
}

/// Checks `password` against the stored hash `hash`.
pub fn verify_password(password: &str, hash: &str) -> (r: bool)
    ensures
        r == (bcrypt_outcome(password@, hash@) == Some(true)),
{
    credentials_accepted(bcrypt_verify(password, hash))
}

/// The claims issued to `user` at time `now`.
pub open spec fn claims_issued(c: Claims, user: User, now: int) -> bool {
    &&& c.sub@ == user.id@
    &&& c.iss@ == ISSUER@
    &&& c.iat == now
    &&& c.exp == now + SESSION_SECONDS
    &&& c.username@ == user.username@
    &&& c.role@ == user.role@
}

/// The claim set of a session opened by `user` at `now` (seconds since the epoch).
pub fn session_claims(user: &User, now: usize) -> (c: Claims)
    requires
        now + SESSION_SECONDS <= usize::MAX,
    ensures
        claims_issued(c, *user, now as int),
{
    Claims {
        sub: user.id.clone(),
        iss: ISSUER.to_owned(),
        exp: now + SESSION_SECONDS,
        iat: now,
        username: user.username.clone(),
        role: user.role.clone(),
    }
}

/// Whether `now` (seconds since the epoch) is a time at which a session can be opened.
pub open spec fn issuable_at(now: i64) -> bool {
    0 <= now && now + SESSION_SECONDS <= usize::MAX
}

/// Opens a session for `user` once its password check gave `outcome` at time `now`.
pub fn login_at(user: &User, outcome: Option<bool>, now: i64) -> (r: Result<Claims, String>)
    ensures
        r is Ok <==> (outcome == Some(true) && issuable_at(now)),
        r matches Ok(c) ==> claims_issued(c, *user, now as int),
        r matches Err(e) ==> e@ == (if outcome != Some(true) {
            "Invalid credentials"@
        } else {
            "Clock out of range"@
        }),
{
    if !credentials_accepted(outcome) {
        return Err("Invalid credentials".to_owned());
    }
    if now < 0 || now as u64 > (usize::MAX - SESSION_SECONDS) as u64 {
        return Err("Clock out of range".to_owned());
    }
    Ok(session_claims(user, now as usize))
}

/// Opens a session for `user` if `password` matches the stored hash, at the current time.
pub fn login(user: &User, password: &str) -> (r: Result<Claims, String>)
    ensures
        r is Ok ==> bcrypt_outcome(password@, user.password@) == Some(true),
        bcrypt_outcome(password@, user.password@) != Some(true) ==> (r matches Err(e) && e@
            == "Invalid credentials"@),
        r matches Err(e) ==> e@ == "Invalid credentials"@ || (bcrypt_outcome(
            password@,
            user.password@,
        ) == Some(true) && e@ == "Clock out of range"@),
        r matches Ok(c) ==> exists|now: int| now >= 0 && claims_issued(c, *user, now),
{
    let outcome = bcrypt_verify(password, user.password.as_str());
    let now = unix_now();
    login_at(user, outcome, now)
}

/// The view of an optional string.
pub open spec fn opt_view(s: Option<&str>) -> Option<Seq<char>> {
    match s {
        Some(v) => Some(v@),
        None => None,
    }
}

/// Who a request is, given its session token, its anti-forgery token, the
/// claims that the session token's signature vouches for (`None` where it does
/// not verify) and the time: the token must be present and signed, unexpired,
/// and repeated literally as the anti-forgery token.
pub open spec fn resolution(
    token: Option<Seq<char>>,
    csrf: Option<Seq<char>>,
    decoded: Option<Claims>,
    now: int,
) -> Option<(Seq<char>, Role)> {
    match (token, csrf, decoded) {
        (Some(t), Some(a), Some(c)) => if c.exp > now && a == t {
            Some((c.sub@, role_of(c.role@)))
        } else {
            None
        },
        _ => None,
    }
}

/// The spec-level view of a resolution result.
pub open spec fn identity_view(r: Result<Identity, AccessError>) -> Option<(Seq<char>, Role)> {
    match r {
        Ok(id) => Some((id.subject@, id.role)),
        Err(_) => None,
    }
}

/// Resolves a request's identity at time `now` (seconds since the epoch).
pub fn verify_user_at(
    token: Option<&str>,
    csrf: Option<&str>,
    decoded: Option<Claims>,
    now: i64,
) -> (r: Result<Identity, AccessError>)
    ensures
        identity_view(r) == resolution(opt_view(token), opt_view(csrf), decoded, now as int),
        r matches Err(e) ==> e == AccessError::Unauthorized,
{
    let t = match token {
        Some(t) => t,
        None => return Err(AccessError::Unauthorized),
    };
    let c = match decoded {
        Some(c) => c,
        None => return Err(AccessError::Unauthorized),
    };
    if now >= 0 && (c.exp as u64) <= (now as u64) {
        return Err(AccessError::Unauthorized);
    }
    let a = match csrf {
        Some(a) => a,
        None => return Err(AccessError::Unauthorized),
    };
    if !str_eq(a, t) {
        return Err(AccessError::Unauthorized);
    }
    let role = Role::from_name(c.role.as_str());
    Ok(Identity { subject: c.sub, role })
}

/// Resolves a request's identity at the current time.
pub fn verify_user(token: Option<&str>, csrf: Option<&str>, decoded: Option<Claims>) -> (r: Result<
    Identity,
    AccessError,
>)
    ensures
        exists|now: int| identity_view(r) == resolution(opt_view(token), opt_view(csrf), decoded, now),
        r matches Err(e) ==> e == AccessError::Unauthorized,
{
    let now = unix_now();
    verify_user_at(token, csrf, decoded, now)
}

/// Whether the "show everything" override is in force: the caller asked for it,
/// was resolved, and is an admin.
pub open spec fn show_all_granted(requested: Option<bool>, viewer: Option<(Seq<char>, Role)>) -> bool {
    &&& requested == Some(true)
    &&& match viewer {
        Some((_, role)) => role == Role::Admin,
        None => false,
    }
}

/// Whether the caller's request for the override (`requested`) is granted.
pub fn will_show_all(requested: Option<bool>, viewer: &Result<Identity, AccessError>) -> (r: bool)
    ensures
        r == show_all_granted(requested, identity_view(*viewer)),
{
    match requested {
        Some(true) => match viewer {
            Ok(id) => id.role.is_admin(),
            Err(_) => false,
        },
        _ => false,
    }
}

/// The override is granted only to a resolved admin who asked for it: take
/// away any one of the three and it is off.
pub proof fn lemma_show_all_needs_admin(
    requested: Option<bool>,
    token: Option<Seq<char>>,
    csrf: Option<Seq<char>>,
    decoded: Option<Claims>,
    now: int,
)
    ensures
        requested != Some(true) ==> !show_all_granted(
            requested,
            resolution(token, csrf, decoded, now),
        ),
        resolution(token, csrf, decoded, now) is None ==> !show_all_granted(
            requested,
            resolution(token, csrf, decoded, now),
        ),
        (resolution(token, csrf, decoded, now) matches Some(v) && v.1 != Role::Admin)
            ==> !show_all_granted(requested, resolution(token, csrf, decoded, now)),
{
}

/// A token issued to `user` at `issued`, presented with itself as the
/// anti-forgery token, resolves to the user's subject and role at every time
/// before it expires, and to nobody from then on.
pub proof fn lemma_session_round_trip(
    user: User,
    claims: Claims,
    issued: int,
    token: Seq<char>,
    now: int,
)
    requires
        claims_issued(claims, user, issued),
    ensures
        now < issued + SESSION_SECONDS ==> resolution(Some(token), Some(token), Some(claims), now)
            == Some((user.id@, role_of(user.role@))),
        now >= issued + SESSION_SECONDS ==> resolution(
            Some(token),
            Some(token),
            Some(claims),
            now,
        ) is None,
{
}

/// A request whose anti-forgery token is absent or differs from its session
/// token resolves to nobody, however valid the session token is.
pub proof fn lemma_forgery_rejected(
    token: Seq<char>,
    csrf: Option<Seq<char>>,
    decoded: Option<Claims>,
    now: int,
)
    requires
        csrf != Some(token),
    ensures
        resolution(Some(token), csrf, decoded, now) is None,
{
}

} // verus!
