//! Signing up, logging in, and adding products to the catalogue.

use vstd::prelude::*;
use vstd::utf8::*;

use crate::controllers::user_details::User;
use crate::outcome::DbError;
use crate::reply::{text_reply, Message, Reply, Status};

verus! {

/// The credentials of a log-in request.
#[derive(Clone, Debug, PartialEq)]
pub struct LoginInfo {
    pub email: String,
    pub password: String,
}

/// The claims that a log-in token carries: the user's email as subject and
/// the expiry as a Unix timestamp.
#[derive(Clone, Debug, PartialEq)]
pub struct Claims {
    pub sub: String,
    pub exp: usize,
}

/// A product in a request that adds it to the catalogue.
#[derive(Clone, Debug, PartialEq)]
pub struct Product {
    pub title: String,
    pub description: String,
    pub price: u32,
    pub quantity: u8,
    pub img: String,
}

/// How long a log-in token stays valid, in days.
pub const TOKEN_LIFETIME_DAYS: i64 = 7;

/// The seconds in a day.
pub const SECONDS_PER_DAY: i64 = 24 * 60 * 60;

/// The shortest password accepted at sign-up, in bytes of its UTF-8 text.
pub const MIN_PASSWORD_BYTES: usize = 8;

/// The length of a password in bytes of its UTF-8 text.
pub open spec fn password_byte_len(password: Seq<char>) -> nat {
    encode_utf8(password).len()
}

/// What `bcrypt::verify` answers for a password and a stored hash: whether
/// they match, or `None` where it fails (a hash it cannot read).
pub uninterp spec fn bcrypt_verify_outcome(password: Seq<char>, hash: Seq<char>) -> Option<bool>;

/// A character of the base64 alphabet that bcrypt writes salts and hashes in.
pub open spec fn is_bcrypt_base64_char(c: char) -> bool {
    c == '.' || c == '/' || ('A' <= c && c <= 'Z') || ('a' <= c && c <= 'z') || ('0' <= c
        && c <= '9')
}

/// The text of a bcrypt hash at cost 12 in version `2b`: `"$2b$12$"`, then 22
/// characters of salt and 31 of hash, all in bcrypt's base64 alphabet.
pub open spec fn is_bcrypt_cost12_text(s: Seq<char>) -> bool {
    &&& s.len() == 60
    &&& s.subrange(0, 7) == seq!['$', '2', 'b', '$', '1', '2', '$']
    &&& forall|i: int| 7 <= i < 60 ==> #[trigger] is_bcrypt_base64_char(s[i])
}

/// `bcrypt::hash` at `bcrypt::DEFAULT_COST` (12). The salt is random, so the
/// hash's characters are not fixed; `None` where the call fails (the source
/// fails only when the system gives no random bytes). The source formats the
/// result as `"$2b$12$"` followed by the salt (16 bytes) and the first 23
/// bytes of the hash, each encoded without padding in bcrypt's base64
/// alphabet, which makes 60 characters. It also shows that `bcrypt::verify`
/// recomputes the hash from the cost and salt written in the text, so a hash
/// it produced verifies against its password.
#[verifier::external_body]
fn hash_password(password: &str) -> (r: Option<String>)
    ensures
        r matches Some(h) ==> is_bcrypt_cost12_text(h@),
        r matches Some(h) ==> bcrypt_verify_outcome(password@, h@) == Some(true),
{
    bcrypt::hash(password, bcrypt::DEFAULT_COST).ok()
}

/// `bcrypt::verify`: whether the password matches the stored hash, `None`
/// where the call fails.
#[verifier::external_body]
fn verify_password(password: &str, hash: &str) -> (r: Option<bool>)
    ensures
        r == bcrypt_verify_outcome(password@, hash@),
{
    bcrypt::verify(password, hash).ok()
}

/// `chrono::Utc::now`, as a Unix timestamp in whole seconds. It reads the
/// clock; the source returns only for a clock at or after the Unix epoch and
/// within the dates chrono represents (it panics otherwise).
#[verifier::external_body]
pub(crate) fn unix_now() -> (t: i64)
    ensures
        0 <= t <= LATEST_TIMESTAMP,
{
    chrono::Utc::now().timestamp()
}

/// The earliest instant, in whole seconds, that chrono represents as a
/// `DateTime<Utc>`: the start of January 1, 262144 BCE (`NaiveDate::MIN`).
pub const EARLIEST_TIMESTAMP: i64 = -8334601228800;

/// The latest instant, in whole seconds, that chrono represents as a
/// `DateTime<Utc>`: the last second of December 31, 262142 CE
/// (`NaiveDate::MAX`).
pub const LATEST_TIMESTAMP: i64 = 8210266876799;

/// The instant that many days of 86400 seconds after the given one, when
/// both lie within the dates chrono represents.
pub open spec fn days_later(timestamp: i64, days: i64) -> Option<i64> {
    if EARLIEST_TIMESTAMP <= timestamp && timestamp <= LATEST_TIMESTAMP && timestamp + days * 86400
        <= LATEST_TIMESTAMP {
        Some((timestamp + days * 86400) as i64)
    } else {
        None
    }
}

/// `chrono::DateTime::checked_add_signed` with `chrono::Duration::days`, on
/// the instant given as a Unix timestamp in whole seconds. `Duration::days`
/// panics when the days, in seconds, exceed `i64::MAX / 1000`, so such
/// inputs are left out. `DateTime::from_timestamp` and `checked_add_signed`
/// give `None` exactly when the instant or the result lies outside
/// `NaiveDate::MIN ..= NaiveDate::MAX`; otherwise the result is the instant
/// that many days of 86400 seconds later.
#[verifier::external_body]
fn chrono_add_days(timestamp: i64, days: i64) -> (r: Option<i64>)
    requires
        0 <= days,
        days * 86400 <= i64::MAX / 1000,
    ensures
        r == days_later(timestamp, days),
{
    match chrono::DateTime::from_timestamp(timestamp, 0) {
        Some(t) => t.checked_add_signed(chrono::Duration::days(days)).map(|u| u.timestamp()),
        None => None,
    }
}

/// What follows once the email of a new user has been looked up.
#[derive(Debug, PartialEq)]
pub enum SignupStep {
    /// Reply at once.
    Respond(Reply),
    /// Store this user record.
    Insert(User),
    /// The password could not be hashed.
    HashFailed,
}

/// The decision of a sign-up once the email has been looked up.
pub open spec fn signup_step_spec(user: User, existing: Option<User>, step: SignupStep) -> bool {
    if existing is Some {
        step == SignupStep::Respond(text_reply(Status::BadRequest, Message::EmailInUse))
    } else if password_byte_len(user.password@) < MIN_PASSWORD_BYTES {
        step == SignupStep::Respond(text_reply(Status::BadRequest, Message::PasswordTooShort))
    } else {
        ||| step is HashFailed
        ||| (step matches SignupStep::Insert(stored) && stored.name == user.name && stored.email
            == user.email && !stored.is_admin && is_bcrypt_cost12_text(stored.password@)
            && bcrypt_verify_outcome(user.password@, stored.password@) == Some(true))
    }
}

/// Decides a sign-up from the user looked up by email and what hashing the
/// password gave (`None` when it failed or was not needed): an email
/// already in use and a password shorter than eight bytes are refused; else
/// the user is stored with the hash in place of the password, and never as
/// an administrator.
pub fn signup_decision(user: &User, existing: &Option<User>, hashed: Option<String>) -> (step:
    SignupStep)
    ensures
        existing is Some ==> step == SignupStep::Respond(
            text_reply(Status::BadRequest, Message::EmailInUse),
        ),
        existing is None && password_byte_len(user.password@) < MIN_PASSWORD_BYTES ==> step
            == SignupStep::Respond(text_reply(Status::BadRequest, Message::PasswordTooShort)),
        existing is None && password_byte_len(user.password@) >= MIN_PASSWORD_BYTES ==> match hashed {
            None => step == SignupStep::HashFailed,
            Some(h) => step == SignupStep::Insert(
                User { name: user.name, email: user.email, password: h, is_admin: false },
            ),
        },
{
    if existing.is_some() {
        return SignupStep::Respond(Reply::text(Status::BadRequest, Message::EmailInUse));
    }
    if user.password.as_str().as_bytes().len() < MIN_PASSWORD_BYTES {
        return SignupStep::Respond(Reply::text(Status::BadRequest, Message::PasswordTooShort));
    }
    match hashed {
        Some(h) => SignupStep::Insert(
            User { name: user.name.clone(), email: user.email.clone(), password: h, is_admin: false },
        ),
        None => SignupStep::HashFailed,
    }
}

/// Decides a sign-up once the email has been looked up, hashing the
/// password with bcrypt when the request is not refused.
pub fn signup_after_lookup(user: &User, existing: &Option<User>) -> (step: SignupStep)
    ensures
        signup_step_spec(*user, *existing, step),
{
    let needs_hash = existing.is_none() && user.password.as_str().as_bytes().len()
        >= MIN_PASSWORD_BYTES;
    let hashed = if needs_hash {
        hash_password(user.password.as_str())
    } else {
        None
    };
    signup_decision(user, existing, hashed)
}

/// Replies once the new user was stored, or failed to be.
pub fn signup_after_insert(result: Result<(), DbError>) -> (r: Reply)
    ensures
        result is Ok ==> r == text_reply(Status::Success, Message::UserCreated),
        result is Err ==> r == text_reply(Status::InternalServerError, Message::ErrorCreatingUser),
{
    match result {
        Ok(_) => Reply::text(Status::Success, Message::UserCreated),
        Err(_) => Reply::text(Status::InternalServerError, Message::ErrorCreatingUser),
    }
}

/// The claims of a token for the given email that expires at the given
/// Unix time.
pub fn claims_for(email: &str, expiry: i64) -> (c: Claims)
    ensures
        c.sub@ == email@,
        c.exp == expiry as usize,
{
    Claims { sub: email.to_owned(), exp: expiry as usize }
}

/// The key that log-in tokens are signed with.
pub const SECRET_KEY: &'static str = "abcdefghijklmnopqrstuvwxyz";

/// The token that `jsonwebtoken::encode` gives for the claims `{"sub": ..,
/// "exp": ..}`, in that order, under the default header (HS256) and the
/// given secret.
pub uninterp spec fn hs256_token(sub: Seq<char>, exp: usize, secret: Seq<char>) -> Seq<char>;

/// What `jsonwebtoken::decode` reads from a token with the given secret under
/// `Validation::default()` without its expiry check: `None` when the token is
/// not three dot-separated base64 parts, its header does not name HS256, its
/// signature does not match, its claims have no numeric `exp` or carry an
/// `aud`, or its claims are not an object with a string `sub` and a
/// non-negative integer `exp`; else the `sub` and `exp` claims.
pub uninterp spec fn hs256_claims(token: Seq<char>, secret: Seq<char>) -> Option<(Seq<char>, usize)>;

/// A character of a token: base64url digits and the dots between the parts.
pub open spec fn is_token_char(c: char) -> bool {
    ('A' <= c && c <= 'Z') || ('a' <= c && c <= 'z') || ('0' <= c && c <= '9') || c == '-' || c
        == '_' || c == '.'
}

/// `jsonwebtoken::encode` with `Header::default()` (HS256) and
/// `EncodingKey::from_secret`, on the claims as a JSON object of `sub` then
/// `exp`. The token is named by `hs256_token`. The source fails only when
/// the key's family differs from the header's algorithm, when the header or
/// claims fail to serialise, or when signing fails; an HMAC key with HS256
/// and a JSON object of a string and a number do none of these, so the call
/// always succeeds. The token is the header, the claims and the HMAC, each
/// in unpadded base64url, joined by dots; decoding it with the same secret
/// checks that HMAC and reads back the claims that went in.
#[verifier::external_body]
fn encode_hs256(claims: &Claims, secret: &str) -> (t: Option<String>)
    ensures
        t is Some,
        t matches Some(s) ==> s@ == hs256_token(claims.sub@, claims.exp, secret@),
        t matches Some(s) ==> forall|i: int| 0 <= i < s@.len() ==> #[trigger] is_token_char(s@[i]),
        t matches Some(s) ==> hs256_claims(s@, secret@) == Some((claims.sub@, claims.exp)),
{
    let mut object = serde_json::Map::new();
    object.insert("sub".to_string(), serde_json::Value::from(claims.sub.as_str()));
    object.insert("exp".to_string(), serde_json::Value::from(claims.exp));
    jsonwebtoken::encode(
        &jsonwebtoken::Header::default(),
        &object,
        &jsonwebtoken::EncodingKey::from_secret(secret.as_bytes()),
    ).ok()
}

/// `jsonwebtoken::decode` into a JSON object, with `Validation::default()`
/// whose expiry check is switched off (the clock is read apart), then the
/// `sub` and `exp` claims taken as a string and an unsigned integer. The
/// result is named by `hs256_claims`.
#[verifier::external_body]
pub(crate) fn decode_hs256(token: &str, secret: &str) -> (r: Option<Claims>)
    ensures
        r matches Some(c) ==> hs256_claims(token@, secret@) == Some((c.sub@, c.exp)),
        r is None ==> hs256_claims(token@, secret@) is None,
{
    let mut validation = jsonwebtoken::Validation::default();
    validation.validate_exp = false;
    let decoded = jsonwebtoken::decode::<serde_json::Map<String, serde_json::Value>>(
        token,
        &jsonwebtoken::DecodingKey::from_secret(secret.as_bytes()),
        &validation,
    ).ok()?;
    match (decoded.claims.get("sub"), decoded.claims.get("exp")) {
        (Some(serde_json::Value::String(sub)), Some(serde_json::Value::Number(exp))) => {
            exp.as_u64().map(|exp| Claims { sub: sub.clone(), exp: exp as usize })
        },
        _ => None,
    }
}

/// The log-in token for the given email that expires at the given Unix time.
pub open spec fn token_for(email: Seq<char>, expiry: i64) -> Seq<char> {
    hs256_token(email, expiry as usize, SECRET_KEY@)
}

/// The token is the log-in token for the email and expiry: signed with
/// `SECRET_KEY`, made of token characters, and read back as those claims.
pub open spec fn is_login_token(t: Seq<char>, email: Seq<char>, expiry: i64) -> bool {
    &&& t == token_for(email, expiry)
    &&& forall|i: int| 0 <= i < t.len() ==> #[trigger] is_token_char(t[i])
    &&& hs256_claims(t, SECRET_KEY@) == Some((email, expiry as usize))
}

/// Signs a log-in token for the given email that expires at the given Unix
/// time.
pub fn create_jwt(email: &str, expiry: i64) -> (t: String)
    ensures
        is_login_token(t@, email@, expiry),
{
    let claims = claims_for(email, expiry);
    encode_hs256(&claims, SECRET_KEY).unwrap()
}

/// The expiry of a token issued at the given Unix time: seven days later,
/// computed with chrono; `None` where the time or the expiry lies outside
/// the dates chrono represents.
pub fn token_expiry(now: i64) -> (e: Option<i64>)
    ensures
        e == days_later(now, TOKEN_LIFETIME_DAYS),
        e is Some <==> EARLIEST_TIMESTAMP <= now && now + TOKEN_LIFETIME_DAYS * SECONDS_PER_DAY
            <= LATEST_TIMESTAMP,
        e matches Some(t) ==> t == now + TOKEN_LIFETIME_DAYS * SECONDS_PER_DAY,
{
    chrono_add_days(now, TOKEN_LIFETIME_DAYS)
}

/// What follows once the user of a log-in has been looked up.
#[derive(Debug, PartialEq)]
pub enum LoginStep {
    /// Reply at once.
    Respond(Reply),
    /// Reply with this log-in token.
    Issue(String),
    /// The stored hash could not be checked.
    VerifyFailed,
    /// The expiry of a token issued now is out of the range of dates.
    ClockOutOfRange,
}

/// The decision of a log-in from the user found, the outcome of checking
/// the password against the stored hash, and the expiry of a token issued
/// now (`None` when it is out of range).
pub open spec fn login_step_spec(
    found: Option<User>,
    verified: Option<bool>,
    expiry: Option<i64>,
    step: LoginStep,
) -> bool {
    match found {
        None => step == LoginStep::Respond(
            text_reply(Status::Unauthorized, Message::InvalidCredentials),
        ),
        Some(u) => match verified {
            None => step == LoginStep::VerifyFailed,
            Some(false) => step == LoginStep::Respond(
                text_reply(Status::Unauthorized, Message::InvalidCredentials),
            ),
            Some(true) => match expiry {
                None => step == LoginStep::ClockOutOfRange,
                Some(e) => (step matches LoginStep::Issue(t) && is_login_token(t@, u.email@, e)),
            },
        },
    }
}

/// Decides a log-in: an unknown email and a wrong password get the same
/// refusal; a matching password gets a token, signed with `SECRET_KEY`, for
/// the stored email with the given expiry.
pub fn login_decision(found: &Option<User>, verified: Option<bool>, expiry: Option<i64>) -> (step:
    LoginStep)
    ensures
        login_step_spec(*found, verified, expiry, step),
{
    match found {
        None => LoginStep::Respond(Reply::text(Status::Unauthorized, Message::InvalidCredentials)),
        Some(u) => match verified {
            None => LoginStep::VerifyFailed,
            Some(false) => LoginStep::Respond(
                Reply::text(Status::Unauthorized, Message::InvalidCredentials),
            ),
            Some(true) => match expiry {
                Some(e) => LoginStep::Issue(create_jwt(u.email.as_str(), e)),
                None => LoginStep::ClockOutOfRange,
            },
        },
    }
}

/// The outcome of checking the log-in password against the stored hash of
/// the user found; `None` when no user was found.
pub open spec fn password_check(info: LoginInfo, found: Option<User>) -> Option<bool> {
    match found {
        Some(u) => bcrypt_verify_outcome(info.password@, u.password@),
        None => None,
    }
}

/// Decides a log-in once the user has been looked up: checks the password
/// against the stored hash with bcrypt and, when it matches, issues a token
/// that expires seven days after the current time.
pub fn login_after_lookup(info: &LoginInfo, found: &Option<User>) -> (step: LoginStep)
    ensures
        exists|now: i64|
            0 <= now <= LATEST_TIMESTAMP && #[trigger] login_step_spec(
                *found,
                password_check(*info, *found),
                days_later(now, TOKEN_LIFETIME_DAYS),
                step,
            ),
{
    match found {
        None => {
            let step = login_decision(found, None, None);
            assert(login_step_spec(*found, None, days_later(0, TOKEN_LIFETIME_DAYS), step));
            step
        },
        Some(u) => {
            let verified = verify_password(info.password.as_str(), u.password.as_str());
            if verified == Some(true) {
                let now = unix_now();
                let expiry = token_expiry(now);
                let step = login_decision(found, verified, expiry);
                assert(login_step_spec(*found, verified, days_later(now, TOKEN_LIFETIME_DAYS), step));
                step
            } else {
                let step = login_decision(found, verified, None);
                assert(login_step_spec(*found, verified, days_later(0, TOKEN_LIFETIME_DAYS), step));
                step
            }
        },
    }
}

/// Replies once a product was added to the catalogue, or failed to be.
pub fn add_product_reply(result: Result<(), DbError>) -> (r: Reply)
    ensures
        result is Ok ==> r == text_reply(Status::Success, Message::ProductAdded),
        result is Err ==> r == text_reply(Status::InternalServerError, Message::ErrorAddingProduct),
{
    match result {
        Ok(_) => Reply::text(Status::Success, Message::ProductAdded),
        Err(_) => Reply::text(Status::InternalServerError, Message::ErrorAddingProduct),
    }
}

/// A user stored by sign-up can log in with the password given at sign-up:
/// the log-in issues the token signed over the user's email, unless the
/// expiry of a token issued at that time is out of the range of dates.
pub proof fn lemma_signup_then_login(
    user: User,
    stored: User,
    signup: SignupStep,
    expiry: Option<i64>,
    login: LoginStep,
)
    requires
        signup_step_spec(user, None, signup),
        signup == SignupStep::Insert(stored),
        login_step_spec(
            Some(stored),
            bcrypt_verify_outcome(user.password@, stored.password@),
            expiry,
            login,
        ),
    ensures
        expiry matches Some(e) ==> (login matches LoginStep::Issue(t) && is_login_token(
            t@,
            user.email@,
            e,
        )),
        expiry is None ==> login is ClockOutOfRange,
{
}

/// Sign-up never stores the password as given, unless the password itself
/// is already the text of a cost-12 bcrypt hash (60 characters starting
/// with `"$2b$12$"`): what it stores always has that form.
pub proof fn lemma_signup_never_stores_plaintext(user: User, stored: User, signup: SignupStep)
    requires
        signup_step_spec(user, None, signup),
        signup == SignupStep::Insert(stored),
        !is_bcrypt_cost12_text(user.password@),
    ensures
        is_bcrypt_cost12_text(stored.password@),
        stored.password@ != user.password@,
{
}

/// A log-in with an unknown email and one with a wrong password get the
/// same reply.
pub proof fn lemma_login_refusals_alike(
    u: User,
    v: Option<bool>,
    expiry1: Option<i64>,
    expiry2: Option<i64>,
    unknown: LoginStep,
    wrong: LoginStep,
)
    requires
        login_step_spec(None, v, expiry1, unknown),
        login_step_spec(Some(u), Some(false), expiry2, wrong),
    ensures
        unknown == wrong,
{
}

/// A token is issued only for a user that was found and whose password
/// matched the stored hash.
pub proof fn lemma_token_needs_match(
    found: Option<User>,
    verified: Option<bool>,
    expiry: Option<i64>,
    step: LoginStep,
)
    requires
        login_step_spec(found, verified, expiry, step),
        step is Issue,
    ensures
        found is Some,
        verified == Some(true),
{
}

/// A log-in whose password matches, at a clock reading `now` from which
/// seven days later is still a date chrono represents, issues a token that
/// reads back as the stored email with expiry exactly `now` plus seven days;
/// it is out of range only when seven days after `now` is not.
pub proof fn lemma_login_token_expires_week_after(u: User, now: i64, step: LoginStep)
    requires
        0 <= now,
        login_step_spec(Some(u), Some(true), days_later(now, TOKEN_LIFETIME_DAYS), step),
    ensures
        now + 604800 <= LATEST_TIMESTAMP ==> (step matches LoginStep::Issue(t) && hs256_claims(
            t@,
            SECRET_KEY@,
        ) == Some((u.email@, (now + 604800) as usize))),
        now + 604800 > LATEST_TIMESTAMP ==> step == LoginStep::ClockOutOfRange,
{
}


} // verus!
