//! The profile of the logged-in user, and changes of a user's name.

use vstd::prelude::*;
use vstd::utf8::*;

use crate::controllers::auth::{
    decode_hs256, hs256_claims, is_login_token, is_token_char, login_step_spec, unix_now,
    LoginStep, LATEST_TIMESTAMP, SECRET_KEY, TOKEN_LIFETIME_DAYS, SECONDS_PER_DAY,
};
use crate::controllers::auth::days_later;
use crate::header::{
    all_visible_ascii, bearer_prefix, bearer_token, is_visible_ascii, lemma_strip_bearer_extra_prefix,
    starts_with_bearer, strip_bearer,
};
use crate::outcome::{DbError, UpdateCounts};
use crate::reply::{text_reply, Body, Message, Reply, Status};

verus! {

/// A registered user.
#[derive(Clone, Debug, PartialEq)]
pub struct User {
    pub name: String,
    pub email: String,
    /// The bcrypt hash of the user's password.
    pub password: String,
    pub is_admin: bool,
}

/// A request to change the name of the user with the given email.
#[derive(Clone, Debug, PartialEq)]
pub struct UpdateInfo {
    pub email: String,
    pub name: String,
}

/// What follows once the `Authorization` header has been read.
#[derive(Debug, PartialEq)]
pub enum AuthorizationStep {
    /// Reply at once.
    Respond(Reply),
    /// Decode and check this token.
    Decode(String),
}

/// What follows once the token has been decoded.
#[derive(Debug, PartialEq)]
pub enum ProfileStep {
    /// Reply at once.
    Respond(Reply),
    /// Look up the user with this email.
    FindUser(String),
}

/// Reads the `Authorization` header (its raw bytes, if the request has one):
/// without one the request is refused, as it is when the value is not
/// visible ASCII; else the token is the value without its leading
/// `"Bearer "` prefixes.
pub fn fetch_user_details_begin(header: &Option<Vec<u8>>) -> (step: AuthorizationStep)
    ensures
        match *header {
            None => step == AuthorizationStep::Respond(
                text_reply(Status::Unauthorized, Message::MissingAuthorization),
            ),
            Some(h) => if all_visible_ascii(h@) {
                step matches AuthorizationStep::Decode(token) && token@ == decode_utf8(
                    strip_bearer(h@),
                )
            } else {
                step == AuthorizationStep::Respond(
                    text_reply(Status::Unauthorized, Message::InvalidAuthorizationFormat),
                )
            },
        },
{
    match header {
        None => AuthorizationStep::Respond(
            Reply::text(Status::Unauthorized, Message::MissingAuthorization),
        ),
        Some(h) => match bearer_token(h.as_slice()) {
            Some(token) => AuthorizationStep::Decode(token),
            None => AuthorizationStep::Respond(
                Reply::text(Status::Unauthorized, Message::InvalidAuthorizationFormat),
            ),
        },
    }
}

/// How long after its expiry a token is still accepted, in seconds.
pub const TOKEN_LEEWAY_SECONDS: i64 = 60;

/// The step that follows checking a token at the given Unix time: a token
/// that does not decode with `SECRET_KEY`, or that expired more than the
/// leeway before that time, is refused; else the user named by its subject
/// is looked up.
pub open spec fn token_step_spec(token: Seq<char>, now: int, step: ProfileStep) -> bool {
    match hs256_claims(token, SECRET_KEY@) {
        None => step == ProfileStep::Respond(text_reply(Status::Unauthorized, Message::InvalidToken)),
        Some(claims) => if claims.1 >= now - TOKEN_LEEWAY_SECONDS {
            step matches ProfileStep::FindUser(email) && email@ == claims.0
        } else {
            step == ProfileStep::Respond(text_reply(Status::Unauthorized, Message::InvalidToken))
        },
    }
}

/// Checks a token at the given Unix time.
pub fn check_token_at(token: &str, now: i64) -> (step: ProfileStep)
    ensures
        token_step_spec(token@, now as int, step),
{
    match decode_hs256(token, SECRET_KEY) {
        None => ProfileStep::Respond(Reply::text(Status::Unauthorized, Message::InvalidToken)),
        Some(claims) => {
            if (claims.exp as i128) >= (now as i128) - (TOKEN_LEEWAY_SECONDS as i128) {
                ProfileStep::FindUser(claims.sub)
            } else {
                ProfileStep::Respond(Reply::text(Status::Unauthorized, Message::InvalidToken))
            }
        },
    }
}

/// Checks a token at the current time.
pub fn check_token(token: &str) -> (step: ProfileStep)
    ensures
        exists|now: i64| 0 <= now <= LATEST_TIMESTAMP && #[trigger] token_step_spec(token@, now as int, step),
{
    let now = unix_now();
    check_token_at(token, now)
}

/// Replies with the user that was found, or that none was.
pub fn fetch_user_details_reply(found: Option<User>) -> (r: Reply)
    ensures
        found matches Some(u) ==> r == (Reply { status: Status::Success, body: Body::User(u) }),
        found is None ==> r == text_reply(Status::NotFound, Message::UserNotFound),
{
    match found {
        Some(u) => Reply { status: Status::Success, body: Body::User(u) },
        None => Reply::text(Status::NotFound, Message::UserNotFound),
    }
}

/// Replies to a change of a user's name from the counts the update reported.
pub fn update_user_reply(result: Result<UpdateCounts, DbError>) -> (r: Reply)
    ensures
        result is Err ==> r == text_reply(Status::InternalServerError, Message::ErrorUpdatingUser),
        result matches Ok(c) && c.matched == 0 ==> r == text_reply(
            Status::NotFound,
            Message::UserNotFound,
        ),
        result matches Ok(c) && c.matched != 0 && c.modified == 0 ==> r == text_reply(
            Status::NotModified,
            Message::NoChangesMade,
        ),
        result matches Ok(c) && c.matched != 0 && c.modified != 0 ==> r == text_reply(
            Status::Success,
            Message::UserUpdated,
        ),
{
    match result {
        Ok(c) => {
            if c.matched == 0 {
                Reply::text(Status::NotFound, Message::UserNotFound)
            } else if c.modified == 0 {
                Reply::text(Status::NotModified, Message::NoChangesMade)
            } else {
                Reply::text(Status::Success, Message::UserUpdated)
            }
        },
        Err(_) => Reply::text(Status::InternalServerError, Message::ErrorUpdatingUser),
    }
}

/// A token sent back as `"Bearer <token>"` in the `Authorization` header is
/// read back unchanged: its text is visible ASCII with no `"Bearer "` at its
/// start.
pub proof fn lemma_token_header_round_trip(token: Seq<char>)
    requires
        forall|i: int| 0 <= i < token.len() ==> #[trigger] is_token_char(token[i]),
    ensures
        all_visible_ascii(bearer_prefix() + encode_utf8(token)),
        strip_bearer(bearer_prefix() + encode_utf8(token)) == encode_utf8(token),
        decode_utf8(encode_utf8(token)) == token,
{
    broadcast use vstd::utf8::group_utf8_lib;

    let bytes = encode_utf8(token);
    assert(is_ascii_chars(token)) by {
        assert forall|i: int| 0 <= i < token.len() implies '\0' <= #[trigger] token[i] <= '\u{7f}' by {
            assert(is_token_char(token[i]));
        }
    }
    assert forall|i: int| 0 <= i < bytes.len() implies #[trigger] is_visible_ascii(bytes[i]) by {
        assert(is_token_char(token[i]));
        assert(token[i] as u8 == bytes[i]);
    }
    let header = bearer_prefix() + bytes;
    assert forall|i: int| 0 <= i < header.len() implies #[trigger] is_visible_ascii(header[i]) by {
        if i >= 7 {
            assert(header[i] == bytes[i - 7]);
        }
    }
    if starts_with_bearer(bytes) {
        assert(bytes.subrange(0, 7)[6] == bearer_prefix()[6]);
        assert(bytes.subrange(0, 7)[6] == bytes[6]);
        assert(is_token_char(token[6]));
        assert(token[6] as u8 == bytes[6]);
        assert(false);
    }
    lemma_strip_bearer_extra_prefix(bytes);
}

/// A token that log-in issued, presented at most the leeway after it
/// expires, leads the profile lookup to the user that logged in.
pub proof fn lemma_login_token_opens_profile(
    found: Option<User>,
    verified: Option<bool>,
    issued_at: i64,
    login: LoginStep,
    token: String,
    presented_at: i64,
    profile: ProfileStep,
)
    requires
        login_step_spec(found, verified, days_later(issued_at, TOKEN_LIFETIME_DAYS), login),
        login == LoginStep::Issue(token),
        0 <= issued_at,
        issued_at + TOKEN_LIFETIME_DAYS * SECONDS_PER_DAY <= usize::MAX,
        presented_at <= issued_at + TOKEN_LIFETIME_DAYS * SECONDS_PER_DAY + TOKEN_LEEWAY_SECONDS,
        token_step_spec(token@, presented_at as int, profile),
    ensures
        found matches Some(u) && (profile matches ProfileStep::FindUser(email) && email@ == u.email@),
        all_visible_ascii(bearer_prefix() + encode_utf8(token@)),
        decode_utf8(strip_bearer(bearer_prefix() + encode_utf8(token@))) == token@,
{
    let e = days_later(issued_at, TOKEN_LIFETIME_DAYS)->0;
    assert(e == issued_at + TOKEN_LIFETIME_DAYS * SECONDS_PER_DAY);
    assert(e as usize == e);
    lemma_token_header_round_trip(token@);
}

/// The time of a check decides a token's verdict only through the token's
/// expiry: a token accepted at some time is accepted, for the same user, at
/// every earlier time, and a token refused at some time is refused, with the
/// same reply, at every later time.
pub proof fn lemma_token_verdict_monotone(
    token: Seq<char>,
    earlier: int,
    later: int,
    at_earlier: ProfileStep,
    at_later: ProfileStep,
)
    requires
        earlier <= later,
        token_step_spec(token, earlier, at_earlier),
        token_step_spec(token, later, at_later),
    ensures
        at_later matches ProfileStep::FindUser(e2) ==> (at_earlier matches ProfileStep::FindUser(e1)
            && e1@ == e2@),
        at_earlier is Respond ==> at_later == at_earlier,
{
}

/// A log-in token that expires at `expiry` is accepted for its email when it
/// is checked no later than the leeway after `expiry`, and refused as an
/// invalid token when it is checked any later than that: a token that
/// expired a day before the check is refused.
pub proof fn lemma_login_token_lifetime(
    token: Seq<char>,
    email: Seq<char>,
    expiry: i64,
    now: int,
    step: ProfileStep,
)
    requires
        0 <= expiry <= usize::MAX,
        is_login_token(token, email, expiry),
        token_step_spec(token, now, step),
    ensures
        now <= expiry + TOKEN_LEEWAY_SECONDS ==> (step matches ProfileStep::FindUser(e) && e@
            == email),
        now > expiry + TOKEN_LEEWAY_SECONDS ==> step == ProfileStep::Respond(
            text_reply(Status::Unauthorized, Message::InvalidToken),
        ),
{
    assert(expiry as usize == expiry);
}

} // verus!
