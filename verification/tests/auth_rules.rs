use shop_backend::controllers::auth::{
    add_product_reply, claims_for, login_after_lookup, login_decision, signup_after_insert,
    signup_after_lookup, token_expiry, create_jwt, Claims, SECRET_KEY, EARLIEST_TIMESTAMP, LATEST_TIMESTAMP, LoginInfo, LoginStep, SignupStep,
    MIN_PASSWORD_BYTES, SECONDS_PER_DAY, TOKEN_LIFETIME_DAYS,
};
use shop_backend::controllers::user_details::{check_token_at, ProfileStep, User};
use shop_backend::outcome::DbError;
use shop_backend::reply::{Body, Message, Reply, Status};

fn user(name: &str, email: &str, password: &str) -> User {
    User {
        name: name.to_string(),
        email: email.to_string(),
        password: password.to_string(),
        is_admin: false,
    }
}

/// The claims of a token, checked against `SECRET_KEY` (expiry not checked).
fn decoded_claims(token: &str) -> Claims {
    let mut validation = jsonwebtoken::Validation::default();
    validation.validate_exp = false;
    let data = jsonwebtoken::decode::<serde_json::Map<String, serde_json::Value>>(
        token,
        &jsonwebtoken::DecodingKey::from_secret(SECRET_KEY.as_bytes()),
        &validation,
    )
    .expect("a token signed with the secret key");
    let claims = data.claims;
    assert_eq!(claims.keys().collect::<Vec<_>>(), vec!["sub", "exp"]);
    Claims {
        sub: claims["sub"].as_str().unwrap().to_string(),
        exp: claims["exp"].as_u64().unwrap() as usize,
    }
}

fn text(status: Status, message: Message) -> Reply {
    Reply { status, body: Body::Text(message) }
}

#[test]
fn signup_refuses_email_in_use() {
    let new = user("Ann", "ann@example.com", "longenough");
    let existing = Some(user("Other", "ann@example.com", "$2b$12$x"));
    assert_eq!(
        signup_after_lookup(&new, &existing),
        SignupStep::Respond(text(Status::BadRequest, Message::EmailInUse))
    );
}

#[test]
fn signup_refuses_short_password() {
    let new = user("Ann", "ann@example.com", "1234567");
    assert_eq!(
        signup_after_lookup(&new, &None),
        SignupStep::Respond(text(Status::BadRequest, Message::PasswordTooShort))
    );
    assert_eq!(MIN_PASSWORD_BYTES, 8);
}

#[test]
fn signup_counts_password_bytes_not_chars() {
    // four characters of two bytes each: eight bytes, accepted
    let new = user("Zoë", "zoe@example.com", "éééé");
    match signup_after_lookup(&new, &None) {
        SignupStep::Insert(stored) => {
            assert!(bcrypt::verify("éééé", &stored.password).unwrap());
        }
        other => panic!("unexpected step {:?}", other),
    }
    // three such characters: six bytes, refused
    let short = user("Zoë", "zoe@example.com", "ééé");
    assert_eq!(
        signup_after_lookup(&short, &None),
        SignupStep::Respond(text(Status::BadRequest, Message::PasswordTooShort))
    );
}

#[test]
fn signup_stores_hash_and_no_admin() {
    let mut new = user("Bob", "bob@example.com", "correct horse");
    new.is_admin = true;
    match signup_after_lookup(&new, &None) {
        SignupStep::Insert(stored) => {
            assert_eq!(stored.name, "Bob");
            assert_eq!(stored.email, "bob@example.com");
            assert!(!stored.is_admin);
            assert_ne!(stored.password, "correct horse");
            assert!(stored.password.starts_with("$2b$12$"));
            assert!(bcrypt::verify("correct horse", &stored.password).unwrap());
            assert!(!bcrypt::verify("wrong horse", &stored.password).unwrap());
        }
        other => panic!("unexpected step {:?}", other),
    }
}

#[test]
fn signup_insert_replies() {
    assert_eq!(signup_after_insert(Ok(())), text(Status::Success, Message::UserCreated));
    assert_eq!(
        signup_after_insert(Err(DbError)),
        text(Status::InternalServerError, Message::ErrorCreatingUser)
    );
}

#[test]
fn tokens_expire_after_seven_days() {
    assert_eq!(TOKEN_LIFETIME_DAYS * SECONDS_PER_DAY, 604800);
    assert_eq!(token_expiry(1_700_000_000), Some(1_700_604_800));
    assert_eq!(token_expiry(0), Some(604800));
    // far beyond the dates chrono represents
    assert_eq!(token_expiry(i64::MAX - 604800), None);
    assert_eq!(
        claims_for("ann@example.com", 1_700_604_800),
        Claims { sub: "ann@example.com".to_string(), exp: 1_700_604_800 }
    );
}

#[test]
fn login_decision_cases() {
    let stored = user("Ann", "ann@example.com", "$2b$12$hash");
    let refused = || LoginStep::Respond(text(Status::Unauthorized, Message::InvalidCredentials));
    assert_eq!(login_decision(&None, None, Some(10)), refused());
    assert_eq!(login_decision(&Some(stored.clone()), Some(false), Some(10)), refused());
    assert_eq!(login_decision(&Some(stored.clone()), None, Some(10)), LoginStep::VerifyFailed);
    assert_eq!(
        login_decision(&Some(stored.clone()), Some(true), Some(604810)),
        LoginStep::Issue(create_jwt("ann@example.com", 604810))
    );
    assert_eq!(login_decision(&Some(stored), Some(true), None), LoginStep::ClockOutOfRange);
}

#[test]
fn signup_then_login_issues_token() {
    let new = user("Cid", "cid@example.com", "s3cret-pass");
    let stored = match signup_after_lookup(&new, &None) {
        SignupStep::Insert(stored) => stored,
        other => panic!("unexpected step {:?}", other),
    };
    let before = chrono::Utc::now().timestamp();
    let info = LoginInfo { email: "cid@example.com".to_string(), password: "s3cret-pass".to_string() };
    let step = login_after_lookup(&info, &Some(stored.clone()));
    let after = chrono::Utc::now().timestamp();
    match step {
        LoginStep::Issue(token) => {
            let claims = decoded_claims(&token);
            assert_eq!(claims.sub, "cid@example.com");
            assert!(claims.exp as i64 >= before + 604800);
            assert!(claims.exp as i64 <= after + 604800);
        }
        other => panic!("unexpected step {:?}", other),
    }
    let wrong = LoginInfo { email: "cid@example.com".to_string(), password: "guess".to_string() };
    assert_eq!(
        login_after_lookup(&wrong, &Some(stored)),
        LoginStep::Respond(text(Status::Unauthorized, Message::InvalidCredentials))
    );
}

#[test]
fn login_unknown_user_and_bad_hash() {
    let info = LoginInfo { email: "nobody@example.com".to_string(), password: "whatever1".to_string() };
    assert_eq!(
        login_after_lookup(&info, &None),
        LoginStep::Respond(text(Status::Unauthorized, Message::InvalidCredentials))
    );
    let broken = user("Dee", "nobody@example.com", "not a bcrypt hash");
    assert_eq!(login_after_lookup(&info, &Some(broken)), LoginStep::VerifyFailed);
}

#[test]
fn add_product_replies() {
    assert_eq!(add_product_reply(Ok(())), text(Status::Success, Message::ProductAdded));
    assert_eq!(
        add_product_reply(Err(DbError)),
        text(Status::InternalServerError, Message::ErrorAddingProduct)
    );
}

#[test]
fn signup_decision_uses_given_hash() {
    let new = user("Eve", "eve@example.com", "password1");
    assert_eq!(
        shop_backend::controllers::auth::signup_decision(&new, &None, Some("$2b$12$abc".to_string())),
        SignupStep::Insert(user("Eve", "eve@example.com", "$2b$12$abc"))
    );
    assert_eq!(
        shop_backend::controllers::auth::signup_decision(&new, &None, None),
        SignupStep::HashFailed
    );
    let short = user("Eve", "eve@example.com", "pass");
    assert_eq!(
        shop_backend::controllers::auth::signup_decision(&short, &None, Some("h".to_string())),
        SignupStep::Respond(text(Status::BadRequest, Message::PasswordTooShort))
    );
}

#[test]
fn issued_token_leads_to_the_user() {
    let stored = user("Ann", "ann@example.com", "$2b$12$hash");
    match login_decision(&Some(stored), Some(true), Some(1_000)) {
        LoginStep::Issue(token) => assert_eq!(
            check_token_at(&token, 1_000 + 60),
            ProfileStep::FindUser("ann@example.com".to_string())
        ),
        other => panic!("unexpected step {:?}", other),
    }
}

#[test]
fn token_expiry_at_the_edges_of_the_date_range() {
    assert_eq!(chrono::DateTime::<chrono::Utc>::MAX_UTC.timestamp(), LATEST_TIMESTAMP);
    assert_eq!(chrono::DateTime::<chrono::Utc>::MIN_UTC.timestamp(), EARLIEST_TIMESTAMP);
    assert_eq!(token_expiry(LATEST_TIMESTAMP - 604800), Some(LATEST_TIMESTAMP));
    assert_eq!(token_expiry(LATEST_TIMESTAMP - 604799), None);
    assert_eq!(token_expiry(EARLIEST_TIMESTAMP), Some(EARLIEST_TIMESTAMP + 604800));
    assert_eq!(token_expiry(EARLIEST_TIMESTAMP - 1), None);
    assert_eq!(token_expiry(i64::MIN), None);
}

#[test]
fn tokens_carry_subject_and_expiry() {
    let token = create_jwt("bob@example.com", 1_700_604_800);
    assert_eq!(token.split('.').count(), 3);
    assert_eq!(
        decoded_claims(&token),
        Claims { sub: "bob@example.com".to_string(), exp: 1_700_604_800 }
    );
    assert_ne!(token, create_jwt("bob@example.com", 1_700_604_801));
    let wrong_key = jsonwebtoken::decode::<serde_json::Map<String, serde_json::Value>>(
        &token,
        &jsonwebtoken::DecodingKey::from_secret(b"another key"),
        &jsonwebtoken::Validation::default(),
    );
    assert!(wrong_key.is_err());
}

#[test]
fn signup_stores_a_cost_12_bcrypt_text() {
    let new = user("Fay", "fay@example.com", "abcdefgh");
    match signup_after_lookup(&new, &None) {
        SignupStep::Insert(stored) => {
            assert_eq!(stored.password.len(), 60);
            assert!(stored.password.starts_with("$2b$12$"));
            assert!(stored.password[7..]
                .chars()
                .all(|c| c == '.' || c == '/' || c.is_ascii_alphanumeric()));
            assert_ne!(stored.password, "abcdefgh");
        }
        other => panic!("unexpected step {:?}", other),
    }
}
