use todone::config::Config;
use todone::error::Error;
use todone::json::format_i64;
use todone::jwt::{authenticate_token, check_expiry, claims_json, create_jwt, create_jwt_at, parse_claims, Claims, Keys, MAX_TIMESTAMP, MIN_TIMESTAMP};
use todone::login::{after_lookup, after_pause, after_password_check, rejected_login, LoginAction};
use todone::password::{hash_password, password_verdict, verify_password, PasswordCheck};
use todone::todo::{found_or_not_found, Todo, TodoChange, UpdateTodo};
use todone::user::{admit_registration, insert_failure, DbFailure, LoginUser, NewUser, User};
use todone::validation::{Field, Rule};

fn new_user(username: &str, password: &str) -> NewUser {
    NewUser { username: username.to_string(), password: password.to_string() }
}

fn internal_context(e: &Error) -> String {
    match e {
        Error::Internal(text) => text.clone(),
        _ => panic!("not an internal error"),
    }
}

fn now_secs() -> i64 {
    std::time::SystemTime::now()
        .duration_since(std::time::UNIX_EPOCH)
        .unwrap()
        .as_secs() as i64
}

#[test]
fn registration_with_valid_fields_is_admitted() {
    assert!(new_user("fooBarBaz", "password123").validate().is_ok());
    assert!(admit_registration(&new_user("fooBarBaz", "password123")).is_ok());
    assert!(new_user("abc", "12345678").validate().is_ok());
    assert!(new_user("a_b_c_d_e_f_g_h9", "12345678901234567890123456789012").validate().is_ok());
}

#[test]
fn short_username_breaks_length_only() {
    let errs = new_user("ab", "password123").validate().unwrap_err();
    assert_eq!(errs.len(), 1);
    assert_eq!(errs[0].field, Field::Username);
    assert_eq!(errs[0].rule, Rule::Length { min: 3, max: 16 });
    assert_eq!(errs[0].value, "ab");
    assert_eq!(errs[0].field.name(), "username");
    assert_eq!(errs[0].rule.code(), "length");
}

#[test]
fn username_with_symbols_breaks_pattern() {
    let errs = new_user("foo-bar", "password123").validate().unwrap_err();
    assert_eq!(errs.len(), 1);
    assert_eq!(errs[0].rule, Rule::Pattern);
    assert_eq!(errs[0].rule.code(), "regex");
    assert_eq!(errs[0].value, "foo-bar");
    let errs = new_user("fooé", "password123").validate().unwrap_err();
    assert_eq!(errs.len(), 1);
    assert_eq!(errs[0].rule, Rule::Pattern);
}

#[test]
fn every_broken_rule_is_listed_in_order() {
    let errs = new_user("", "short").validate().unwrap_err();
    assert_eq!(errs.len(), 3);
    assert_eq!((errs[0].field, errs[0].rule), (Field::Username, Rule::Length { min: 3, max: 16 }));
    assert_eq!((errs[1].field, errs[1].rule), (Field::Username, Rule::Pattern));
    assert_eq!((errs[2].field, errs[2].rule), (Field::Password, Rule::Length { min: 8, max: 32 }));
    assert_eq!(errs[2].field.name(), "password");
    assert_eq!(errs[2].value, "short");
}

#[test]
fn lengths_count_characters_not_bytes() {
    // 16 characters, 32 bytes: the username length rule passes, the pattern fails.
    let errs = new_user("éééééééééééééééé", "password123").validate().unwrap_err();
    assert_eq!(errs.len(), 1);
    assert_eq!(errs[0].rule, Rule::Pattern);
    // an 8-character password of multi-byte characters is long enough
    assert!(new_user("abc", "ääääääää").validate().is_ok());
    let errs = new_user("abcdefghijklmnopq", "123456789012345678901234567890123").validate().unwrap_err();
    assert_eq!(errs.len(), 2);
}

#[test]
fn rejected_registration_is_invalid_entity() {
    let e = admit_registration(&new_user("x", "password123")).unwrap_err();
    assert_eq!(e.status_code(), 422);
    assert_eq!(e.message(), "validation error in request body");
    assert_eq!(e.violations().unwrap().len(), 1);
}

#[test]
fn taken_username_is_a_conflict() {
    let e = insert_failure(DbFailure {
        constraint: Some("user_username_key".to_string()),
        description: "duplicate key".to_string(),
    });
    assert_eq!(e.status_code(), 409);
    assert_eq!(e.message(), "username taken");
    assert!(e.violations().is_none());
}

#[test]
fn other_insert_failures_are_database_errors() {
    let e = insert_failure(DbFailure { constraint: Some("other_key".to_string()), description: "d".to_string() });
    assert_eq!(e.status_code(), 500);
    assert_eq!(e.message(), "an internal database error occurred");
    let e = insert_failure(DbFailure { constraint: None, description: "connection lost".to_string() });
    match e {
        Error::Database(d) => assert_eq!(d, "connection lost"),
        _ => panic!("expected a database error"),
    }
}

#[test]
fn status_codes_and_messages() {
    let cases: Vec<(Error, u16, &str)> = vec![
        (Error::Unauthorized, 401, "authentication required"),
        (Error::Forbidden, 403, "user may not perform that action"),
        (Error::NotFound, 404, "resource not found"),
        (Error::Database("x".to_string()), 500, "an internal database error occurred"),
        (Error::Internal("y".to_string()), 500, "an internal server error occurred"),
        (Error::InvalidEntity(Vec::new()), 422, "validation error in request body"),
        (Error::UnprocessableEntity("nope".to_string()), 422, "nope"),
        (Error::Conflict("taken".to_string()), 409, "taken"),
    ];
    for (e, code, msg) in cases {
        assert_eq!(e.status_code(), code);
        assert_eq!(e.message(), msg);
    }
}

#[test]
fn hashed_password_verifies() {
    let hash = hash_password("password123".to_string()).unwrap();
    assert!(hash.starts_with("$argon2id$"));
    assert_ne!(hash, "password123");
    assert_eq!(verify_password("password123".to_string(), hash.clone()).unwrap(), true);
    assert_eq!(verify_password("password124".to_string(), hash).unwrap(), false);
}

#[test]
fn hashes_are_salted() {
    let a = hash_password("password123".to_string()).unwrap();
    let b = hash_password("password123".to_string()).unwrap();
    assert_ne!(a, b);
}

#[test]
fn malformed_hash_is_an_internal_error() {
    let e = verify_password("password123".to_string(), "not a hash".to_string()).unwrap_err();
    assert_eq!(e.status_code(), 500);
    assert_eq!(internal_context(&e), "BUG: invalid password hash");
}

#[test]
fn password_verdicts() {
    assert_eq!(password_verdict(PasswordCheck::Matches).unwrap(), true);
    assert_eq!(password_verdict(PasswordCheck::Mismatch).unwrap(), false);
    assert_eq!(internal_context(&password_verdict(PasswordCheck::MalformedHash).unwrap_err()), "BUG: invalid password hash");
    assert_eq!(internal_context(&password_verdict(PasswordCheck::Failed).unwrap_err()), "BUG: failed to verify password");
}

#[test]
fn integers_format_in_decimal() {
    assert_eq!(format_i64(0), "0");
    assert_eq!(format_i64(7), "7");
    assert_eq!(format_i64(42), "42");
    assert_eq!(format_i64(-42), "-42");
    assert_eq!(format_i64(1700000000), "1700000000");
    assert_eq!(format_i64(i64::MAX), i64::MAX.to_string());
    assert_eq!(format_i64(i64::MIN), i64::MIN.to_string());
}

#[test]
fn claims_serialize_as_json() {
    let claims = Claims { sub: 0x67e5_5044_10b1_426f_9247_bb68_0e5f_e0c8, exp: 1700001200, iat: 1700000000 };
    assert_eq!(
        claims_json(&claims),
        "{\"sub\":\"67e55044-10b1-426f-9247-bb680e5fe0c8\",\"exp\":1700001200,\"iat\":1700000000}"
    );
    let claims = Claims { sub: 1, exp: -5, iat: 0 };
    assert_eq!(
        claims_json(&claims),
        "{\"sub\":\"00000000-0000-0000-0000-000000000001\",\"exp\":-5,\"iat\":0}"
    );
}

#[test]
fn issued_token_carries_the_claims() {
    let keys = Keys::new(b"a test secret");
    let user: u128 = 0x0123_4567_89ab_cdef_0123_4567_89ab_cdef;
    let before = now_secs();
    let token = create_jwt(&user, &keys).unwrap();
    let after = now_secs();
    assert_eq!(token.split('.').count(), 3);
    let mut validation = jsonwebtoken::Validation::new(jsonwebtoken::Algorithm::HS512);
    validation.validate_exp = true;
    let data = jsonwebtoken::decode::<serde_json::Value>(
        &token,
        &jsonwebtoken::DecodingKey::from_secret(b"a test secret"),
        &validation,
    )
    .unwrap();
    assert_eq!(data.header.alg, jsonwebtoken::Algorithm::HS512);
    assert_eq!(data.claims["sub"], "01234567-89ab-cdef-0123-456789abcdef");
    let iat = data.claims["iat"].as_i64().unwrap();
    let exp = data.claims["exp"].as_i64().unwrap();
    assert!(before <= iat && iat <= after);
    assert_eq!(exp - iat, 20 * 60);
    // a different secret does not check
    assert!(jsonwebtoken::decode::<serde_json::Value>(
        &token,
        &jsonwebtoken::DecodingKey::from_secret(b"another secret"),
        &jsonwebtoken::Validation::new(jsonwebtoken::Algorithm::HS512),
    )
    .is_err());
}

#[test]
fn expiry_is_checked() {
    let claims = Claims { sub: 9, exp: 1000, iat: 0 };
    assert_eq!(check_expiry(claims, 999).unwrap(), claims);
    assert_eq!(check_expiry(claims, 1000).unwrap(), claims);
    assert!(matches!(check_expiry(claims, 1001), Err(Error::Unauthorized)));
}

#[test]
fn authentication_needs_a_token() {
    let keys = Keys::new(b"secret");
    assert!(matches!(authenticate_token(None, &keys), Err(Error::Unauthorized)));
    assert!(matches!(authenticate_token(Some("not.a.token"), &keys), Err(Error::Unauthorized)));
}

#[test]
fn issued_token_authenticates_as_its_claims() {
    let keys = Keys::new(b"secret");
    let now = now_secs();
    let token = create_jwt_at(&7, &keys, now).unwrap();
    let claims = authenticate_token(Some(&token), &keys).unwrap();
    assert_eq!(claims, Claims { sub: 7, iat: now, exp: now + 1200 });
    let fresh = create_jwt(&8, &keys).unwrap();
    assert_eq!(authenticate_token(Some(&fresh), &keys).unwrap().sub, 8);
}

#[test]
fn token_with_another_secret_is_refused() {
    let token = create_jwt_at(&7, &Keys::new(b"secret"), now_secs()).unwrap();
    assert!(matches!(authenticate_token(Some(&token), &Keys::new(b"other")), Err(Error::Unauthorized)));
    let mut tampered = token.clone();
    tampered.pop();
    tampered.push('A');
    if tampered != token {
        assert!(matches!(authenticate_token(Some(&tampered), &Keys::new(b"secret")), Err(Error::Unauthorized)));
    }
}

#[test]
fn expired_token_is_refused() {
    let keys = Keys::new(b"secret");
    let token = create_jwt_at(&7, &keys, now_secs() - 3600).unwrap();
    assert!(matches!(authenticate_token(Some(&token), &keys), Err(Error::Unauthorized)));
}

#[test]
fn claims_text_reads_back() {
    let cases = [
        Claims { sub: 0x67e5_5044_10b1_426f_9247_bb68_0e5f_e0c8, exp: 1700001200, iat: 1700000000 },
        Claims { sub: 0, exp: -5, iat: 0 },
        Claims { sub: u128::MAX, exp: i64::MIN, iat: i64::MAX },
    ];
    for c in cases {
        assert_eq!(parse_claims(&claims_json(&c)), Some(c));
    }
}

#[test]
fn other_texts_are_not_claims() {
    assert_eq!(parse_claims(""), None);
    assert_eq!(parse_claims("{}"), None);
    // the same claims with spaces or another field order are not the library's text
    assert_eq!(parse_claims("{\"sub\":\"00000000-0000-0000-0000-000000000001\", \"exp\":5,\"iat\":0}"), None);
    assert_eq!(parse_claims("{\"sub\":\"00000000-0000-0000-0000-000000000001\",\"iat\":0,\"exp\":5}"), None);
    assert_eq!(parse_claims("{\"sub\":\"00000000-0000-0000-0000-000000000001\",\"exp\":05,\"iat\":0}"), None);
    assert_eq!(
        parse_claims("{\"sub\":\"00000000-0000-0000-0000-000000000001\",\"exp\":5,\"iat\":0}"),
        Some(Claims { sub: 1, exp: 5, iat: 0 })
    );
}

#[test]
fn pause_ends_in_rejection() {
    let e = after_pause().unwrap_err();
    assert_eq!(e.status_code(), 422);
    assert_eq!(e.message(), "invalid username/password");
}

fn login(password: &str) -> LoginUser {
    LoginUser { username: "fooBarBaz".to_string(), password: password.to_string() }
}

fn assert_concealing_delay(a: &LoginAction) {
    match a {
        LoginAction::Delay { nanos } => assert!(100_000_000 <= *nanos && *nanos <= 500_000_000),
        _ => panic!("expected a pause"),
    }
}

#[test]
fn unknown_user_gets_a_pause() {
    for _ in 0..20 {
        assert_concealing_delay(&after_lookup(None, login("password123")));
    }
}

#[test]
fn known_user_gets_a_password_check() {
    let user = User { user_id: 5, username: "fooBarBaz".to_string(), password_hash: "$argon2id$x".to_string() };
    match after_lookup(Some(user), login("password123")) {
        LoginAction::CheckPassword { user_id, password, password_hash } => {
            assert_eq!(user_id, 5);
            assert_eq!(password, "password123");
            assert_eq!(password_hash, "$argon2id$x");
        }
        _ => panic!("expected a password check"),
    }
}

#[test]
fn wrong_password_gets_the_same_pause_and_rejection() {
    let keys = Keys::new(b"k");
    assert_concealing_delay(&after_password_check(5, Ok(false), &keys));
    let e = rejected_login();
    assert_eq!(e.status_code(), 422);
    assert_eq!(e.message(), "invalid username/password");
}

#[test]
fn right_password_gets_a_token() {
    let keys = Keys::new(b"k");
    match after_password_check(5, Ok(true), &keys) {
        LoginAction::Respond(Ok(auth)) => assert_eq!(auth.access_token.split('.').count(), 3),
        _ => panic!("expected a token"),
    }
    match after_password_check(5, Err(Error::Internal("boom".to_string())), &keys) {
        LoginAction::Respond(Err(e)) => assert_eq!(internal_context(&e), "boom"),
        _ => panic!("expected the check's error"),
    }
}

#[test]
fn update_changes_run_content_then_completion() {
    let both = UpdateTodo { content: Some("buy milk".to_string()), complete: Some(true) }.changes();
    assert_eq!(both.len(), 2);
    assert!(matches!(&both[0], TodoChange::Content(c) if c == "buy milk"));
    assert!(matches!(&both[1], TodoChange::Complete(true)));
    let only = UpdateTodo { content: None, complete: Some(false) }.changes();
    assert_eq!(only.len(), 1);
    assert!(matches!(&only[0], TodoChange::Complete(false)));
    assert!(UpdateTodo { content: None, complete: None }.changes().is_empty());
}

#[test]
fn missing_todo_is_not_found() {
    let e = found_or_not_found(None).unwrap_err();
    assert_eq!(e.status_code(), 404);
    let t = found_or_not_found(Some(Todo { id: 1, content: "a".to_string(), complete: false })).unwrap();
    assert_eq!((t.id, t.content.as_str(), t.complete), (1, "a", false));
}

#[test]
fn config_keys_use_the_secret_bytes() {
    let config = Config { database_url: "postgres://x".to_string(), jwt_secret: "s3cret".to_string() };
    assert_eq!(config.keys().secret_bytes(), b"s3cret");
}

#[test]
fn test_create_user() {
    let user = new_user("fooBarBaz", "password123");
    assert!(admit_registration(&user).is_ok());
    let hash = hash_password(user.password.clone()).unwrap();
    assert_eq!(verify_password(user.password.clone(), hash).unwrap(), true);
    assert_eq!(todone::user::registration_outcome(Ok(())).unwrap(), 201);
}

#[test]
fn registration_of_a_taken_name_is_refused() {
    let e = todone::user::registration_outcome(Err(DbFailure {
        constraint: Some("user_username_key".to_string()),
        description: "duplicate".to_string(),
    }))
    .unwrap_err();
    assert_eq!(e.status_code(), 409);
}

fn run_changes(mut todo: Todo, update: &UpdateTodo) -> Todo {
    for change in update.changes() {
        match change {
            TodoChange::Content(c) => todo.content = c,
            TodoChange::Complete(b) => todo.complete = b,
        }
    }
    todo
}

fn sample_todo() -> Todo {
    Todo { id: 77, content: "write tests".to_string(), complete: false }
}

#[test]
fn update_replaces_present_fields_only() {
    let t = run_changes(sample_todo(), &UpdateTodo { content: None, complete: Some(true) });
    assert_eq!((t.id, t.content.as_str(), t.complete), (77, "write tests", true));
    let t = run_changes(sample_todo(), &UpdateTodo { content: Some("x".to_string()), complete: None });
    assert_eq!((t.id, t.content.as_str(), t.complete), (77, "x", false));
}

#[test]
fn repeated_update_changes_nothing_more() {
    let u = UpdateTodo { content: Some("y".to_string()), complete: Some(true) };
    let once = run_changes(sample_todo(), &u);
    let twice = run_changes(run_changes(sample_todo(), &u), &u);
    assert_eq!((once.id, once.content.clone(), once.complete), (twice.id, twice.content.clone(), twice.complete));
}

#[test]
fn empty_update_leaves_item() {
    let t = run_changes(sample_todo(), &UpdateTodo { content: None, complete: None });
    assert_eq!((t.id, t.content.as_str(), t.complete), (77, "write tests", false));
}

fn base64url_decode(text: &str) -> Vec<u8> {
    let alphabet = "ABCDEFGHIJKLMNOPQRSTUVWXYZabcdefghijklmnopqrstuvwxyz0123456789-_";
    let mut bits: u32 = 0;
    let mut count = 0;
    let mut out = Vec::new();
    for c in text.chars() {
        let v = alphabet.find(c).unwrap() as u32;
        bits = (bits << 6) | v;
        count += 6;
        if count >= 8 {
            count -= 8;
            out.push(((bits >> count) & 0xff) as u8);
        }
    }
    out
}

#[test]
fn token_at_a_given_second_is_exact() {
    let keys = Keys::new(b"secret");
    let token = create_jwt_at(&42, &keys, 1_700_000_000).unwrap();
    let mut validation = jsonwebtoken::Validation::new(jsonwebtoken::Algorithm::HS512);
    validation.validate_exp = false;
    let data = jsonwebtoken::decode::<serde_json::Value>(
        &token,
        &jsonwebtoken::DecodingKey::from_secret(b"secret"),
        &validation,
    )
    .unwrap();
    assert_eq!(data.claims["sub"], "00000000-0000-0000-0000-00000000002a");
    assert_eq!(data.claims["iat"], 1_700_000_000i64);
    assert_eq!(data.claims["exp"], 1_700_001_200i64);
    let payload = token.split('.').nth(1).unwrap();
    let expected = claims_json(&Claims { sub: 42, exp: 1_700_001_200, iat: 1_700_000_000 });
    assert_eq!(String::from_utf8(base64url_decode(payload)).unwrap(), expected);
}

#[test]
fn tokens_are_determined_by_user_and_second() {
    let keys = Keys::new(b"secret");
    let a = create_jwt_at(&1, &keys, 1_000).unwrap();
    let b = create_jwt_at(&1, &keys, 1_000).unwrap();
    let c = create_jwt_at(&2, &keys, 1_000).unwrap();
    assert_eq!(a, b);
    assert_ne!(a, c);
}

#[test]
fn tokens_need_the_expiry_in_range() {
    let keys = Keys::new(b"secret");
    assert!(create_jwt_at(&1, &keys, MAX_TIMESTAMP - 1200).is_ok());
    let e = create_jwt_at(&1, &keys, MAX_TIMESTAMP - 1199).unwrap_err();
    assert_eq!(internal_context(&e), "valid timestamp");
    assert!(create_jwt_at(&1, &keys, MIN_TIMESTAMP).is_ok());
    let e = create_jwt_at(&1, &keys, MIN_TIMESTAMP - 1).unwrap_err();
    assert_eq!(internal_context(&e), "valid timestamp");
    assert!(create_jwt_at(&1, &keys, i64::MAX).is_err());
    assert!(create_jwt_at(&1, &keys, i64::MIN).is_err());
}

#[test]
fn hash_string_has_the_default_argon2_layout() {
    let h = hash_password("password123".to_string()).unwrap();
    assert_eq!(h.len(), 97);
    assert!(h.starts_with("$argon2id$v=19$m=19456,t=2,p=1$"));
    assert_eq!(&h[53..54], "$");
    let salt = &h[31..53];
    assert!(salt.chars().all(|c| c.is_ascii_alphanumeric() || c == '+' || c == '/'));
    assert_ne!(h, "password123");
}

#[test]
fn other_passwords_are_checked_without_error() {
    let h = hash_password("password123".to_string()).unwrap();
    for q in ["", "password12", "PASSWORD123", "a much longer password than the rules allow"] {
        assert_eq!(verify_password(q.to_string(), h.clone()).unwrap(), false);
    }
}
