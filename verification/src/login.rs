use vstd::prelude::*;
use crate::error::{Error, is_internal_with, is_unprocessable_with};
use crate::jwt::{
    Claims, Keys, MAX_TIMESTAMP, TOKEN_LIFETIME_MINUTES, authentication_answer, create_jwt_at, fresh_claims,
    issuable_at, issued_token, issued_token_authenticates, utc_now_timestamp,
};
use crate::user::{LoginUser, User};

verus! {

/// The shortest pause before a failed login is answered, in milliseconds.
pub const REJECTION_DELAY_MIN_MS: u64 = 100;
/// The longest pause before a failed login is answered, in milliseconds.
pub const REJECTION_DELAY_MAX_MS: u64 = 500;

/// The body of a successful login: the bearer token to present from now on.
#[derive(Debug)]
pub struct Auth {
    pub access_token: String,
}

/// What the server does next while answering a login request.
#[derive(Debug)]
pub enum LoginAction {
    /// Check `password` against the user's stored hash (see
    /// `crate::password::verify_password`), then continue with `after_password_check`.
    CheckPassword { user_id: u128, password: String, password_hash: String },
    /// Pause for this many nanoseconds, then answer with `after_pause()`.
    Delay { nanos: u128 },
    /// Answer the request.
    Respond(Result<Auth, Error>),
}

/// rand::thread_rng().gen_range over the inclusive range
/// Duration::from_millis(min_ms)..=Duration::from_millis(max_ms), as whole
/// nanoseconds (Duration::as_nanos). The value is random; it lies in the range.
#[verifier::external_body]
fn random_delay_nanos(min_ms: u64, max_ms: u64) -> (nanos: u128)
    requires
        min_ms <= max_ms,
    ensures
        min_ms * 1_000_000 <= nanos <= max_ms * 1_000_000,
{
    rand::Rng::gen_range(
        &mut rand::thread_rng(),
        std::time::Duration::from_millis(min_ms)..=std::time::Duration::from_millis(max_ms),
    ).as_nanos()
}

/// The random pause, between 100 and 500 milliseconds, before a failed login
/// is answered. An unknown user and a wrong password both get it and the same
/// rejection after it; the pause blurs the timing, but an unknown user skips
/// the Argon2 check, so the two failures still take different times.
pub open spec fn concealing_delay(a: LoginAction) -> bool {
    a matches LoginAction::Delay { nanos }
        && REJECTION_DELAY_MIN_MS * 1_000_000 <= nanos <= REJECTION_DELAY_MAX_MS * 1_000_000
}

fn concealing_pause() -> (a: LoginAction)
    ensures
        concealing_delay(a),
{
    LoginAction::Delay { nanos: random_delay_nanos(REJECTION_DELAY_MIN_MS, REJECTION_DELAY_MAX_MS) }
}

/// Whether `e` is the answer to a failed login.
pub open spec fn is_login_rejection(e: Error) -> bool {
    is_unprocessable_with(e, "invalid username/password"@)
}

/// The answer to a failed login, after the pause: the same text whether the
/// user was unknown or the password wrong.
pub fn rejected_login() -> (e: Error)
    ensures
        is_login_rejection(e),
{
    Error::UnprocessableEntity(String::from_str("invalid username/password"))
}

/// The answer to a login with the right password when the clock reads `now`:
/// the token issued at `now` (see `crate::jwt::create_jwt_at`), or the failure
/// to issue one.
pub open spec fn login_answer(user_id: u128, now: i64, secret: Seq<u8>, answer: Result<Auth, Error>) -> bool {
    if issuable_at(now as int) {
        answer matches Ok(auth) && issued_token(auth.access_token@, user_id, now, secret)
    } else {
        answer matches Err(e) && is_internal_with(e, "valid timestamp"@)
    }
}

/// The first decision of a login, once the user has been looked up by name:
/// a known user's password is checked; an unknown user gets the pause that
/// precedes a rejection.
pub fn after_lookup(user: Option<User>, login: LoginUser) -> (a: LoginAction)
    ensures
        user matches Some(u) ==> a == (LoginAction::CheckPassword {
            user_id: u.user_id,
            password: login.password,
            password_hash: u.password_hash,
        }),
        user is None ==> concealing_delay(a),
{
    match user {
        Some(u) => LoginAction::CheckPassword {
            user_id: u.user_id,
            password: login.password,
            password_hash: u.password_hash,
        },
        None => concealing_pause(),
    }
}

/// The decision after the password check when the clock reads `now`: a right
/// password gets the token issued at `now` (see `crate::jwt::create_jwt_at`),
/// a wrong one the pause that precedes a rejection, and a check that could not
/// be made its error.
pub fn after_password_check_at(user_id: u128, verdict: Result<bool, Error>, keys: &Keys, now: i64) -> (a: LoginAction)
    ensures
        verdict matches Ok(false) ==> concealing_delay(a),
        verdict matches Err(e) ==> a == LoginAction::Respond(Err::<Auth, Error>(e)),
        verdict matches Ok(true) ==> a matches LoginAction::Respond(answer)
            && login_answer(user_id, now, keys.secret(), answer),
{
    match verdict {
        Ok(true) => match create_jwt_at(&user_id, keys, now) {
            Ok(token) => LoginAction::Respond(Ok(Auth { access_token: token })),
            Err(e) => LoginAction::Respond(Err(e)),
        },
        Ok(false) => concealing_pause(),
        Err(e) => LoginAction::Respond(Err(e)),
    }
}

/// The decision after the password check: a right password gets a token
/// issued at the current time, a wrong one the pause that precedes a
/// rejection, and a check that could not be made its error. This is
/// `after_password_check_at` at the clock reading taken for a right password.
pub fn after_password_check(user_id: u128, verdict: Result<bool, Error>, keys: &Keys) -> (a: LoginAction)
    ensures
        verdict matches Ok(false) ==> concealing_delay(a),
        verdict matches Err(e) ==> a == LoginAction::Respond(Err::<Auth, Error>(e)),
        verdict matches Ok(true) ==> a matches LoginAction::Respond(answer)
            && exists|now: i64| 0 <= now <= MAX_TIMESTAMP && login_answer(user_id, now, keys.secret(), answer),
{
    match verdict {
        Ok(true) => {
            let now = utc_now_timestamp();
            after_password_check_at(user_id, verdict, keys, now)
        },
        Ok(false) => concealing_pause(),
        Err(e) => LoginAction::Respond(Err(e)),
    }
}

/// A user who sends the right password at `t` is answered with a token, and
/// `authenticate_token_at` accepts that token, with the claims naming the user,
/// issued at `t` and expiring twenty minutes later, at every clock reading from
/// `t` to twenty minutes after it.
pub proof fn login_token_authenticates(
    user_id: u128,
    t: i64,
    secret: Seq<u8>,
    a: LoginAction,
    now: int,
    r: Result<Claims, Error>,
)
    requires
        a matches LoginAction::Respond(answer) && login_answer(user_id, t, secret, answer),
        a matches LoginAction::Respond(Ok(auth)) ==> authentication_answer(Some(auth.access_token@), secret, now, r),
        issuable_at(t as int),
        0 <= now,
        t <= now <= t + 60 * TOKEN_LIFETIME_MINUTES,
    ensures
        a matches LoginAction::Respond(Ok(_)),
        r == Ok::<Claims, Error>(fresh_claims(user_id, t)),
{
    if let LoginAction::Respond(Ok(auth)) = a {
        let issued = Ok::<String, Error>(auth.access_token);
        issued_token_authenticates(user_id, t, secret, issued, now, r);
    }
}

/// The answer once the pause before a failed login is over: the rejection.
pub fn after_pause() -> (r: Result<Auth, Error>)
    ensures
        r matches Err(e) && is_login_rejection(e),
{
    Err(rejected_login())
}

} // verus!
