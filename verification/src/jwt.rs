use vstd::prelude::*;
use crate::error::{Error, is_internal_with};
use crate::json::{decimal, format_i64, int_at, is_digit_char, scan_int};
use crate::hex::{scan_uuid, uuid_at, uuid_hyphenated, uuid_text};

verus! {

/// Minutes a freshly issued token stays valid.
pub const TOKEN_LIFETIME_MINUTES: i64 = 20;

/// The claims a token carries: the user it was issued to, when it expires and
/// when it was issued (both as Unix timestamps in seconds).
#[derive(Clone, Copy, PartialEq, Eq, Debug)]
pub struct Claims {
    /// The user's UUID, as its 128-bit value.
    pub sub: u128,
    pub exp: i64,
    pub iat: i64,
}

/// The signing keys, made from the configured secret.
pub struct Keys {
    secret: Vec<u8>,
}

/// The HMAC algorithms a token can be signed with.
#[derive(Clone, Copy, PartialEq, Eq, Debug)]
pub enum HmacAlgorithm {
    HS256,
    HS384,
    HS512,
}

impl Keys {
    /// Keys for signing and checking tokens with the given HMAC secret.
    pub fn new(secret: &[u8]) -> (keys: Keys)
        ensures
            keys.secret() == secret@,
    {
        Keys { secret: vstd::slice::slice_to_vec(secret) }
    }

    pub closed spec fn secret(&self) -> Seq<u8> {
        self.secret@
    }

    /// The HMAC secret the keys were made from.
    pub fn secret_bytes(&self) -> (s: &[u8])
        ensures
            s@ == self.secret(),
    {
        self.secret.as_slice()
    }
}

/// The JSON text of a set of claims, with the fields in the order
/// `sub`, `exp`, `iat` and the subject as a hyphenated UUID string.
pub open spec fn claims_text(c: Claims) -> Seq<char> {
    "{\"sub\":\""@ + (uuid_text(c.sub) + claims_tail(c))
}

/// The claims' JSON text after the subject.
pub open spec fn claims_tail(c: Claims) -> Seq<char> {
    "\",\"exp\":"@ + decimal(c.exp as int) + ",\"iat\":"@ + decimal(c.iat as int) + "}"@
}

/// The JSON text of a set of claims determines their subject.
pub proof fn claims_text_determines_sub(c1: Claims, c2: Claims)
    requires
        claims_text(c1) == claims_text(c2),
    ensures
        c1.sub == c2.sub,
{
    reveal_strlit("{\"sub\":\"");
    crate::hex::uuid_text_len(c1.sub);
    crate::hex::uuid_text_len(c2.sub);
    let t1 = claims_text(c1);
    let t2 = claims_text(c2);
    assert(t1.subrange(8, 44) =~= uuid_text(c1.sub));
    assert(t2.subrange(8, 44) =~= uuid_text(c2.sub));
    crate::hex::uuid_text_injective(c1.sub, c2.sub);
}

/// Writes the claims as the JSON object a token carries.
pub fn claims_json(claims: &Claims) -> (s: String)
    ensures
        s@ == claims_text(*claims),
{
    let sub = uuid_hyphenated(claims.sub);
    let exp = format_i64(claims.exp);
    let iat = format_i64(claims.iat);
    let s = String::from_str("{\"sub\":\"")
        .concat(sub.as_str())
        .concat("\",\"exp\":")
        .concat(exp.as_str())
        .concat(",\"iat\":")
        .concat(iat.as_str())
        .concat("}");
    assert(s@ =~= claims_text(*claims));
    s
}

/// Where the parts of a claims text stand: the subject's UUID from position 8,
/// the expiry from position 52, and the issue time seven characters after the
/// expiry's digits, followed only by the closing brace.
proof fn claims_text_layout(c: Claims)
    ensures
        uuid_at(claims_text(c), 8, c.sub),
        int_at(claims_text(c), 52, c.exp as int),
        int_at(claims_text(c), (52 + decimal(c.exp as int).len() + 7) as int, c.iat as int),
        claims_text(c).len() == 52 + decimal(c.exp as int).len() + 7 + decimal(c.iat as int).len() + 1,
{
    reveal_strlit("{\"sub\":\"");
    reveal_strlit("\",\"exp\":");
    reveal_strlit(",\"iat\":");
    reveal_strlit("}");
    crate::hex::uuid_text_len(c.sub);
    let t = claims_text(c);
    let d1 = decimal(c.exp as int);
    let d2 = decimal(c.iat as int);
    let e1: int = 52 + d1.len() as int;
    let e2: int = e1 + 7 + d2.len();
    assert(t.len() == e2 + 1);
    assert(t.subrange(8, 44) =~= uuid_text(c.sub));
    assert(t.subrange(52, e1) =~= d1);
    assert(t[e1] == ',');
    assert(!is_digit_char(t[e1]));
    assert(t.subrange(e1 + 7, e2) =~= d2);
    assert(t[e2] == '}');
    assert(!is_digit_char(t[e2]));
}

/// Reads claims back from their JSON text as `claims_json` writes it: the text
/// of the claims that come back is the given text, and the text of any claims
/// gives those claims.
pub fn parse_claims(text: &str) -> (r: Option<Claims>)
    ensures
        r matches Some(c) ==> text@ == claims_text(c),
        forall|c: Claims| text@ == #[trigger] claims_text(c) ==> r == Some(c),
{
    let ghost s = text@;
    proof {
        assert forall|c: Claims| s == #[trigger] claims_text(c) implies
            uuid_at(s, 8, c.sub) && int_at(s, 52, c.exp as int)
            && int_at(s, (52 + decimal(c.exp as int).len() + 7) as int, c.iat as int)
            && s.len() == 52 + decimal(c.exp as int).len() + 7 + decimal(c.iat as int).len() + 1 by {
            claims_text_layout(c);
        }
    }
    let len = text.unicode_len();
    if len < 52 {
        return None;
    }
    let sub = match scan_uuid(text, 8) {
        Some(v) => v,
        None => return None,
    };
    let (exp, e1) = match scan_int(text, 52) {
        Some(p) => p,
        None => return None,
    };
    if e1 > len || len - e1 < 7 {
        return None;
    }
    let (iat, e2) = match scan_int(text, e1 + 7) {
        Some(p) => p,
        None => return None,
    };
    let c = Claims { sub, exp, iat };
    let back = claims_json(&c);
    if back == String::from_str(text) {
        Some(c)
    } else {
        None
    }
}

/// The token that jsonwebtoken's `encode` gives for a header naming `alg`, the
/// claims given as JSON text, and an HMAC key made from `secret`.
pub uninterp spec fn jwt_hmac_token(alg: HmacAlgorithm, claims: Seq<char>, secret: Seq<u8>) -> Seq<char>;

/// jsonwebtoken::encode with Header::new(alg), the claims passed through as
/// raw JSON (serde_json's RawValue::from_string, which only checks that the text
/// is JSON), and EncodingKey::from_secret(secret). With an HMAC key and an HMAC
/// algorithm `encode` only fails when serializing fails, so JSON text such as a
/// claims object always gives a token; the token is named by `jwt_hmac_token`.
/// The token's middle segment is the unpadded base64url text of the claims as
/// RawValue keeps them, which is the text with surrounding whitespace removed,
/// and the header segment is fixed by `alg`. A claims object's text has no
/// surrounding whitespace (it starts with `{` and ends with `}`), so for such a
/// text the token determines it among claims texts. Decoding the token with the
/// same algorithm and secret checks the signature and gives back that text,
/// provided its `exp` reads as an unsigned number (jsonwebtoken requires `exp`
/// and parses it as a u64): the last clause.
#[verifier::external_body]
fn jwt_encode(alg: HmacAlgorithm, claims: String, secret: &[u8]) -> (r: Option<String>)
    ensures
        r matches Some(t) ==> t@ == jwt_hmac_token(alg, claims@, secret@),
        (exists|c: Claims| claims@ == claims_text(c)) ==> r is Some,
        (exists|c: Claims| claims@ == claims_text(c)) ==> (r matches Some(t) ==> forall|c: Claims|
            t@ == #[trigger] jwt_hmac_token(alg, claims_text(c), secret@) ==> claims_text(c) == claims@),
        (exists|c: Claims| claims@ == claims_text(c) && 0 <= c.exp) ==> (r matches Some(t)
            ==> jwt_hmac_payload(alg, t@, secret@) == Some(claims@)),
{
    let raw = match serde_json::value::RawValue::from_string(claims) {
        Ok(r) => r,
        Err(_) => return None,
    };
    let header = jsonwebtoken::Header::new(match alg {
        HmacAlgorithm::HS256 => jsonwebtoken::Algorithm::HS256,
        HmacAlgorithm::HS384 => jsonwebtoken::Algorithm::HS384,
        HmacAlgorithm::HS512 => jsonwebtoken::Algorithm::HS512,
    });
    match jsonwebtoken::encode(&header, &raw, &jsonwebtoken::EncodingKey::from_secret(secret)) {
        Ok(t) => Some(t),
        Err(_) => None,
    }
}

/// The earliest whole-second Unix timestamp chrono represents:
/// DateTime::<Utc>::MIN_UTC.timestamp() (the first day of NaiveDate's MIN_YEAR,
/// (i32::MIN >> 13) + 1).
pub const MIN_TIMESTAMP: i64 = -8_334_601_228_800;

/// The latest whole-second Unix timestamp chrono represents:
/// DateTime::<Utc>::MAX_UTC.timestamp(), +262142-12-31T23:59:59Z (NaiveDate's
/// MAX_YEAR is (i32::MAX >> 13) - 1).
pub const MAX_TIMESTAMP: i64 = 8_210_266_876_799;

/// chrono::Utc::now().timestamp(): the current time in whole seconds since the
/// Unix epoch. Utc::now panics for a system time before the epoch and unwraps
/// DateTime::from_timestamp, so a reading it returns is no earlier than the
/// epoch and within chrono's range. Which reading comes back is left open.
#[verifier::external_body]
pub(crate) fn utc_now_timestamp() -> (t: i64)
    ensures
        0 <= t <= MAX_TIMESTAMP,
{
    chrono::Utc::now().timestamp()
}

/// chrono: DateTime::from_timestamp(ts, 0), moved on with checked_add_signed by
/// TimeDelta::try_minutes(minutes), read back with timestamp(). `None` exactly
/// where the start or the end leaves chrono's range (within that range the
/// delta is far below TimeDelta's bound of i64::MAX / 1000 seconds); otherwise
/// the timestamp `minutes` minutes later.
#[verifier::external_body]
fn timestamp_after_minutes(ts: i64, minutes: i64) -> (r: Option<i64>)
    ensures
        r is Some <==> (MIN_TIMESTAMP <= ts <= MAX_TIMESTAMP
            && MIN_TIMESTAMP <= ts + 60 * minutes <= MAX_TIMESTAMP),
        r matches Some(t) ==> t == ts + 60 * minutes,
{
    let start = match chrono::DateTime::from_timestamp(ts, 0) {
        Some(d) => d,
        None => return None,
    };
    let delta = match chrono::TimeDelta::try_minutes(minutes) {
        Some(d) => d,
        None => return None,
    };
    match start.checked_add_signed(delta) {
        Some(d) => Some(d.timestamp()),
        None => None,
    }
}

/// The claims of a token issued to `sub` at time `now`, valid for twenty minutes.
pub open spec fn fresh_claims(sub: u128, now: i64) -> Claims {
    Claims { sub, iat: now, exp: (now + 60 * TOKEN_LIFETIME_MINUTES) as i64 }
}

/// The seconds at which a token can be issued: the issue time and the expiry
/// twenty minutes later both lie in chrono's range.
pub open spec fn issuable_at(now: int) -> bool {
    MIN_TIMESTAMP <= now && now + 60 * TOKEN_LIFETIME_MINUTES <= MAX_TIMESTAMP
}

/// `t` is the token issued to `sub` at `now` with the secret: the HS512 token
/// of the fresh claims, and the text of no other claims gives it.
pub open spec fn issued_token(t: Seq<char>, sub: u128, now: i64, secret: Seq<u8>) -> bool {
    &&& t == jwt_hmac_token(HmacAlgorithm::HS512, claims_text(fresh_claims(sub, now)), secret)
    &&& forall|c: Claims| t == #[trigger] jwt_hmac_token(HmacAlgorithm::HS512, claims_text(c), secret)
        ==> claims_text(c) == claims_text(fresh_claims(sub, now))
    &&& 0 <= now + 60 * TOKEN_LIFETIME_MINUTES
        ==> jwt_hmac_payload(HmacAlgorithm::HS512, t, secret) == Some(claims_text(fresh_claims(sub, now)))
}

/// The answer to issuing a token to `sub` at `now`: the issued token where
/// `now` allows it, and the "valid timestamp" failure elsewhere.
pub open spec fn issue_answer(sub: u128, now: i64, secret: Seq<u8>, r: Result<String, Error>) -> bool {
    if issuable_at(now as int) {
        r matches Ok(t) && issued_token(t@, sub, now, secret)
    } else {
        r matches Err(e) && is_internal_with(e, "valid timestamp"@)
    }
}

/// Issues the token for the user at the Unix time `now`: HS512-signed claims
/// naming the user, issued at `now` and expiring twenty minutes later.
pub fn create_jwt_at(user_id: &u128, keys: &Keys, now: i64) -> (r: Result<String, Error>)
    ensures
        issue_answer(*user_id, now, keys.secret(), r),
{
    let expiration = match timestamp_after_minutes(now, TOKEN_LIFETIME_MINUTES) {
        Some(t) => t,
        None => return Err(Error::Internal(String::from_str("valid timestamp"))),
    };
    let claims = Claims { sub: *user_id, iat: now, exp: expiration };
    assert(claims == fresh_claims(*user_id, now));
    let text = claims_json(&claims);
    match jwt_encode(HmacAlgorithm::HS512, text, keys.secret_bytes()) {
        Some(t) => Ok(t),
        None => Err(Error::Internal(String::from_str("failed encode JWT"))),
    }
}

/// Issues a token for the user at the current time (see `create_jwt_at`).
pub fn create_jwt(user_id: &u128, keys: &Keys) -> (r: Result<String, Error>)
    ensures
        exists|now: i64| 0 <= now <= MAX_TIMESTAMP && issue_answer(*user_id, now, keys.secret(), r),
{
    let now = utc_now_timestamp();
    create_jwt_at(user_id, keys, now)
}

/// Tokens issued at the same second with the same secret are the same for the
/// same user and differ for different users.
pub proof fn tokens_identify_users(t1: Seq<char>, t2: Seq<char>, u: u128, v: u128, now: i64, secret: Seq<u8>)
    requires
        issued_token(t1, u, now, secret),
        issued_token(t2, v, now, secret),
    ensures
        u == v ==> t1 == t2,
        u != v ==> t1 != t2,
{
    if t1 == t2 {
        assert(t2 == jwt_hmac_token(HmacAlgorithm::HS512, claims_text(fresh_claims(u, now)), secret));
        claims_text_determines_sub(fresh_claims(u, now), fresh_claims(v, now));
    }
}

/// A token has expired once the current time is past its `exp`.
pub open spec fn expired(claims: Claims, now: int) -> bool {
    now > claims.exp
}

/// Accepts decoded claims at time `now` unless they have expired.
pub fn check_expiry(claims: Claims, now: i64) -> (r: Result<Claims, Error>)
    ensures
        expired(claims, now as int) ==> r matches Err(Error::Unauthorized),
        !expired(claims, now as int) ==> r == Ok::<Claims, Error>(claims),
{
    if now > claims.exp {
        Err(Error::Unauthorized)
    } else {
        Ok(claims)
    }
}

/// The claims text that `token` carries when it is well formed, its header
/// names `alg`, its signature checks with an HMAC key made from `secret`, and
/// its claims hold an `exp` that reads as an unsigned number: the middle
/// segment, base64url-decoded, as JSON text without surrounding whitespace.
/// `None` for any other token. (Whether `exp` has passed is not part of it.)
pub uninterp spec fn jwt_hmac_payload(alg: HmacAlgorithm, token: Seq<char>, secret: Seq<u8>) -> Option<Seq<char>>;

/// jsonwebtoken::decode into serde_json's RawValue (the claims text as it
/// stands) with DecodingKey::from_secret(secret) and Validation::new(alg) with
/// its own expiry test switched off (validate_exp = false; the library tests
/// expiry itself, against `exp` without leeway): the header must name `alg`,
/// the signature must check and `exp` must be present as an unsigned number.
/// The validation still reads the system clock, and like Utc::now it panics
/// for a clock before 1970; its result does not depend on the reading. A token
/// made by `encode` from a claims text carries that text back.
#[verifier::external_body]
fn jwt_decode_payload(alg: HmacAlgorithm, token: &str, secret: &[u8]) -> (r: Option<String>)
    ensures
        r is Some <==> jwt_hmac_payload(alg, token@, secret@) is Some,
        r matches Some(t) ==> jwt_hmac_payload(alg, token@, secret@) == Some(t@),
        r matches Some(t) ==> forall|c: Claims|
            token@ == #[trigger] jwt_hmac_token(alg, claims_text(c), secret@) ==> t@ == claims_text(c),
{
    let mut validation = jsonwebtoken::Validation::new(match alg {
        HmacAlgorithm::HS256 => jsonwebtoken::Algorithm::HS256,
        HmacAlgorithm::HS384 => jsonwebtoken::Algorithm::HS384,
        HmacAlgorithm::HS512 => jsonwebtoken::Algorithm::HS512,
    });
    validation.validate_exp = false;
    match jsonwebtoken::decode::<Box<serde_json::value::RawValue>>(
        token,
        &jsonwebtoken::DecodingKey::from_secret(secret),
        &validation,
    ) {
        Ok(data) => Some(data.claims.get().to_string()),
        Err(_) => None,
    }
}

/// The text of claims determines the claims.
pub proof fn claims_text_injective(c1: Claims, c2: Claims)
    requires
        claims_text(c1) == claims_text(c2),
    ensures
        c1 == c2,
{
    claims_text_determines_sub(c1, c2);
    claims_text_layout(c1);
    claims_text_layout(c2);
    let t = claims_text(c1);
    crate::json::int_at_unique(t, 52, c1.exp as int, c2.exp as int);
    crate::json::int_at_unique(t, (52 + decimal(c1.exp as int).len() + 7) as int, c1.iat as int, c2.iat as int);
}

/// The bearer token of a request, as text.
pub open spec fn token_view(token: Option<&str>) -> Option<Seq<char>> {
    match token {
        Some(t) => Some(t@),
        None => None,
    }
}

/// `token` carries, signed with HS512 under `secret`, the text of the claims
/// `c`, and they have not expired at `now`.
pub open spec fn accepts(token: Seq<char>, secret: Seq<u8>, now: int, c: Claims) -> bool {
    jwt_hmac_payload(HmacAlgorithm::HS512, token, secret) == Some(claims_text(c)) && !expired(c, now)
}

/// The answer to authenticating `token` when the clock reads `now`: the claims
/// the token carries where it is accepted, and unauthorized exactly where no
/// claims are accepted.
pub open spec fn authentication_answer(token: Option<Seq<char>>, secret: Seq<u8>, now: int, r: Result<Claims, Error>) -> bool {
    match r {
        Ok(c) => token matches Some(t) && accepts(t, secret, now, c),
        Err(e) => e is Unauthorized && !(token matches Some(t) && exists|c: Claims| #[trigger] accepts(t, secret, now, c)),
    }
}

/// Authenticates a request's bearer token (`None` where it carried none) as
/// at the Unix time `now`: the token must be HS512-signed with the keys'
/// secret and carry claims whose `exp` is not before `now`; those claims come
/// back, and any failure is unauthorized.
pub fn authenticate_token_at(token: Option<&str>, keys: &Keys, now: i64) -> (r: Result<Claims, Error>)
    ensures
        authentication_answer(token_view(token), keys.secret(), now as int, r),
        token matches Some(t) ==> (r matches Ok(c) ==> forall|c0: Claims|
            t@ == #[trigger] jwt_hmac_token(HmacAlgorithm::HS512, claims_text(c0), keys.secret()) ==> c == c0),
{
    let t = match token {
        Some(t) => t,
        None => return Err(Error::Unauthorized),
    };
    let payload = match jwt_decode_payload(HmacAlgorithm::HS512, t, keys.secret_bytes()) {
        Some(p) => p,
        None => {
            assert forall|c: Claims| !accepts(t@, keys.secret(), now as int, c) by {}
            return Err(Error::Unauthorized);
        },
    };
    let claims = match parse_claims(payload.as_str()) {
        Some(c) => c,
        None => {
            assert forall|c: Claims| !accepts(t@, keys.secret(), now as int, c) by {
                if accepts(t@, keys.secret(), now as int, c) {
                    assert(payload@ == claims_text(c));
                }
            }
            return Err(Error::Unauthorized);
        },
    };
    let r = check_expiry(claims, now);
    proof {
        assert forall|c: Claims| accepts(t@, keys.secret(), now as int, c) implies c == claims by {
            claims_text_injective(c, claims);
        }
    }
    r
}

/// Authenticates a request from its bearer token, `None` where the request
/// carried none: the token must be HS512-signed with the keys' secret and carry
/// claims that have not expired at the current time. Any failure is
/// unauthorized. Accepted claims are those the token carries; for a token that
/// `create_jwt_at` issued, they are the claims it was issued with.
pub fn authenticate_token(token: Option<&str>, keys: &Keys) -> (r: Result<Claims, Error>)
    ensures
        token is None ==> r matches Err(Error::Unauthorized),
        r matches Err(e) ==> e is Unauthorized,
        r matches Ok(c) ==> token matches Some(t)
            && jwt_hmac_payload(HmacAlgorithm::HS512, t@, keys.secret()) == Some(claims_text(c)),
        token matches Some(t) ==> (r matches Ok(c) ==> forall|c0: Claims|
            t@ == #[trigger] jwt_hmac_token(HmacAlgorithm::HS512, claims_text(c0), keys.secret()) ==> c == c0),
        r matches Ok(c) ==> exists|now: i64| 0 <= now <= MAX_TIMESTAMP && !expired(c, now as int),
        exists|now: i64| 0 <= now <= MAX_TIMESTAMP
            && authentication_answer(token_view(token), keys.secret(), now as int, r),
{
    let now = utc_now_timestamp();
    authenticate_token_at(token, keys, now)
}

/// A token that `create_jwt_at` issues to `sub` at `t` (it issues one wherever
/// `t` and twenty minutes later lie in chrono's range) is accepted by
/// `authenticate_token_at`, with the claims it was issued with, at every clock
/// reading from `t` to twenty minutes after it, and refused at every later one.
pub proof fn issued_token_authenticates(
    sub: u128,
    t: i64,
    secret: Seq<u8>,
    issued: Result<String, Error>,
    now: int,
    r: Result<Claims, Error>,
)
    requires
        issue_answer(sub, t, secret, issued),
        issued matches Ok(token) ==> authentication_answer(Some(token@), secret, now, r),
        0 <= now,
    ensures
        issuable_at(t as int) ==> issued is Ok,
        issued is Ok && t <= now <= t + 60 * TOKEN_LIFETIME_MINUTES
            ==> r == Ok::<Claims, Error>(fresh_claims(sub, t)),
        issued is Ok && 0 <= t + 60 * TOKEN_LIFETIME_MINUTES < now
            ==> r matches Err(Error::Unauthorized),
{
    if let Ok(token) = issued {
        let fresh = fresh_claims(sub, t);
        if 0 <= t + 60 * TOKEN_LIFETIME_MINUTES {
            assert(jwt_hmac_payload(HmacAlgorithm::HS512, token@, secret) == Some(claims_text(fresh)));
            if now <= t + 60 * TOKEN_LIFETIME_MINUTES {
                assert(accepts(token@, secret, now, fresh));
            }
            match r {
                Ok(c) => {
                    claims_text_injective(c, fresh);
                },
                Err(_) => {},
            }
        }
    }
}

} // verus!
