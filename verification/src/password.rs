use vstd::prelude::*;
use crate::error::{Error, is_internal_with};

verus! {

/// What checking a password against a stored PHC hash string found.
#[derive(Clone, Copy, PartialEq, Eq, Debug)]
pub enum PasswordCheck {
    /// The password produces the stored hash.
    Matches,
    /// The hash string is well formed but the password does not produce it.
    Mismatch,
    /// The stored string is not a PHC hash string.
    MalformedHash,
    /// The check itself failed (for instance, unsupported parameters).
    Failed,
}

/// The PHC string that Argon2 with its default parameters (Argon2id, version
/// 0x13) gives for `password` and the B64-encoded `salt`; `None` where hashing
/// fails (for instance, a salt that is not valid B64 of an admissible length).
pub uninterp spec fn argon2_phc(password: Seq<char>, salt: Seq<char>) -> Option<Seq<char>>;

/// What parsing `phc` as a PHC string and verifying `password` against it with
/// Argon2 finds.
pub uninterp spec fn argon2_check(password: Seq<char>, phc: Seq<char>) -> PasswordCheck;

/// A character of the B64 alphabet (standard base64 without padding).
pub open spec fn is_b64_char(c: char) -> bool {
    ('A' <= c && c <= 'Z') || ('a' <= c && c <= 'z') || ('0' <= c && c <= '9') || c == '+' || c == '/'
}

/// The start of every PHC string that Argon2 with its default parameters writes:
/// algorithm Argon2id, version 19 (0x13), 19456 KiB of memory, 2 passes, 1 lane.
pub open spec fn argon2_default_prefix() -> Seq<char> {
    "$argon2id$v=19$m=19456,t=2,p=1$"@
}

/// `h` is a default-parameter Argon2 PHC string with the salt `salt`: the
/// prefix, the salt, a `$`, and the 43 B64 characters of the 32-byte output.
pub open spec fn phc_layout(h: Seq<char>, salt: Seq<char>) -> bool {
    &&& h.len() == 31 + salt.len() + 1 + 43
    &&& h.subrange(0, 31) == argon2_default_prefix()
    &&& h.subrange(31, (31 + salt.len()) as int) == salt
    &&& h[(31 + salt.len()) as int] == '$'
}

/// The longest password, in UTF-8 bytes, that Argon2 hashes (argon2::MAX_PWD_LEN).
pub const MAX_PASSWORD_BYTES: u64 = 0xFFFF_FFFF;

/// password_hash::SaltString::generate(rand::thread_rng()), as its B64 text:
/// a fresh random salt. Which salt comes back is left open. The salt is the
/// canonical B64 text of 16 random bytes, which SaltString::from_b64 accepts
/// and which Argon2 (salts of 8 bytes or more) hashes with; with the default
/// parameters Argon2 then refuses only passwords longer than MAX_PWD_LEN bytes.
/// The clauses state that, and that 16 bytes give 22 B64 characters.
#[verifier::external_body]
fn generate_salt() -> (salt: String)
    ensures
        salt@.len() == 22,
        forall|i: int| 0 <= i < salt@.len() ==> is_b64_char(#[trigger] salt@[i]),
        forall|p: Seq<char>| vstd::utf8::encode_utf8(p).len() <= MAX_PASSWORD_BYTES
            ==> (#[trigger] argon2_phc(p, salt@)) is Some,
{
    argon2::password_hash::SaltString::generate(rand::thread_rng()).as_str().to_string()
}

/// Argon2::default().hash_password over the password's UTF-8 bytes with the salt
/// parsed by SaltString::from_b64, rendered as a PHC string. The result is named
/// by `argon2_phc`. Verifying the same password against the string it returns
/// recomputes the hash from the parameters and salt the string records, so it
/// finds a match; checking any other password of admissible length against it
/// recomputes without error and so finds a match or a mismatch, never a failure.
/// The string is written by PasswordHash's Display: `$argon2id$v=19$`, the
/// parameters `m=19456,t=2,p=1`, `$`, the salt text as given, `$`, and the
/// 32-byte output in B64 (43 characters).
#[verifier::external_body]
fn argon2_hash(password: &str, salt: &str) -> (r: Option<String>)
    ensures
        r is Some <==> argon2_phc(password@, salt@) is Some,
        r matches Some(h) ==> argon2_phc(password@, salt@) == Some(h@),
        r matches Some(h) ==> argon2_check(password@, h@) == PasswordCheck::Matches,
        r matches Some(h) ==> phc_layout(h@, salt@),
        r matches Some(h) ==> forall|q: Seq<char>| vstd::utf8::encode_utf8(q).len() <= MAX_PASSWORD_BYTES
            ==> #[trigger] argon2_check(q, h@) is Matches || argon2_check(q, h@) is Mismatch,
{
    let salt = match argon2::password_hash::SaltString::from_b64(salt) {
        Ok(s) => s,
        Err(_) => return None,
    };
    match argon2::PasswordHasher::hash_password(&argon2::Argon2::default(), password.as_bytes(), &salt) {
        Ok(h) => Some(h.to_string()),
        Err(_) => None,
    }
}

/// password_hash::PasswordHash::new on `phc`, then Argon2::default().verify_password
/// over the password's UTF-8 bytes; the outcome is named by `argon2_check`.
/// A parse error gives `MalformedHash`, `Error::Password` gives `Mismatch`, any
/// other error `Failed`.
#[verifier::external_body]
fn argon2_verify(password: &str, phc: &str) -> (r: PasswordCheck)
    ensures
        r == argon2_check(password@, phc@),
{
    let hash = match argon2::password_hash::PasswordHash::new(phc) {
        Ok(h) => h,
        Err(_) => return PasswordCheck::MalformedHash,
    };
    match argon2::PasswordVerifier::verify_password(&argon2::Argon2::default(), password.as_bytes(), &hash) {
        Ok(()) => PasswordCheck::Matches,
        Err(argon2::password_hash::Error::Password) => PasswordCheck::Mismatch,
        Err(_) => PasswordCheck::Failed,
    }
}

/// The answer a password check gives: whether the password is right, or the
/// internal failure behind a check that could not be made.
pub open spec fn verdict_answers(check: PasswordCheck, r: Result<bool, Error>) -> bool {
    match check {
        PasswordCheck::Matches => r == Ok::<bool, Error>(true),
        PasswordCheck::Mismatch => r == Ok::<bool, Error>(false),
        PasswordCheck::MalformedHash => r matches Err(e) && is_internal_with(e, "BUG: invalid password hash"@),
        PasswordCheck::Failed => r matches Err(e) && is_internal_with(e, "BUG: failed to verify password"@),
    }
}

/// Turns the outcome of a password check into the answer of `verify_password`.
pub fn password_verdict(check: PasswordCheck) -> (r: Result<bool, Error>)
    ensures
        verdict_answers(check, r),
{
    match check {
        PasswordCheck::Matches => Ok(true),
        PasswordCheck::Mismatch => Ok(false),
        PasswordCheck::MalformedHash => Err(Error::Internal(String::from_str("BUG: invalid password hash"))),
        PasswordCheck::Failed => Err(Error::Internal(String::from_str("BUG: failed to verify password"))),
    }
}

/// Hashes a password with Argon2 (default parameters) and a fresh random salt,
/// giving a PHC string. The password then verifies against the string, and
/// checking any other password against it answers without error.
pub fn hash_password(password: String) -> (r: Result<String, Error>)
    ensures
        r matches Ok(h) ==> exists|salt: Seq<char>|
            salt.len() == 22 && (forall|i: int| 0 <= i < salt.len() ==> is_b64_char(#[trigger] salt[i]))
            && argon2_phc(password@, salt) == Some(h@) && #[trigger] phc_layout(h@, salt),
        r matches Ok(h) ==> forall|q: Seq<char>| vstd::utf8::encode_utf8(q).len() <= MAX_PASSWORD_BYTES
            ==> #[trigger] argon2_check(q, h@) is Matches || argon2_check(q, h@) is Mismatch,
        r matches Ok(h) ==> argon2_check(password@, h@) == PasswordCheck::Matches,
        r matches Err(e) ==> is_internal_with(e, "BUG: failed to hash password"@),
        vstd::utf8::encode_utf8(password@).len() <= MAX_PASSWORD_BYTES ==> r is Ok,
{
    let salt = generate_salt();
    match argon2_hash(password.as_str(), salt.as_str()) {
        Some(h) => Ok(h),
        None => Err(Error::Internal(String::from_str("BUG: failed to hash password"))),
    }
}

/// Checks a password against a stored Argon2 PHC hash string: `Ok(true)` when it
/// matches, `Ok(false)` when it does not, and an internal error when the stored
/// string is malformed or the check cannot be made.
pub fn verify_password(password: String, password_hash: String) -> (r: Result<bool, Error>)
    ensures
        verdict_answers(argon2_check(password@, password_hash@), r),
{
    let check = argon2_verify(password.as_str(), password_hash.as_str());
    password_verdict(check)
}

/// A hash made with a salt determines the salt, and the same password with the
/// same salt gives the same hash: two hashes of a password are equal exactly
/// when their salts are.
pub proof fn hash_determined_by_salt(password: Seq<char>, s1: Seq<char>, s2: Seq<char>, h1: Seq<char>, h2: Seq<char>)
    requires
        argon2_phc(password, s1) == Some(h1),
        argon2_phc(password, s2) == Some(h2),
        phc_layout(h1, s1),
        phc_layout(h2, s2),
        s1.len() == s2.len(),
    ensures
        h1 == h2 <==> s1 == s2,
{
    if h1 == h2 {
        assert(s1 =~= h1.subrange(31, (31 + s1.len()) as int));
        assert(s2 =~= h2.subrange(31, (31 + s2.len()) as int));
    }
}

/// A stored hash never equals a password that the registration rules admit
/// (at most 32 characters): the hash string is longer.
pub proof fn stored_hash_differs_from_password(password: Seq<char>, h: Seq<char>, salt: Seq<char>)
    requires
        password.len() <= crate::user::PASSWORD_MAX,
        phc_layout(h, salt),
    ensures
        h != password,
{
}

} // verus!
