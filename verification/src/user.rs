use vstd::prelude::*;
use crate::error::{Error, is_conflict_with};
use crate::validation::{
    Field, Rule, Violation, length_accepted, regex_is_match, username_shape,
    validate_length,
};

verus! {

/// Fewest characters a username may have.
pub const USERNAME_MIN: u64 = 3;
/// Most characters a username may have.
pub const USERNAME_MAX: u64 = 16;
/// Fewest characters a password may have.
pub const PASSWORD_MIN: u64 = 8;
/// Most characters a password may have.
pub const PASSWORD_MAX: u64 = 32;

/// The database constraint that keeps usernames unique.
pub open spec fn username_unique_constraint() -> Seq<char> {
    "user_username_key"@
}

/// A registration request.
#[derive(Debug)]
pub struct NewUser {
    pub username: String,
    pub password: String,
}

/// A login request.
#[derive(Debug)]
pub struct LoginUser {
    pub username: String,
    pub password: String,
}

/// A stored user account.
#[derive(Debug)]
pub struct User {
    /// The account's UUID, as its 128-bit value.
    pub user_id: u128,
    pub username: String,
    /// The Argon2 hash of the password, as a PHC string.
    pub password_hash: String,
}

/// How inserting a row failed, as the database reported it.
#[derive(Debug)]
pub struct DbFailure {
    /// The constraint the row broke, where the failure was a constraint violation.
    pub constraint: Option<String>,
    /// The database's description of the failure.
    pub description: String,
}

/// The rules a registration breaks, in the order they are checked: the
/// username's length, the username's pattern, then the password's length.
pub open spec fn registration_violations(username: Seq<char>, password: Seq<char>) -> Seq<(Field, Rule, Seq<char>)> {
    (if length_accepted(username.len(), Some(USERNAME_MIN), Some(USERNAME_MAX), None) {
        Seq::empty()
    } else {
        seq![(Field::Username, Rule::Length { min: USERNAME_MIN, max: USERNAME_MAX }, username)]
    }) + (if username_shape(username) {
        Seq::empty()
    } else {
        seq![(Field::Username, Rule::Pattern, username)]
    }) + (if length_accepted(password.len(), Some(PASSWORD_MIN), Some(PASSWORD_MAX), None) {
        Seq::empty()
    } else {
        seq![(Field::Password, Rule::Length { min: PASSWORD_MIN, max: PASSWORD_MAX }, password)]
    })
}

/// A registration is valid when its username has 3 to 16 characters, all ASCII
/// letters, digits or underscores, and its password has 8 to 32 characters.
pub open spec fn registration_valid(username: Seq<char>, password: Seq<char>) -> bool {
    &&& USERNAME_MIN <= username.len() <= USERNAME_MAX
    &&& username_shape(username)
    &&& PASSWORD_MIN <= password.len() <= PASSWORD_MAX
}

/// The views of a list of violations.
pub open spec fn violation_views(list: Seq<Violation>) -> Seq<(Field, Rule, Seq<char>)> {
    list.map_values(|v: Violation| v@)
}

fn copy_string(s: &String) -> (r: String)
    ensures
        r@ == s@,
{
    String::from_str(s.as_str())
}

impl NewUser {
    /// Checks the registration rules and lists every rule broken.
    pub fn validate(&self) -> (r: Result<(), Vec<Violation>>)
        ensures
            r is Ok <==> registration_valid(self.username@, self.password@),
            r is Ok <==> registration_violations(self.username@, self.password@).len() == 0,
            r matches Err(list) ==> violation_views(list@) == registration_violations(self.username@, self.password@),
    {
        let mut list: Vec<Violation> = Vec::new();
        let ghost u = self.username@;
        let ghost p = self.password@;
        if !validate_length(self.username.as_str(), Some(USERNAME_MIN), Some(USERNAME_MAX), None) {
            list.push(Violation {
                field: Field::Username,
                rule: Rule::Length { min: USERNAME_MIN, max: USERNAME_MAX },
                value: copy_string(&self.username),
            });
        }
        let shape = regex_is_match("^[0-9A-Za-z_]+$", self.username.as_str());
        assert(shape == Some(username_shape(u)));
        if shape != Some(true) {
            list.push(Violation {
                field: Field::Username,
                rule: Rule::Pattern,
                value: copy_string(&self.username),
            });
        }
        if !validate_length(self.password.as_str(), Some(PASSWORD_MIN), Some(PASSWORD_MAX), None) {
            list.push(Violation {
                field: Field::Password,
                rule: Rule::Length { min: PASSWORD_MIN, max: PASSWORD_MAX },
                value: copy_string(&self.password),
            });
        }
        assert(violation_views(list@) =~= registration_violations(u, p));
        if list.len() == 0 {
            Ok(())
        } else {
            Err(list)
        }
    }
}

/// Whether `e` is the answer to a failed insertion of a new user: a broken
/// uniqueness constraint on the username is a conflict ("username taken");
/// any other failure is a database failure carrying the database's description.
pub open spec fn answers_insert_failure(failure: DbFailure, e: Error) -> bool {
    if failure.constraint matches Some(name) && name@ == username_unique_constraint() {
        is_conflict_with(e, "username taken"@)
    } else {
        e matches Error::Database(d) && d@ == failure.description@
    }
}

/// Maps a failed insertion of a new user to the error the request answers.
pub fn insert_failure(failure: DbFailure) -> (e: Error)
    ensures
        answers_insert_failure(failure, e),
{
    let taken = match &failure.constraint {
        Some(name) => *name == String::from_str("user_username_key"),
        None => false,
    };
    if taken {
        Error::Conflict(String::from_str("username taken"))
    } else {
        Error::Database(failure.description)
    }
}

/// Admits a registration request whose fields keep the rules, and rejects
/// any other with the list of rules it breaks.
pub fn admit_registration(new_user: &NewUser) -> (r: Result<(), Error>)
    ensures
        r is Ok <==> registration_valid(new_user.username@, new_user.password@),
        r matches Err(e) ==> e matches Error::InvalidEntity(list)
            && violation_views(list@) == registration_violations(new_user.username@, new_user.password@),
{
    match new_user.validate() {
        Ok(()) => Ok(()),
        Err(list) => Err(Error::InvalidEntity(list)),
    }
}

/// The HTTP status of a successful registration: 201 Created.
pub const CREATED: u16 = 201;

/// The answer to a registration once the new user's row was inserted or
/// refused: created, or the error the failure maps to.
pub fn registration_outcome(insert: Result<(), DbFailure>) -> (r: Result<u16, Error>)
    ensures
        insert is Ok ==> r == Ok::<u16, Error>(CREATED),
        insert matches Err(f) ==> r matches Err(e) && answers_insert_failure(f, e),
{
    match insert {
        Ok(()) => Ok(CREATED),
        Err(failure) => Err(insert_failure(failure)),
    }
}

} // verus!
