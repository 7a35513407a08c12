use vstd::prelude::*;

verus! {

/// A field of a request body that a rule can reject.
#[derive(Clone, Copy, PartialEq, Eq, Debug)]
pub enum Field {
    Username,
    Password,
}

/// A validation rule, with the bounds it was checked against.
#[derive(Clone, Copy, PartialEq, Eq, Debug)]
pub enum Rule {
    /// The number of characters must lie in `min..=max`.
    Length { min: u64, max: u64 },
    /// The value must match the field's regular expression.
    Pattern,
}

/// One broken rule: which field, which rule, and the rejected value.
#[derive(Debug)]
pub struct Violation {
    pub field: Field,
    pub rule: Rule,
    pub value: String,
}

impl View for Violation {
    type V = (Field, Rule, Seq<char>);

    open spec fn view(&self) -> (Field, Rule, Seq<char>) {
        (self.field, self.rule, self.value@)
    }
}

impl Field {
    /// The field's name as it appears in the request body.
    pub fn name(&self) -> (name: &'static str)
        ensures
            name@ == field_name(*self),
    {
        match self {
            Field::Username => "username",
            Field::Password => "password",
        }
    }
}

impl Rule {
    /// The code that names the rule in an error report.
    pub fn code(&self) -> (code: &'static str)
        ensures
            code@ == rule_code(*self),
    {
        match self {
            Rule::Length { .. } => "length",
            Rule::Pattern => "regex",
        }
    }
}

pub open spec fn field_name(f: Field) -> Seq<char> {
    match f {
        Field::Username => "username"@,
        Field::Password => "password"@,
    }
}

pub open spec fn rule_code(r: Rule) -> Seq<char> {
    match r {
        Rule::Length { .. } => "length"@,
        Rule::Pattern => "regex"@,
    }
}

/// Whether a value of `len` characters passes a length rule with the optional
/// bounds: an exact length, when given, decides alone.
pub open spec fn length_accepted(len: nat, min: Option<u64>, max: Option<u64>, equal: Option<u64>) -> bool {
    match equal {
        Some(e) => len == e,
        None => (min matches Some(lo) ==> lo <= len) && (max matches Some(hi) ==> len <= hi),
    }
}

/// validator::validate_length, applied to a string slice: whether the number of
/// `char`s in `value` passes the bounds (an exact length overrides min and max).
#[verifier::external_body]
pub(crate) fn validate_length(value: &str, min: Option<u64>, max: Option<u64>, equal: Option<u64>) -> (ok: bool)
    ensures
        ok == length_accepted(value@.len(), min, max, equal),
{
    validator::validate_length(value, min, max, equal)
}

/// A character that the username pattern admits: an ASCII digit or letter, or `_`.
pub open spec fn is_username_char(c: char) -> bool {
    ('0' <= c && c <= '9') || ('A' <= c && c <= 'Z') || ('a' <= c && c <= 'z') || c == '_'
}

/// The text is non-empty and made of username characters only.
pub open spec fn username_shape(s: Seq<char>) -> bool {
    s.len() > 0 && forall|i: int| 0 <= i < s.len() ==> #[trigger] is_username_char(s[i])
}

/// The regular expression a username must match.
pub open spec fn username_pattern() -> Seq<char> {
    "^[0-9A-Za-z_]+$"@
}

/// What compiling `pattern` with the `regex` crate and matching it against
/// `text` gives: `None` where the pattern does not compile.
pub uninterp spec fn regex_verdict(pattern: Seq<char>, text: Seq<char>) -> Option<bool>;

/// regex::Regex::new followed by Regex::is_match. The result is named by
/// `regex_verdict`; for the username pattern `^[0-9A-Za-z_]+$` (anchored at
/// both ends of the text, one or more ASCII alphanumerics or underscores) the
/// regex syntax documentation gives the outcome, which the second clause states.
#[verifier::external_body]
pub(crate) fn regex_is_match(pattern: &str, text: &str) -> (r: Option<bool>)
    ensures
        r == regex_verdict(pattern@, text@),
        pattern@ == username_pattern() ==> r == Some(username_shape(text@)),
{
    match regex::Regex::new(pattern) {
        Ok(re) => Some(re.is_match(text)),
        Err(_) => None,
    }
}

} // verus!
