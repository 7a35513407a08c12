use vstd::prelude::*;
use crate::jwt::Keys;

verus! {

/// The server's settings: where the database is and the secret that signs tokens.
#[derive(Debug)]
pub struct Config {
    pub database_url: String,
    pub jwt_secret: String,
}

impl Config {
    /// The token keys made from the configured secret's UTF-8 bytes.
    pub fn keys(&self) -> (keys: Keys)
        ensures
            keys.secret() == vstd::utf8::encode_utf8(self.jwt_secret@),
    {
        Keys::new(self.jwt_secret.as_str().as_bytes())
    }
}

} // verus!
