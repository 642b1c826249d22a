//! The user record and the one-way hashing of its password.

use argon2::password_hash::rand_core::{OsRng, RngCore};
use argon2::password_hash::{PasswordHash, PasswordHasher, PasswordVerifier, Salt, SaltString};
use argon2::Argon2;
use vstd::prelude::*;
use vstd::std_specs::convert::FromSpecImpl;

verus! {

/// A user as the store keeps it. `id` is the 128-bit value of the record's
/// UUID; the two times are microseconds since the Unix epoch.
#[derive(Debug)]
pub struct User {
    pub id: u128,
    pub name: String,
    pub email: String,
    /// The hashed password, never the password itself.
    pub password: String,
    /// The bound value of the live refresh token; `None` without a session.
    pub token: Option<String>,
    pub created_at: i64,
    pub updated_at: i64,
}

/// What a user record holds, as plain values.
pub struct UserView {
    pub id: u128,
    pub name: Seq<char>,
    pub email: Seq<char>,
    pub password: Seq<char>,
    pub token: Option<Seq<char>>,
    pub created_at: i64,
    pub updated_at: i64,
}

/// The text of an optional string.
pub open spec fn text_of(value: Option<String>) -> Option<Seq<char>> {
    match value {
        Some(text) => Some(text@),
        None => None,
    }
}

impl View for User {
    type V = UserView;

    open spec fn view(&self) -> UserView {
        UserView {
            id: self.id,
            name: self.name@,
            email: self.email@,
            password: self.password@,
            token: text_of(self.token),
            created_at: self.created_at,
            updated_at: self.updated_at,
        }
    }
}

impl UserView {
    /// The record with another session slot and time of change.
    pub open spec fn with_session(self, token: Option<Seq<char>>, at: i64) -> UserView {
        UserView { token, updated_at: at, ..self }
    }
}

/// Why a password could not be hashed.
#[derive(Debug, Clone, Copy, PartialEq, Eq, Structural)]
pub enum HashError {
    /// The system gave no random bytes for the salt.
    Entropy,
    /// The hash function refused the password or the salt.
    Hasher,
}

/// The error of the password hasher: carried, never looked into.
#[verifier::external_type_specification]
#[verifier::external_body]
pub struct ExPasswordHashError(argon2::password_hash::Error);

/// Whether Argon2 accepts a password for a stored hash: what `Argon2`'s
/// `verify_password` decides for the hash parsed by `PasswordHash::new`, and
/// `false` where the stored text does not parse.
pub uninterp spec fn password_accepted(hash: Seq<char>, password: Seq<char>) -> bool;

/// The PHC string that `Argon2::default()` writes for a password under a
/// salt, `None` where it refuses them.
pub uninterp spec fn argon2_phc(password: Seq<char>, salt: Seq<char>) -> Option<Seq<char>>;

/// Draws sixteen random bytes from the system with `OsRng`'s
/// `try_fill_bytes` and writes them as a salt with `SaltString::encode_b64`.
/// `None` where the system gives none. Nothing is claimed of the salt.
#[verifier::external_body]
fn fresh_salt() -> (r: Option<String>) {
    let mut bytes = [0u8; Salt::RECOMMENDED_LENGTH];
    OsRng.try_fill_bytes(&mut bytes).ok()?;
    let salt = SaltString::encode_b64(&bytes).ok()?;
    Some(salt.as_str().to_owned())
}

/// Calls `hash_password` of `Argon2::default()` with the salt read by
/// `SaltString::from_b64`, and writes the hash as a PHC string. The crate
/// documents that such a string, parsed again, verifies against the password
/// it was made from. Beyond that the contract only names the string.
#[verifier::external_body]
fn argon2_hash(password: &str, salt: &str) -> (r: Result<String, argon2::password_hash::Error>)
    ensures
        match r {
            Ok(hash) => argon2_phc(password@, salt@) == Some(hash@),
            Err(_) => argon2_phc(password@, salt@) is None,
        },
        r matches Ok(hash) ==> password_accepted(hash@, password@),
{
    let salt = SaltString::from_b64(salt)?;
    Ok(Argon2::default().hash_password(password.as_bytes(), &salt)?.to_string())
}

/// Parses the stored text with `PasswordHash::new` and calls
/// `verify_password` of `Argon2::default()`, which hashes the candidate with
/// the parameters and salt of the stored hash and compares the outputs.
#[verifier::external_body]
fn argon2_verify(hash: &str, password: &str) -> (r: bool)
    ensures
        r == password_accepted(hash@, password@),
{
    match PasswordHash::new(hash) {
        Ok(parsed) => Argon2::default().verify_password(password.as_bytes(), &parsed).is_ok(),
        Err(_) => false,
    }
}

impl User {
    /// Hashes a password under the given salt. A hash that comes back is
    /// accepted for that password.
    pub fn hash_with_salt(password: &str, salt: &str) -> (r: Result<String, HashError>)
        ensures
            match r {
                Ok(hash) => argon2_phc(password@, salt@) == Some(hash@),
                Err(e) => e == HashError::Hasher && argon2_phc(password@, salt@) is None,
            },
            r matches Ok(hash) ==> password_accepted(hash@, password@),
    {
        match argon2_hash(password, salt) {
            Ok(hash) => Ok(hash),
            Err(_) => Err(HashError::Hasher),
        }
    }

    /// Hashes a password under a fresh random salt. A hash that comes back
    /// is the one that Argon2 writes for the password under the salt that
    /// was drawn, and is accepted for that password. It fails with
    /// `Entropy` where the system gave no salt, and with `Hasher` only where
    /// Argon2 refused the password under the salt that was drawn.
    pub fn hash_password(password: &str) -> (r: Result<String, HashError>)
        ensures
            r matches Ok(hash) ==> password_accepted(hash@, password@) && exists|salt: Seq<char>|
                argon2_phc(password@, salt) == Some(hash@),
            r == Err::<String, HashError>(HashError::Hasher) ==> exists|salt: Seq<char>|
                argon2_phc(password@, salt) is None,
    {
        match fresh_salt() {
            Some(salt) => User::hash_with_salt(password, salt.as_str()),
            None => Err(HashError::Entropy),
        }
    }

    /// Whether the password is the one this record was registered with. A
    /// stored hash that does not parse accepts nothing.
    pub fn verify_password(&self, password: String) -> (r: bool)
        ensures
            r == password_accepted(self.password@, password@),
    {
        argon2_verify(self.password.as_str(), password.as_str())
    }

    /// A copy of the record.
    pub fn duplicate(&self) -> (r: User)
        ensures
            r@ == self@,
    {
        let token = match &self.token {
            Some(bound) => Some(bound.clone()),
            None => None,
        };
        User {
            id: self.id,
            name: self.name.clone(),
            email: self.email.clone(),
            password: self.password.clone(),
            token,
            created_at: self.created_at,
            updated_at: self.updated_at,
        }
    }
}

/// What the service shows of a user: never the hash, never the session.
#[derive(Debug)]
pub struct UserResponse {
    pub id: u128,
    pub name: String,
    pub email: String,
}

/// What a user response holds, as plain values.
pub struct UserResponseView {
    pub id: u128,
    pub name: Seq<char>,
    pub email: Seq<char>,
}

impl View for UserResponse {
    type V = UserResponseView;

    open spec fn view(&self) -> UserResponseView {
        UserResponseView { id: self.id, name: self.name@, email: self.email@ }
    }
}

impl UserView {
    /// The part of the record that a response shows.
    pub open spec fn shown(self) -> UserResponseView {
        UserResponseView { id: self.id, name: self.name, email: self.email }
    }
}

impl From<User> for UserResponse {
    fn from(value: User) -> (r: UserResponse) {
        UserResponse { id: value.id, name: value.name, email: value.email }
    }
}

impl FromSpecImpl<User> for UserResponse {
    open spec fn obeys_from_spec() -> bool {
        true
    }

    open spec fn from_spec(value: User) -> UserResponse {
        UserResponse { id: value.id, name: value.name, email: value.email }
    }
}

} // verus!
