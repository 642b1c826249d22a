//! The session service: registration, login, refresh, who-am-I and logout
//! over a store of user records.
//!
//! A user has one session slot. Login fills it with the bound value of a
//! fresh refresh token, refresh reads it, logout clears it. An access token
//! is checked by its signature and expiry alone, so it outlives a logout.
//!
//! What the service makes of an answer of the store is decided by four
//! small functions, `account_of`, `session_of`, `enrolled` and `saved`: the
//! text of a store's failure never leaves them, and only a missing record
//! and, at registration, a conflict are told apart from a general error.

use crate::clock::utc_now_micros;
use crate::error::{AuthError, ModelError};
use crate::ident::{random_uuid, uuid_hyphenated, uuid_text, version_four};
use crate::jwt::{hs256_token, signed_under, valid_ttl, JwtClaims, Lifetime};
use crate::repository::{
    admits, email_taken, email_taken_by_other, token_held, Records, UserRepository,
};
use crate::text::{lowercased, to_lowercase};
use crate::token::{bound_value, Token};
use crate::user::{password_accepted, text_of, User, UserResponse, UserView};
use vstd::prelude::*;

verus! {

/// What a client sends to log in.
#[derive(Debug)]
pub struct LoginDto {
    pub email: String,
    pub password: String,
}

/// What a client sends to have a new access token.
#[derive(Debug)]
pub struct RefreshTokenDto {
    pub token: String,
}

/// What a client sends to register.
#[derive(Debug)]
pub struct RegisterDto {
    pub name: String,
    pub email: String,
    pub password: String,
}

/// What a login or a refresh hands back.
#[derive(Debug)]
pub struct AuthResponse {
    pub id: u128,
    pub name: String,
    pub access_token: String,
    /// The session identifier of the refresh token, never its bound value.
    pub refresh_token: String,
}

/// What such a response holds, as plain values.
pub struct AuthResponseView {
    pub id: u128,
    pub name: Seq<char>,
    pub access_token: Seq<char>,
    pub refresh_token: Seq<char>,
}

impl View for AuthResponse {
    type V = AuthResponseView;

    open spec fn view(&self) -> AuthResponseView {
        AuthResponseView {
            id: self.id,
            name: self.name@,
            access_token: self.access_token@,
            refresh_token: self.refresh_token@,
        }
    }
}

/// The record of a new account under the address given: the password as
/// its hash, no session, both times the time of registration.
pub open spec fn account_record(
    name: Seq<char>,
    address: Seq<char>,
    hash: Seq<char>,
    id: u128,
    now: i64,
) -> UserView {
    UserView {
        id,
        name,
        email: address,
        password: hash,
        token: None,
        created_at: now,
        updated_at: now,
    }
}

/// The record that a registration creates: the record of a new account
/// under the address in lowercase.
pub open spec fn new_account(
    name: Seq<char>,
    email: Seq<char>,
    hash: Seq<char>,
    id: u128,
    now: i64,
) -> UserView {
    account_record(name, lowercased(email), hash, id, now)
}

/// The records after the session slot of `id` was set at `now`.
pub open spec fn with_slot(before: Records, id: u128, slot: Option<Seq<char>>, now: i64) -> Records {
    before.insert(id, before[id].with_session(slot, now))
}

/// The records after the record under the user's identifier, if there is
/// one, was replaced by `user`.
pub open spec fn replaced(before: Records, user: UserView) -> Records {
    if before.dom().contains(user.id) {
        before.insert(user.id, user)
    } else {
        before
    }
}

/// Whether the store refuses to put `user` in place of the record under its
/// identifier, because another record carries its address.
pub open spec fn clashes(before: Records, user: UserView) -> bool {
    before.dom().contains(user.id) && email_taken_by_other(before, user.id, user.email)
}

/// Whether `token` is the access token for `id`, issued at `now` to live
/// for `minutes` under the secret. Such a token is never empty, is signed
/// under the secret, and holds the claims in its payload.
pub open spec fn is_access_token(
    token: Seq<char>,
    id: u128,
    minutes: i64,
    now: i64,
    secret: Seq<char>,
) -> bool {
    let claims = JwtClaims::issued(id, minutes, now);
    &&& hs256_token(claims.sub, claims.exp, claims.iat, secret) == Some(token)
    &&& token.len() > 0
    &&& signed_under(token, secret)
    &&& JwtClaims::payload_holds(token, claims.sub, claims.exp, claims.iat)
}

/// Whether no access token can be signed for `id` at `now`.
pub open spec fn no_access_token(id: u128, minutes: i64, now: i64, secret: Seq<char>) -> bool {
    let claims = JwtClaims::issued(id, minutes, now);
    hs256_token(claims.sub, claims.exp, claims.iat, secret) is None
}

/// What the service makes of a lookup: the record found; `NotFound` where
/// the store found none, whether it says so by `None` or by its own
/// `NotFound`; a general error for every other failure of the store.
pub open spec fn account_decision(found: Result<Option<User>, ModelError>) -> Result<
    User,
    AuthError,
> {
    match found {
        Ok(Some(user)) => Ok(user),
        Ok(None) => Err(AuthError::NotFound),
        Err(e) => if e is NotFound {
            Err(AuthError::NotFound)
        } else {
            Err(AuthError::GeneralError)
        },
    }
}

/// What the service makes of a lookup by bound value: as for any lookup,
/// and then the record only where its session slot holds the bound value; a
/// general error where the slot is empty, `TokenExpired` where it holds
/// another value.
pub open spec fn session_decision(found: Result<Option<User>, ModelError>, bound: Seq<char>) -> Result<
    User,
    AuthError,
> {
    match account_decision(found) {
        Ok(user) => match user.token {
            Some(held) => if held@ == bound {
                Ok(user)
            } else {
                Err(AuthError::TokenExpired)
            },
            None => Err(AuthError::GeneralError),
        },
        Err(e) => Err(e),
    }
}

/// What the service makes of the store's answer to a new record: a conflict
/// where the store reports one, a general error for every other failure.
pub open spec fn enroll_decision(created: Result<(), ModelError>) -> Result<(), AuthError> {
    match created {
        Ok(()) => Ok(()),
        Err(e) => if e is Conflict {
            Err(AuthError::Conflict)
        } else {
            Err(AuthError::GeneralError)
        },
    }
}

/// What the service makes of the store's answer to a changed record: a
/// general error for every failure.
pub open spec fn save_decision(updated: Result<(), ModelError>) -> Result<(), AuthError> {
    match updated {
        Ok(()) => Ok(()),
        Err(_) => Err(AuthError::GeneralError),
    }
}

/// Decides on a lookup.
pub fn account_of(found: Result<Option<User>, ModelError>) -> (r: Result<User, AuthError>)
    ensures
        r == account_decision(found),
{
    match found {
        Ok(Some(user)) => Ok(user),
        Ok(None) => Err(AuthError::NotFound),
        Err(ModelError::NotFound) => Err(AuthError::NotFound),
        Err(_) => Err(AuthError::GeneralError),
    }
}

/// Decides on a lookup by the bound value of `token`.
pub fn session_of(found: Result<Option<User>, ModelError>, token: &Token) -> (r: Result<
    User,
    AuthError,
>)
    ensures
        r == session_decision(found, token.encrypted@),
{
    match account_of(found) {
        Ok(user) => {
            let held = match &user.token {
                Some(held) => token.validate(held.as_str()),
                None => {
                    return Err(AuthError::GeneralError);
                },
            };
            if held {
                Ok(user)
            } else {
                Err(AuthError::TokenExpired)
            }
        },
        Err(e) => Err(e),
    }
}

/// Decides on the store's answer to a new record.
pub fn enrolled(created: Result<(), ModelError>) -> (r: Result<(), AuthError>)
    ensures
        r == enroll_decision(created),
{
    match created {
        Ok(()) => Ok(()),
        Err(ModelError::Conflict) => Err(AuthError::Conflict),
        Err(_) => Err(AuthError::GeneralError),
    }
}

/// Decides on the store's answer to a changed record.
pub fn saved(updated: Result<(), ModelError>) -> (r: Result<(), AuthError>)
    ensures
        r == save_decision(updated),
{
    match updated {
        Ok(()) => Ok(()),
        Err(_) => Err(AuthError::GeneralError),
    }
}

/// What adding an account may do. It succeeds only where the store admits
/// the account, and then the account is the one new record. It fails with
/// a conflict or a general error and changes nothing; on a dependable store
/// it fails only where the store cannot admit the account, and then with a
/// conflict.
pub open spec fn enroll_outcome(
    before: Records,
    after: Records,
    account: UserView,
    result: Result<(), AuthError>,
    dependable: bool,
) -> bool {
    match result {
        Ok(()) => admits(before, account) && after == before.insert(account.id, account),
        Err(e) => {
            &&& after == before
            &&& e == AuthError::Conflict || e == AuthError::GeneralError
            &&& dependable ==> !admits(before, account) && e == AuthError::Conflict
        },
    }
}

/// What a registration may do. It succeeds only by adding one account with
/// the address in lowercase, a hash that accepts the password, and an
/// identifier with the marks of a random UUID. It fails with a conflict or
/// a general error and changes nothing; on a dependable store a conflict is
/// met only where the address is taken or the fresh identifier is.
pub open spec fn register_outcome(
    before: Records,
    after: Records,
    name: Seq<char>,
    email: Seq<char>,
    password: Seq<char>,
    result: Result<(), AuthError>,
    dependable: bool,
) -> bool {
    match result {
        Ok(()) => exists|id: u128, hash: Seq<char>, now: i64|
            {
                &&& version_four(id)
                &&& password_accepted(hash, password)
                &&& admits(before, #[trigger] new_account(name, email, hash, id, now))
                &&& after == before.insert(id, new_account(name, email, hash, id, now))
            },
        Err(e) => {
            &&& after == before
            &&& e == AuthError::Conflict || e == AuthError::GeneralError
            &&& dependable && e == AuthError::Conflict ==> email_taken(before, lowercased(email))
                || exists|id: u128| before.dom().contains(id)
        },
    }
}

/// What checking the credentials for an address may return. It succeeds
/// only with the record under the address, whose hash accepts the password.
/// No record under the address is `NotFound`; a password that the hash
/// refuses is `InvalidCredentials`; a general error comes only from a store
/// that is not dependable.
pub open spec fn credentials_outcome(
    records: Records,
    address: Seq<char>,
    password: Seq<char>,
    result: Result<User, AuthError>,
    dependable: bool,
) -> bool {
    match result {
        Ok(user) => {
            &&& records.dom().contains(user.id)
            &&& records[user.id] == user@
            &&& user@.email == address
            &&& password_accepted(user@.password, password)
        },
        Err(AuthError::NotFound) => !email_taken(records, address),
        Err(AuthError::InvalidCredentials) => exists|id: u128|
            records.dom().contains(id) && #[trigger] records[id].email == address
                && !password_accepted(records[id].password, password),
        Err(AuthError::GeneralError) => !dependable,
        Err(_) => false,
    }
}

/// What opening a session for a user may do. It succeeds only by putting
/// the bound value of the session identifier into the user's slot, and
/// hands back the user's identifier and name, the access token issued at
/// that time, and the session identifier. It fails only with a general
/// error: either the store refused the update and nothing changed, or the
/// slot was filled and the signer gave no access token.
pub open spec fn session_outcome(
    before: Records,
    after: Records,
    user: UserView,
    secret: Seq<char>,
    minutes: i64,
    session: Seq<char>,
    now: i64,
    result: Result<AuthResponse, AuthError>,
    dependable: bool,
) -> bool {
    let opened = user.with_session(Some(bound_value(secret, session)), now);
    match result {
        Ok(response) => {
            &&& !clashes(before, opened)
            &&& after == replaced(before, opened)
            &&& response.id == user.id
            &&& response@.name == user.name
            &&& response@.refresh_token == session
            &&& is_access_token(response@.access_token, user.id, minutes, now, secret)
        },
        Err(AuthError::GeneralError) => {
            ||| after == before && (dependable ==> clashes(before, opened))
            ||| !clashes(before, opened) && after == replaced(before, opened) && no_access_token(
                user.id,
                minutes,
                now,
                secret,
            )
        },
        Err(_) => false,
    }
}

/// What a login by an address may do, with a given session identifier at a
/// given time.
///
/// It succeeds only for the account under the address whose hash accepts
/// the password: the slot then holds the bound value of the session
/// identifier, and the response carries the account's identifier and name,
/// the access token issued at that time, and the session identifier. No
/// account under the address is `NotFound`; a password that the hash
/// refuses is `InvalidCredentials`; both leave the store as it was. Every
/// other failure is a general error. After the credentials were accepted it
/// either left the store as it was (the store refused the update) or filled
/// the slot (the signer failed); before that it comes only from a store
/// that is not dependable.
pub open spec fn address_login_outcome(
    before: Records,
    after: Records,
    address: Seq<char>,
    password: Seq<char>,
    secret: Seq<char>,
    minutes: i64,
    session: Seq<char>,
    now: i64,
    result: Result<AuthResponse, AuthError>,
    dependable: bool,
) -> bool {
    let slot = Some(bound_value(secret, session));
    match result {
        Ok(response) => {
            &&& before.dom().contains(response.id)
            &&& before[response.id].email == address
            &&& password_accepted(before[response.id].password, password)
            &&& after == with_slot(before, response.id, slot, now)
            &&& response@.name == before[response.id].name
            &&& response@.refresh_token == session
            &&& is_access_token(response@.access_token, response.id, minutes, now, secret)
        },
        Err(AuthError::NotFound) => after == before && !email_taken(before, address),
        Err(AuthError::InvalidCredentials) => after == before && exists|id: u128|
            before.dom().contains(id) && #[trigger] before[id].email == address
                && !password_accepted(before[id].password, password),
        Err(AuthError::GeneralError) => {
            ||| after == before && !dependable
            ||| exists|id: u128|
                {
                    &&& before.dom().contains(id)
                    &&& #[trigger] before[id].email == address
                    &&& password_accepted(before[id].password, password)
                    &&& {
                        ||| after == before && (dependable ==> email_taken_by_other(
                            before,
                            id,
                            address,
                        ))
                        ||| after == with_slot(before, id, slot, now) && no_access_token(
                            id,
                            minutes,
                            now,
                            secret,
                        )
                    }
                }
        },
        Err(_) => false,
    }
}

/// What a login with a given session identifier at a given time may do:
/// what a login by the lowercased address may do.
pub open spec fn login_outcome(
    before: Records,
    after: Records,
    email: Seq<char>,
    password: Seq<char>,
    secret: Seq<char>,
    minutes: i64,
    session: Seq<char>,
    now: i64,
    result: Result<AuthResponse, AuthError>,
    dependable: bool,
) -> bool {
    address_login_outcome(
        before,
        after,
        lowercased(email),
        password,
        secret,
        minutes,
        session,
        now,
        result,
        dependable,
    )
}

/// What a login may do. The credentials are checked first: a login that is
/// `NotFound` or `InvalidCredentials` is so by the records alone and
/// changes nothing. Once the credentials are accepted, it is a general
/// error that changes nothing where the system gives no random bytes, and
/// otherwise what a login may do at some time with some session identifier
/// that is the text of a random UUID.
pub open spec fn login_outcome_any(
    before: Records,
    after: Records,
    email: Seq<char>,
    password: Seq<char>,
    secret: Seq<char>,
    minutes: i64,
    result: Result<AuthResponse, AuthError>,
    dependable: bool,
) -> bool {
    let address = lowercased(email);
    match result {
        Err(AuthError::NotFound) => after == before && !email_taken(before, address),
        Err(AuthError::InvalidCredentials) => after == before && exists|id: u128|
            before.dom().contains(id) && #[trigger] before[id].email == address
                && !password_accepted(before[id].password, password),
        _ => {
            ||| result == Err::<AuthResponse, AuthError>(AuthError::GeneralError) && after
                == before && (!dependable || exists|id: u128|
                before.dom().contains(id) && #[trigger] before[id].email == address
                    && password_accepted(before[id].password, password))
            ||| exists|seed: u128, now: i64|
                version_four(seed) && #[trigger] login_outcome(
                    before,
                    after,
                    email,
                    password,
                    secret,
                    minutes,
                    uuid_text(seed),
                    now,
                    result,
                    dependable,
                )
        },
    }
}

/// What a refresh at a given time may return.
///
/// It succeeds only for an account whose slot holds the bound value of the
/// presented session identifier, and hands back that identifier with the
/// access token issued at that time. No record with the bound value is
/// `NotFound`. A general error on a dependable store means that the signer
/// failed. A store that is not dependable may hand out a record with
/// another slot, which is `TokenExpired`, or with an empty one, which is a
/// general error, as is every failure of its own.
pub open spec fn refresh_outcome(
    records: Records,
    token: Seq<char>,
    secret: Seq<char>,
    minutes: i64,
    now: i64,
    result: Result<AuthResponse, AuthError>,
    dependable: bool,
) -> bool {
    let bound = bound_value(secret, token);
    match result {
        Ok(response) => {
            &&& records.dom().contains(response.id)
            &&& records[response.id].token == Some(bound)
            &&& response@.name == records[response.id].name
            &&& response@.refresh_token == token
            &&& is_access_token(response@.access_token, response.id, minutes, now, secret)
        },
        Err(AuthError::NotFound) => !token_held(records, bound),
        Err(AuthError::TokenExpired) => !dependable && exists|id: u128|
            records.dom().contains(id) && (#[trigger] records[id]).token is Some
                && records[id].token != Some(bound),
        Err(AuthError::GeneralError) => {
            ||| !dependable
            ||| exists|id: u128|
                records.dom().contains(id) && (#[trigger] records[id]).token == Some(bound)
                    && no_access_token(id, minutes, now, secret)
        },
        Err(_) => false,
    }
}

/// What who-am-I may return: the shown part of the record under the
/// identifier, or `NotFound` where there is none. A general error comes
/// only from a store that is not dependable.
pub open spec fn whoami_outcome(
    records: Records,
    id: u128,
    result: Result<UserResponse, AuthError>,
    dependable: bool,
) -> bool {
    match result {
        Ok(response) => records.dom().contains(id) && response@ == records[id].shown(),
        Err(AuthError::NotFound) => !records.dom().contains(id),
        Err(AuthError::GeneralError) => !dependable,
        Err(_) => false,
    }
}

/// What a logout at a given time may do. It succeeds only by clearing the
/// slot of the record under the identifier; no such record is `NotFound`.
/// Every other failure is a general error, and every failure leaves the
/// store as it was. On a dependable store a general error means that the
/// store refused the update.
pub open spec fn logout_outcome(
    before: Records,
    after: Records,
    id: u128,
    now: i64,
    result: Result<(), AuthError>,
    dependable: bool,
) -> bool {
    match result {
        Ok(()) => before.dom().contains(id) && after == with_slot(before, id, None, now),
        Err(AuthError::NotFound) => after == before && !before.dom().contains(id),
        Err(AuthError::GeneralError) => after == before && (dependable ==> before.dom().contains(
            id,
        ) && email_taken_by_other(before, id, before[id].email)),
        Err(_) => false,
    }
}

/// The session service over a store `T`.
pub struct AuthUseCase<T: UserRepository> {
    user: T,
    jwt_secret: String,
    jwt_duration: Lifetime,
}

impl<T: UserRepository> AuthUseCase<T> {
    /// The store that the service works on.
    pub closed spec fn store(&self) -> T {
        self.user
    }

    /// The secret that binds refresh tokens and signs access tokens.
    pub closed spec fn secret(&self) -> Seq<char> {
        self.jwt_secret@
    }

    /// The minutes that an access token lives.
    pub closed spec fn minutes(&self) -> i64 {
        self.jwt_duration.minutes()
    }

    /// Whether two states of the service differ in the store's records
    /// only.
    pub open spec fn same_setup(&self, other: &Self) -> bool {
        &&& self.secret() == other.secret()
        &&& self.minutes() == other.minutes()
        &&& self.store().dependable() == other.store().dependable()
    }

    /// The store, to read it.
    pub fn repository(&self) -> (r: &T)
        ensures
            *r == self.store(),
    {
        &self.user
    }

    /// A service over the store, with the secret and the lifetime of access
    /// tokens in minutes.
    pub fn new(user: T, jwt_secret: String, jwt_duration: i64) -> (r: Self)
        requires
            valid_ttl(jwt_duration),
        ensures
            r.store() == user,
            r.secret() == jwt_secret@,
            r.minutes() == jwt_duration,
    {
        AuthUseCase { user, jwt_secret, jwt_duration: Lifetime::new(jwt_duration) }
    }
}

impl<T: UserRepository> AuthUseCase<T> {
    /// Checks the credentials for an address as the store spells it: looks
    /// up the account and checks the password against its hash. The store
    /// is only read.
    pub fn check_credentials(&self, address: &str, password: String) -> (r: Result<
        User,
        AuthError,
    >)
        ensures
            credentials_outcome(
                self.store().records(),
                address@,
                password@,
                r,
                self.store().dependable(),
            ),
    {
        let user = match account_of(self.user.find_by_email(address)) {
            Ok(user) => user,
            Err(e) => {
                return Err(e);
            },
        };
        if !user.verify_password(password) {
            assert(self.store().records()[user.id].email == address@);
            return Err(AuthError::InvalidCredentials);
        }
        Ok(user)
    }

    /// Opens a session for a user whose credentials were accepted: fills
    /// the session slot with the bound value of the session identifier and
    /// signs an access token.
    pub fn open_session(&mut self, user: User, session: String, now: i64) -> (r: Result<
        AuthResponse,
        AuthError,
    >)
        ensures
            final(self).same_setup(old(self)),
            session_outcome(
                old(self).store().records(),
                final(self).store().records(),
                user@,
                old(self).secret(),
                old(self).minutes(),
                session@,
                now,
                r,
                old(self).store().dependable(),
            ),
    {
        let mut user = user;
        let refresh_token = match Token::new(self.jwt_secret.as_str(), session.as_str()) {
            Ok(token) => token,
            Err(_) => {
                return Err(AuthError::GeneralError);
            },
        };
        user.token = Some(refresh_token.encrypted);
        user.updated_at = now;
        match saved(self.user.update(&user)) {
            Ok(()) => {},
            Err(e) => {
                return Err(e);
            },
        }
        let claims = JwtClaims::at(user.id, self.jwt_duration, now);
        let access_token = match claims.encode(self.jwt_secret.as_str()) {
            Ok(token) => token,
            Err(_) => {
                return Err(AuthError::GeneralError);
            },
        };
        Ok(
            AuthResponse {
                id: user.id,
                name: user.name,
                access_token,
                refresh_token: refresh_token.decrypted,
            },
        )
    }

    /// Logs in by an address as the store spells it, with the session
    /// identifier and the time given.
    pub fn login_with_address(
        &mut self,
        address: &str,
        password: String,
        session: String,
        now: i64,
    ) -> (r: Result<AuthResponse, AuthError>)
        ensures
            final(self).same_setup(old(self)),
            address_login_outcome(
                old(self).store().records(),
                final(self).store().records(),
                address@,
                password@,
                old(self).secret(),
                old(self).minutes(),
                session@,
                now,
                r,
                old(self).store().dependable(),
            ),
    {
        let user = match self.check_credentials(address, password) {
            Ok(user) => user,
            Err(e) => {
                return Err(e);
            },
        };
        let ghost id = user.id;
        let ghost before = self.store().records();
        assert(before[id].email == address@);
        self.open_session(user, session, now)
    }

    /// Logs in with the session identifier and the time given: looks up the
    /// account under the lowercased address, checks the password, fills the
    /// session slot and signs an access token.
    pub fn login_session(&mut self, dto: LoginDto, session: String, now: i64) -> (r: Result<
        AuthResponse,
        AuthError,
    >)
        ensures
            final(self).same_setup(old(self)),
            login_outcome(
                old(self).store().records(),
                final(self).store().records(),
                dto.email@,
                dto.password@,
                old(self).secret(),
                old(self).minutes(),
                session@,
                now,
                r,
                old(self).store().dependable(),
            ),
    {
        let address = to_lowercase(dto.email.as_str());
        self.login_with_address(address.as_str(), dto.password, session, now)
    }

    /// Logs in: checks the credentials, then mints a fresh refresh token
    /// for the account and an access token, and overwrites any session the
    /// account had.
    pub fn login(&mut self, dto: LoginDto) -> (r: Result<AuthResponse, AuthError>)
        ensures
            final(self).same_setup(old(self)),
            login_outcome_any(
                old(self).store().records(),
                final(self).store().records(),
                dto.email@,
                dto.password@,
                old(self).secret(),
                old(self).minutes(),
                r,
                old(self).store().dependable(),
            ),
    {
        let ghost before = self.store().records();
        let ghost email = dto.email@;
        let ghost password = dto.password@;
        let address = to_lowercase(dto.email.as_str());
        let user = match self.check_credentials(address.as_str(), dto.password) {
            Ok(user) => user,
            Err(e) => {
                return Err(e);
            },
        };
        let ghost id = user.id;
        assert(before[id].email == lowercased(email));
        let seed = match random_uuid() {
            Some(seed) => seed,
            None => {
                return Err(AuthError::GeneralError);
            },
        };
        let session = uuid_hyphenated(seed);
        let now = utc_now_micros();
        let r = self.open_session(user, session, now);
        assert(login_outcome(
            before,
            self.store().records(),
            email,
            password,
            old(self).secret(),
            old(self).minutes(),
            uuid_text(seed),
            now,
            r,
            old(self).store().dependable(),
        ));
        r
    }
}

impl<T: UserRepository> AuthUseCase<T> {
    /// Adds the account of a registration under an address as the store is
    /// to spell it, with the identifier, password hash and time given.
    pub fn register_with_address(
        &mut self,
        name: String,
        address: String,
        hash: String,
        id: u128,
        now: i64,
    ) -> (r: Result<(), AuthError>)
        ensures
            final(self).same_setup(old(self)),
            enroll_outcome(
                old(self).store().records(),
                final(self).store().records(),
                account_record(name@, address@, hash@, id, now),
                r,
                old(self).store().dependable(),
            ),
    {
        let user = User {
            id,
            name,
            email: address,
            password: hash,
            token: None,
            created_at: now,
            updated_at: now,
        };
        enrolled(self.user.create(user))
    }

    /// Adds the account of a registration whose identifier, password hash
    /// and time are given, under the address in lowercase.
    pub fn register_account(&mut self, dto: RegisterDto, id: u128, hash: String, now: i64) -> (r:
        Result<(), AuthError>)
        ensures
            final(self).same_setup(old(self)),
            enroll_outcome(
                old(self).store().records(),
                final(self).store().records(),
                new_account(dto.name@, dto.email@, hash@, id, now),
                r,
                old(self).store().dependable(),
            ),
    {
        let address = to_lowercase(dto.email.as_str());
        self.register_with_address(dto.name, address, hash, id, now)
    }

    /// Registers an account: hashes the password and adds a record with the
    /// address in lowercase and no session.
    pub fn register(&mut self, dto: RegisterDto) -> (r: Result<(), AuthError>)
        ensures
            final(self).same_setup(old(self)),
            register_outcome(
                old(self).store().records(),
                final(self).store().records(),
                dto.name@,
                dto.email@,
                dto.password@,
                r,
                old(self).store().dependable(),
            ),
    {
        let hash = match User::hash_password(dto.password.as_str()) {
            Ok(hash) => hash,
            Err(_) => {
                return Err(AuthError::GeneralError);
            },
        };
        let id = match random_uuid() {
            Some(id) => id,
            None => {
                return Err(AuthError::GeneralError);
            },
        };
        let now = utc_now_micros();
        let ghost before = self.user.records();
        let ghost account = new_account(dto.name@, dto.email@, hash@, id, now);
        let r = self.register_account(dto, id, hash, now);
        proof {
            if r is Err && old(self).store().dependable() {
                if before.dom().contains(id) {
                } else {
                    assert(email_taken(before, account.email));
                }
            }
        }
        r
    }

    /// Refreshes at the time given: finds the account whose slot holds the
    /// bound value of the presented session identifier and signs a new
    /// access token for it. The refresh token itself stays as it is.
    pub fn refresh_at(&self, dto: RefreshTokenDto, now: i64) -> (r: Result<
        AuthResponse,
        AuthError,
    >)
        ensures
            refresh_outcome(
                self.store().records(),
                dto.token@,
                self.secret(),
                self.minutes(),
                now,
                r,
                self.store().dependable(),
            ),
    {
        let refresh_token = match Token::new(self.jwt_secret.as_str(), dto.token.as_str()) {
            Ok(token) => token,
            Err(_) => {
                return Err(AuthError::GeneralError);
            },
        };
        let found = self.user.find_by_token(refresh_token.encrypted.as_str());
        let ghost answer = found;
        let user = match session_of(found, &refresh_token) {
            Ok(user) => user,
            Err(e) => {
                proof {
                    if let Ok(Some(other)) = answer {
                        assert(self.store().records()[other.id].token == text_of(other.token));
                    }
                }
                return Err(e);
            },
        };
        let ghost id = user.id;
        assert(self.store().records()[id].token == Some(bound_value(self.secret(), dto.token@)));
        let claims = JwtClaims::at(user.id, self.jwt_duration, now);
        let access_token = match claims.encode(self.jwt_secret.as_str()) {
            Ok(token) => token,
            Err(_) => {
                return Err(AuthError::GeneralError);
            },
        };
        Ok(
            AuthResponse {
                id: user.id,
                name: user.name,
                access_token,
                refresh_token: refresh_token.decrypted,
            },
        )
    }

    /// Refreshes: hands out a new access token for the session of the
    /// presented refresh token, which stays as it is. The store is only
    /// read.
    pub fn refresh_access_token(&self, dto: RefreshTokenDto) -> (r: Result<AuthResponse, AuthError>)
        ensures
            exists|now: i64| #[trigger]
                refresh_outcome(
                    self.store().records(),
                    dto.token@,
                    self.secret(),
                    self.minutes(),
                    now,
                    r,
                    self.store().dependable(),
                ),
    {
        let now = utc_now_micros();
        let ghost token = dto.token@;
        let r = self.refresh_at(dto, now);
        assert(refresh_outcome(
            self.store().records(),
            token,
            self.secret(),
            self.minutes(),
            now,
            r,
            self.store().dependable(),
        ));
        r
    }

    /// Shows the account under an identifier that an access token has
    /// already vouched for. The store is only read.
    pub fn whoami(&self, id: u128) -> (r: Result<UserResponse, AuthError>)
        ensures
            whoami_outcome(self.store().records(), id, r, self.store().dependable()),
    {
        match account_of(self.user.find_by_id(id)) {
            Ok(user) => Ok(UserResponse::from(user)),
            Err(e) => Err(e),
        }
    }

    /// Logs out at the time given: clears the session slot of the account.
    pub fn logout_at(&mut self, id: u128, now: i64) -> (r: Result<(), AuthError>)
        ensures
            final(self).same_setup(old(self)),
            logout_outcome(
                old(self).store().records(),
                final(self).store().records(),
                id,
                now,
                r,
                old(self).store().dependable(),
            ),
    {
        let mut user = match account_of(self.user.find_by_id(id)) {
            Ok(user) => user,
            Err(e) => {
                return Err(e);
            },
        };
        user.token = None;
        user.updated_at = now;
        saved(self.user.update(&user))
    }

    /// Logs out: clears the session slot of the account, so that its
    /// refresh token finds no session any more. An access token that was
    /// handed out stays valid until it expires.
    pub fn logout(&mut self, id: u128) -> (r: Result<(), AuthError>)
        ensures
            final(self).same_setup(old(self)),
            exists|now: i64| #[trigger]
                logout_outcome(
                    old(self).store().records(),
                    final(self).store().records(),
                    id,
                    now,
                    r,
                    old(self).store().dependable(),
                ),
    {
        let now = utc_now_micros();
        let r = self.logout_at(id, now);
        assert(logout_outcome(
            old(self).store().records(),
            self.store().records(),
            id,
            now,
            r,
            old(self).store().dependable(),
        ));
        r
    }
}

} // verus!
