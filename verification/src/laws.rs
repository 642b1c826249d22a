//! What holds of the session service across several calls.
//!
//! Each law speaks of the records before and after a call and of what the
//! call returned, in the terms in which the service states its own
//! contracts.

use crate::auth::{
    address_login_outcome, enroll_outcome, is_access_token, login_outcome, login_outcome_any,
    logout_outcome, new_account, no_access_token, refresh_outcome, register_outcome,
    whoami_outcome, with_slot, AuthResponse,
};
use crate::error::AuthError;
use crate::ident::{uuid_text, version_four};
use crate::jwt::{signed_under, JwtClaims, TokenRejected};
use crate::repository::{
    admits, consistent, create_keeps_consistent, email_taken, email_taken_by_other,
    own_email_clashes_with_none, token_held, update_keeps_consistent, Records,
};
use crate::text::lowercased;
use crate::token::bound_value;
use crate::user::{password_accepted, UserResponse, UserView};
use vstd::prelude::*;

verus! {

/// A registration keeps a consistent store consistent, and afterwards the
/// lowercased address is taken by an account without a session whose hash
/// accepts the password.
pub proof fn register_adds_one_account(
    before: Records,
    after: Records,
    name: Seq<char>,
    email: Seq<char>,
    password: Seq<char>,
    dependable: bool,
)
    requires
        consistent(before),
        register_outcome(before, after, name, email, password, Ok(()), dependable),
    ensures
        consistent(after),
        !email_taken(before, lowercased(email)),
        exists|id: u128|
            {
                &&& !before.dom().contains(id)
                &&& after.dom().contains(id)
                &&& after == before.insert(id, after[id])
                &&& (#[trigger] after[id]).email == lowercased(email)
                &&& after[id].name == name
                &&& after[id].token is None
                &&& password_accepted(after[id].password, password)
            },
{
    let (id, hash, now) = choose|id: u128, hash: Seq<char>, now: i64|
        {
            &&& version_four(id)
            &&& password_accepted(hash, password)
            &&& admits(before, #[trigger] new_account(name, email, hash, id, now))
            &&& after == before.insert(id, new_account(name, email, hash, id, now))
        };
    let account = new_account(name, email, hash, id, now);
    create_keeps_consistent(before, account);
    assert(after[id] == account);
}

/// Add an account under an address, then log in by that very address with a
/// password that its hash accepts: the login succeeds for that account, or
/// ends in a general error. On a dependable store it succeeds unless the
/// signer gives no access token.
pub proof fn login_by_address_after_enrolling(
    start: Records,
    enrolled: Records,
    after: Records,
    account: UserView,
    password: Seq<char>,
    secret: Seq<char>,
    minutes: i64,
    session: Seq<char>,
    now: i64,
    dependable: bool,
    result: Result<AuthResponse, AuthError>,
)
    requires
        consistent(start),
        password_accepted(account.password, password),
        enroll_outcome(start, enrolled, account, Ok(()), dependable),
        address_login_outcome(
            enrolled,
            after,
            account.email,
            password,
            secret,
            minutes,
            session,
            now,
            result,
            dependable,
        ),
    ensures
        result is Ok || result == Err::<AuthResponse, AuthError>(AuthError::GeneralError),
        result matches Ok(response) ==> {
            &&& response.id == account.id
            &&& response@.name == account.name
            &&& response@.refresh_token == session
            &&& response@.access_token.len() > 0
            &&& after[account.id].token == Some(bound_value(secret, session))
        },
        dependable ==> (result is Ok <==> !no_access_token(account.id, minutes, now, secret)),
{
    let id = account.id;
    let key = account.email;
    create_keeps_consistent(start, account);
    assert(enrolled[id] == account);
    assert(email_taken(enrolled, key));
    assert forall|other: u128|
        enrolled.dom().contains(other) && #[trigger] enrolled[other].email
            == key implies other == id by {
        assert(enrolled[other].email == enrolled[id].email);
    }
    match result {
        Ok(response) => {
            assert(response.id == id);
        },
        Err(AuthError::GeneralError) => {
            if dependable {
                let holder = choose|holder: u128|
                    {
                        &&& enrolled.dom().contains(holder)
                        &&& #[trigger] enrolled[holder].email == key
                        &&& password_accepted(enrolled[holder].password, password)
                        &&& {
                            ||| after == enrolled && (dependable ==> email_taken_by_other(
                                enrolled,
                                holder,
                                key,
                            ))
                            ||| after == with_slot(
                                enrolled,
                                holder,
                                Some(bound_value(secret, session)),
                                now,
                            ) && no_access_token(holder, minutes, now, secret)
                        }
                    };
                assert(holder == id);
                own_email_clashes_with_none(enrolled, id);
            }
        },
        _ => {},
    }
}

/// Register, then log in with the same password and an address that is the
/// same in lowercase: the login is neither `NotFound` nor
/// `InvalidCredentials`. It succeeds, with an access token and a refresh
/// token that are not empty, for the account that was registered; or it
/// ends in a general error.
pub proof fn login_after_register(
    start: Records,
    registered: Records,
    after: Records,
    name: Seq<char>,
    email: Seq<char>,
    login_email: Seq<char>,
    password: Seq<char>,
    secret: Seq<char>,
    minutes: i64,
    dependable: bool,
    result: Result<AuthResponse, AuthError>,
)
    requires
        consistent(start),
        lowercased(login_email) == lowercased(email),
        register_outcome(start, registered, name, email, password, Ok(()), dependable),
        login_outcome_any(
            registered,
            after,
            login_email,
            password,
            secret,
            minutes,
            result,
            dependable,
        ),
    ensures
        result is Ok || result == Err::<AuthResponse, AuthError>(AuthError::GeneralError),
        result matches Ok(response) ==> {
            &&& response@.access_token.len() > 0
            &&& response@.refresh_token.len() > 0
            &&& !start.dom().contains(response.id)
            &&& registered[response.id].email == lowercased(email)
            &&& response@.name == name
            &&& after[response.id].token == Some(bound_value(secret, response@.refresh_token))
        },
{
    register_adds_one_account(start, registered, name, email, password, dependable);
    let id = choose|id: u128|
        {
            &&& !start.dom().contains(id)
            &&& registered.dom().contains(id)
            &&& registered == start.insert(id, registered[id])
            &&& (#[trigger] registered[id]).email == lowercased(email)
            &&& registered[id].name == name
            &&& registered[id].token is None
            &&& password_accepted(registered[id].password, password)
        };
    let key = lowercased(email);
    assert(email_taken(registered, key));
    assert forall|other: u128|
        registered.dom().contains(other) && #[trigger] registered[other].email
            == key implies other == id by {
        assert(registered[other].email == registered[id].email);
    }
    if result is Ok {
        let (seed, now) = choose|seed: u128, now: i64|
            version_four(seed) && #[trigger] login_outcome(
                registered,
                after,
                login_email,
                password,
                secret,
                minutes,
                uuid_text(seed),
                now,
                result,
                dependable,
            );
        login_session_after_register(
            start,
            registered,
            after,
            name,
            email,
            login_email,
            password,
            secret,
            minutes,
            uuid_text(seed),
            now,
            dependable,
            result,
        );
    }
}

/// Register, then log in with the same password and an address that is the
/// same in lowercase, a given session identifier and a given time: the
/// login succeeds or ends in a general error. On a dependable store it
/// succeeds unless the signer gives no access token, and then the session is
/// already in its slot.
pub proof fn login_session_after_register(
    start: Records,
    registered: Records,
    after: Records,
    name: Seq<char>,
    email: Seq<char>,
    login_email: Seq<char>,
    password: Seq<char>,
    secret: Seq<char>,
    minutes: i64,
    session: Seq<char>,
    now: i64,
    dependable: bool,
    result: Result<AuthResponse, AuthError>,
)
    requires
        consistent(start),
        lowercased(login_email) == lowercased(email),
        register_outcome(start, registered, name, email, password, Ok(()), dependable),
        login_outcome(
            registered,
            after,
            login_email,
            password,
            secret,
            minutes,
            session,
            now,
            result,
            dependable,
        ),
    ensures
        result is Ok || result == Err::<AuthResponse, AuthError>(AuthError::GeneralError),
        result matches Ok(response) ==> {
            &&& response@.access_token.len() > 0
            &&& response@.refresh_token == session
            &&& !start.dom().contains(response.id)
            &&& registered[response.id].email == lowercased(email)
            &&& response@.name == name
            &&& after[response.id].token == Some(bound_value(secret, session))
        },
        dependable && result is Err ==> exists|id: u128|
            registered.dom().contains(id) && #[trigger] no_access_token(id, minutes, now, secret)
                && after == with_slot(registered, id, Some(bound_value(secret, session)), now),
{
    register_adds_one_account(start, registered, name, email, password, dependable);
    let id = choose|id: u128|
        {
            &&& !start.dom().contains(id)
            &&& registered.dom().contains(id)
            &&& registered == start.insert(id, registered[id])
            &&& (#[trigger] registered[id]).email == lowercased(email)
            &&& registered[id].name == name
            &&& registered[id].token is None
            &&& password_accepted(registered[id].password, password)
        };
    let key = lowercased(email);
    assert(email_taken(registered, key));
    assert forall|other: u128|
        registered.dom().contains(other) && #[trigger] registered[other].email
            == key implies other == id by {
        assert(registered[other].email == registered[id].email);
    }
    match result {
        Ok(response) => {
            assert(response.id == id);
        },
        Err(AuthError::GeneralError) => {
            if dependable {
                let holder = choose|holder: u128|
                    {
                        &&& registered.dom().contains(holder)
                        &&& #[trigger] registered[holder].email == key
                        &&& password_accepted(registered[holder].password, password)
                        &&& {
                            ||| after == registered && (dependable ==> email_taken_by_other(
                                registered,
                                holder,
                                key,
                            ))
                            ||| after == with_slot(
                                registered,
                                holder,
                                Some(bound_value(secret, session)),
                                now,
                            ) && no_access_token(holder, minutes, now, secret)
                        }
                    };
                assert(holder == id);
                own_email_clashes_with_none(registered, id);
            }
        },
        _ => {},
    }
}

/// Log in with a password that the account's hash refuses: the store stays
/// as it was and the login is never a success and never `NotFound`. On a
/// dependable store, with the session identifier and the time given, it is
/// `InvalidCredentials`.
pub proof fn login_with_wrong_password(
    before: Records,
    after: Records,
    id: u128,
    email: Seq<char>,
    password: Seq<char>,
    secret: Seq<char>,
    minutes: i64,
    session: Seq<char>,
    now: i64,
    dependable: bool,
    result: Result<AuthResponse, AuthError>,
)
    requires
        consistent(before),
        before.dom().contains(id),
        before[id].email == lowercased(email),
        !password_accepted(before[id].password, password),
        login_outcome(
            before,
            after,
            email,
            password,
            secret,
            minutes,
            session,
            now,
            result,
            dependable,
        ),
    ensures
        after == before,
        result is Err,
        result != Err::<AuthResponse, AuthError>(AuthError::NotFound),
        dependable ==> result == Err::<AuthResponse, AuthError>(AuthError::InvalidCredentials),
{
    let key = lowercased(email);
    assert(email_taken(before, key));
    assert forall|other: u128|
        before.dom().contains(other) && #[trigger] before[other].email == key implies other
        == id by {
        assert(before[other].email == before[id].email);
    }
}

/// Logging in keeps a consistent store consistent.
pub proof fn login_keeps_consistent(
    before: Records,
    after: Records,
    email: Seq<char>,
    password: Seq<char>,
    secret: Seq<char>,
    minutes: i64,
    session: Seq<char>,
    now: i64,
    dependable: bool,
    result: Result<AuthResponse, AuthError>,
)
    requires
        consistent(before),
        login_outcome(
            before,
            after,
            email,
            password,
            secret,
            minutes,
            session,
            now,
            result,
            dependable,
        ),
    ensures
        consistent(after),
{
    let slot = Some(bound_value(secret, session));
    assert forall|id: u128| before.dom().contains(id) implies consistent(
        #[trigger] with_slot(before, id, slot, now),
    ) by {
        own_email_clashes_with_none(before, id);
        update_keeps_consistent(before, before[id].with_session(slot, now));
    }
    match result {
        Ok(response) => {
            assert(consistent(with_slot(before, response.id, slot, now)));
        },
        Err(AuthError::GeneralError) => {
            if after != before {
                let id = choose|id: u128|
                    before.dom().contains(id) && after == #[trigger] with_slot(
                        before,
                        id,
                        slot,
                        now,
                    );
                assert(consistent(with_slot(before, id, slot, now)));
            }
        },
        _ => {},
    }
}

/// Log in, then refresh with the refresh token that the login handed out:
/// the refresh is never `NotFound`, and on a dependable store it succeeds
/// unless the signer gives no access token. A refresh that succeeds hands
/// back the same refresh token, with an access token issued at the time of
/// the refresh for an account whose slot holds the session; where no other
/// account held that session before the login, it is the account that
/// logged in.
pub proof fn refresh_after_login(
    before: Records,
    after: Records,
    email: Seq<char>,
    password: Seq<char>,
    secret: Seq<char>,
    minutes: i64,
    dependable: bool,
    login: AuthResponse,
    now: i64,
    result: Result<AuthResponse, AuthError>,
)
    requires
        login_outcome_any(
            before,
            after,
            email,
            password,
            secret,
            minutes,
            Ok(login),
            dependable,
        ),
        refresh_outcome(after, login@.refresh_token, secret, minutes, now, result, dependable),
    ensures
        result != Err::<AuthResponse, AuthError>(AuthError::NotFound),
        dependable ==> result is Ok || result == Err::<AuthResponse, AuthError>(
            AuthError::GeneralError,
        ),
        dependable && result is Err ==> exists|id: u128|
            after.dom().contains(id) && #[trigger] no_access_token(id, minutes, now, secret),
        result matches Ok(response) ==> {
            &&& response@.refresh_token == login@.refresh_token
            &&& response@.access_token.len() > 0
            &&& is_access_token(response@.access_token, response.id, minutes, now, secret)
            &&& after[response.id].token == Some(bound_value(secret, login@.refresh_token))
            &&& !token_held(before, bound_value(secret, login@.refresh_token)) ==> response.id
                == login.id && response@.name == login@.name
        },
{
    let bound = bound_value(secret, login@.refresh_token);
    let (seed, at) = choose|seed: u128, at: i64|
        version_four(seed) && #[trigger] login_outcome(
            before,
            after,
            email,
            password,
            secret,
            minutes,
            uuid_text(seed),
            at,
            Ok::<AuthResponse, AuthError>(login),
            dependable,
        );
    assert(after[login.id].token == Some(bound));
    assert(token_held(after, bound));
    if let Ok(response) = result {
        if !token_held(before, bound) && response.id != login.id {
            assert(before.dom().contains(response.id));
            assert(before[response.id].token == Some(bound));
        }
    }
}

/// Log out, then refresh with a refresh token whose session only that
/// account held: the refresh fails, and on a dependable store it is
/// `NotFound`.
pub proof fn refresh_after_logout(
    before: Records,
    after: Records,
    id: u128,
    session: Seq<char>,
    secret: Seq<char>,
    minutes: i64,
    logged_out_at: i64,
    now: i64,
    dependable: bool,
    result: Result<AuthResponse, AuthError>,
)
    requires
        forall|other: u128|
            before.dom().contains(other) && (#[trigger] before[other]).token == Some(
                bound_value(secret, session),
            ) ==> other == id,
        logout_outcome(before, after, id, logged_out_at, Ok(()), dependable),
        refresh_outcome(after, session, secret, minutes, now, result, dependable),
    ensures
        after[id].token is None,
        !token_held(after, bound_value(secret, session)),
        result is Err,
        dependable ==> result == Err::<AuthResponse, AuthError>(AuthError::NotFound),
{
    let bound = bound_value(secret, session);
    assert forall|other: u128| after.dom().contains(other) implies (#[trigger] after[other]).token
        != Some(bound) by {
        if other != id {
            assert(before.dom().contains(other) && before[other] == after[other]);
        }
    }
}

/// Log in, log out, then refresh with the refresh token of that login: where
/// no account held the session before the login, the refresh fails, and on
/// a dependable store it is `NotFound`.
pub proof fn session_ends_with_logout(
    start: Records,
    logged_in: Records,
    logged_out: Records,
    email: Seq<char>,
    password: Seq<char>,
    secret: Seq<char>,
    minutes: i64,
    dependable: bool,
    login: AuthResponse,
    logged_out_at: i64,
    now: i64,
    result: Result<AuthResponse, AuthError>,
)
    requires
        !token_held(start, bound_value(secret, login@.refresh_token)),
        login_outcome_any(
            start,
            logged_in,
            email,
            password,
            secret,
            minutes,
            Ok(login),
            dependable,
        ),
        logout_outcome(logged_in, logged_out, login.id, logged_out_at, Ok(()), dependable),
        refresh_outcome(
            logged_out,
            login@.refresh_token,
            secret,
            minutes,
            now,
            result,
            dependable,
        ),
    ensures
        result is Err,
        dependable ==> result == Err::<AuthResponse, AuthError>(AuthError::NotFound),
{
    let bound = bound_value(secret, login@.refresh_token);
    let (seed, at) = choose|seed: u128, at: i64|
        version_four(seed) && #[trigger] login_outcome(
            start,
            logged_in,
            email,
            password,
            secret,
            minutes,
            uuid_text(seed),
            at,
            Ok::<AuthResponse, AuthError>(login),
            dependable,
        );
    assert forall|other: u128|
        logged_in.dom().contains(other) && (#[trigger] logged_in[other]).token == Some(
            bound,
        ) implies other == login.id by {
        if other != login.id {
            assert(start.dom().contains(other) && start[other].token == Some(bound));
        }
    }
    refresh_after_logout(
        logged_in,
        logged_out,
        login.id,
        login@.refresh_token,
        secret,
        minutes,
        logged_out_at,
        now,
        dependable,
        result,
    );
}

/// A second login of the same account displaces the first session: where
/// the two sessions have different bound values and no other account held
/// the first, a refresh with the first refresh token fails afterwards.
pub proof fn second_login_displaces_first(
    start: Records,
    once: Records,
    twice: Records,
    email: Seq<char>,
    password: Seq<char>,
    secret: Seq<char>,
    minutes: i64,
    dependable: bool,
    first: AuthResponse,
    second: AuthResponse,
    now: i64,
    result: Result<AuthResponse, AuthError>,
)
    requires
        !token_held(start, bound_value(secret, first@.refresh_token)),
        bound_value(secret, first@.refresh_token) != bound_value(secret, second@.refresh_token),
        first.id == second.id,
        login_outcome_any(start, once, email, password, secret, minutes, Ok(first), dependable),
        login_outcome_any(once, twice, email, password, secret, minutes, Ok(second), dependable),
        refresh_outcome(twice, first@.refresh_token, secret, minutes, now, result, dependable),
    ensures
        result is Err,
        dependable ==> result == Err::<AuthResponse, AuthError>(AuthError::NotFound),
{
    let bound = bound_value(secret, first@.refresh_token);
    let (seed1, at1) = choose|seed: u128, at: i64|
        version_four(seed) && #[trigger] login_outcome(
            start,
            once,
            email,
            password,
            secret,
            minutes,
            uuid_text(seed),
            at,
            Ok::<AuthResponse, AuthError>(first),
            dependable,
        );
    let (seed2, at2) = choose|seed: u128, at: i64|
        version_four(seed) && #[trigger] login_outcome(
            once,
            twice,
            email,
            password,
            secret,
            minutes,
            uuid_text(seed),
            at,
            Ok::<AuthResponse, AuthError>(second),
            dependable,
        );
    assert forall|other: u128| twice.dom().contains(other) implies (#[trigger] twice[other]).token
        != Some(bound) by {
        if other != first.id {
            assert(once.dom().contains(other) && once[other] == twice[other]);
            assert(start.dom().contains(other) && start[other] == once[other]);
        }
    }
}

/// On a dependable store adding an account is decided by the records: it
/// succeeds exactly where the store admits the account, and is a conflict
/// otherwise.
pub proof fn enroll_is_decided(
    before: Records,
    after: Records,
    account: UserView,
    result: Result<(), AuthError>,
)
    requires
        enroll_outcome(before, after, account, result, true),
    ensures
        result is Ok <==> admits(before, account),
        result is Err <==> result == Err::<(), AuthError>(AuthError::Conflict),
{
}

/// On a dependable and consistent store a login with a given session
/// identifier at a given time is decided by the records and the signer: it
/// is `NotFound` exactly where no account has the lowercased address,
/// `InvalidCredentials` exactly where the account's hash refuses the
/// password, a general error exactly where the password is accepted and the
/// signer gives no access token, and a success in the one case left.
pub proof fn login_is_decided(
    before: Records,
    after: Records,
    email: Seq<char>,
    password: Seq<char>,
    secret: Seq<char>,
    minutes: i64,
    session: Seq<char>,
    now: i64,
    result: Result<AuthResponse, AuthError>,
)
    requires
        consistent(before),
        login_outcome(before, after, email, password, secret, minutes, session, now, result, true),
    ensures
        result == Err::<AuthResponse, AuthError>(AuthError::NotFound) <==> !email_taken(
            before,
            lowercased(email),
        ),
        result == Err::<AuthResponse, AuthError>(AuthError::InvalidCredentials) <==> exists|
            id: u128,
        |
            before.dom().contains(id) && #[trigger] before[id].email == lowercased(email)
                && !password_accepted(before[id].password, password),
        result == Err::<AuthResponse, AuthError>(AuthError::GeneralError) <==> exists|id: u128|
            before.dom().contains(id) && #[trigger] before[id].email == lowercased(email)
                && password_accepted(before[id].password, password) && no_access_token(
                id,
                minutes,
                now,
                secret,
            ),
        result is Ok <==> exists|id: u128|
            before.dom().contains(id) && #[trigger] before[id].email == lowercased(email)
                && password_accepted(before[id].password, password) && !no_access_token(
                id,
                minutes,
                now,
                secret,
            ),
{
    let key = lowercased(email);
    assert forall|a: u128, b: u128|
        before.dom().contains(a) && before.dom().contains(b) && #[trigger] before[a].email == key
            && #[trigger] before[b].email == key implies a == b by {
        assert(before[a].email == before[b].email);
    }
    match result {
        Ok(response) => {
            assert(before[response.id].email == key);
        },
        Err(AuthError::NotFound) => {},
        Err(AuthError::InvalidCredentials) => {
            let id = choose|id: u128|
                before.dom().contains(id) && #[trigger] before[id].email == key
                    && !password_accepted(before[id].password, password);
            assert(before[id].email == key);
        },
        Err(AuthError::GeneralError) => {
            let id = choose|id: u128|
                {
                    &&& before.dom().contains(id)
                    &&& #[trigger] before[id].email == key
                    &&& password_accepted(before[id].password, password)
                    &&& {
                        ||| after == before && email_taken_by_other(before, id, key)
                        ||| after == with_slot(
                            before,
                            id,
                            Some(bound_value(secret, session)),
                            now,
                        ) && no_access_token(id, minutes, now, secret)
                    }
                };
            own_email_clashes_with_none(before, id);
            assert(before[id].email == key);
        },
        _ => {},
    }
}

/// On a dependable store a refresh at a given time is `NotFound` exactly
/// where no record holds the bound value of the presented session
/// identifier; otherwise it succeeds, or the signer gave no access token.
pub proof fn refresh_is_decided(
    records: Records,
    token: Seq<char>,
    secret: Seq<char>,
    minutes: i64,
    now: i64,
    result: Result<AuthResponse, AuthError>,
)
    requires
        refresh_outcome(records, token, secret, minutes, now, result, true),
    ensures
        result == Err::<AuthResponse, AuthError>(AuthError::NotFound) <==> !token_held(
            records,
            bound_value(secret, token),
        ),
        result is Ok || result == Err::<AuthResponse, AuthError>(AuthError::NotFound) || result
            == Err::<AuthResponse, AuthError>(AuthError::GeneralError),
        result == Err::<AuthResponse, AuthError>(AuthError::GeneralError) ==> exists|id: u128|
            records.dom().contains(id) && (#[trigger] records[id]).token == Some(
                bound_value(secret, token),
            ) && no_access_token(id, minutes, now, secret),
{
    let bound = bound_value(secret, token);
    match result {
        Ok(response) => {
            assert(records[response.id].token == Some(bound));
        },
        Err(AuthError::GeneralError) => {
            let id = choose|id: u128|
                records.dom().contains(id) && (#[trigger] records[id]).token == Some(bound)
                    && no_access_token(id, minutes, now, secret);
            assert(records[id].token == Some(bound));
        },
        _ => {},
    }
}

/// On a dependable store who-am-I succeeds exactly where there is a record
/// under the identifier, and is `NotFound` otherwise.
pub proof fn whoami_is_decided(records: Records, id: u128, result: Result<UserResponse, AuthError>)
    requires
        whoami_outcome(records, id, result, true),
    ensures
        result is Ok <==> records.dom().contains(id),
        result is Err <==> result == Err::<UserResponse, AuthError>(AuthError::NotFound),
{
}

/// On a dependable and consistent store a logout succeeds exactly where
/// there is a record under the identifier, and is `NotFound` otherwise. It
/// keeps the store consistent.
pub proof fn logout_is_decided(
    before: Records,
    after: Records,
    id: u128,
    now: i64,
    result: Result<(), AuthError>,
)
    requires
        consistent(before),
        logout_outcome(before, after, id, now, result, true),
    ensures
        result is Ok <==> before.dom().contains(id),
        result is Err <==> result == Err::<(), AuthError>(AuthError::NotFound),
        consistent(after),
{
    if before.dom().contains(id) {
        own_email_clashes_with_none(before, id);
        update_keeps_consistent(before, before[id].with_session(None, now));
    }
}

/// On a dependable and consistent store a login is `NotFound` exactly where
/// no account has the lowercased address, and `InvalidCredentials` exactly
/// where the account's hash refuses the password. Both are decided before
/// anything is drawn or written.
pub proof fn login_refusals_are_decided(
    before: Records,
    after: Records,
    email: Seq<char>,
    password: Seq<char>,
    secret: Seq<char>,
    minutes: i64,
    result: Result<AuthResponse, AuthError>,
)
    requires
        consistent(before),
        login_outcome_any(before, after, email, password, secret, minutes, result, true),
    ensures
        result == Err::<AuthResponse, AuthError>(AuthError::NotFound) <==> !email_taken(
            before,
            lowercased(email),
        ),
        result == Err::<AuthResponse, AuthError>(AuthError::InvalidCredentials) <==> exists|
            id: u128,
        |
            before.dom().contains(id) && #[trigger] before[id].email == lowercased(email)
                && !password_accepted(before[id].password, password),
        result == Err::<AuthResponse, AuthError>(AuthError::NotFound) || result == Err::<
            AuthResponse,
            AuthError,
        >(AuthError::InvalidCredentials) ==> after == before,
{
    let key = lowercased(email);
    assert forall|a: u128, b: u128|
        before.dom().contains(a) && before.dom().contains(b) && #[trigger] before[a].email == key
            && #[trigger] before[b].email == key implies a == b by {
        assert(before[a].email == before[b].email);
    }
    match result {
        Err(AuthError::NotFound) => {},
        Err(AuthError::InvalidCredentials) => {
            let id = choose|id: u128|
                before.dom().contains(id) && #[trigger] before[id].email == key
                    && !password_accepted(before[id].password, password);
            assert(before[id].email == key);
        },
        _ => {
            if result == Err::<AuthResponse, AuthError>(AuthError::GeneralError) && after
                == before && exists|id: u128|
                before.dom().contains(id) && #[trigger] before[id].email == key
                    && password_accepted(before[id].password, password) {
                let id = choose|id: u128|
                    before.dom().contains(id) && #[trigger] before[id].email == key
                        && password_accepted(before[id].password, password);
                assert(before[id].email == key);
            } else {
                let (seed, now) = choose|seed: u128, now: i64|
                    version_four(seed) && #[trigger] login_outcome(
                        before,
                        after,
                        email,
                        password,
                        secret,
                        minutes,
                        uuid_text(seed),
                        now,
                        result,
                        true,
                    );
                login_is_decided(
                    before,
                    after,
                    email,
                    password,
                    secret,
                    minutes,
                    uuid_text(seed),
                    now,
                    result,
                );
            }
        },
    }
}

/// An access token that a login handed out names the account for as long
/// as it is accepted, whatever has happened to the session since: what a
/// later check of it returns is a refusal or the claims it was issued with.
/// A logout clears the refresh session and leaves this as it is.
pub proof fn access_token_outlives_logout(
    before: Records,
    logged_in: Records,
    logged_out: Records,
    email: Seq<char>,
    password: Seq<char>,
    secret: Seq<char>,
    minutes: i64,
    dependable: bool,
    login: AuthResponse,
    logged_out_at: i64,
    checked: Result<JwtClaims, TokenRejected>,
)
    requires
        login_outcome_any(
            before,
            logged_in,
            email,
            password,
            secret,
            minutes,
            Ok(login),
            dependable,
        ),
        logout_outcome(logged_in, logged_out, login.id, logged_out_at, Ok(()), dependable),
        checked == Err::<JwtClaims, TokenRejected>(TokenRejected) || checked
            == JwtClaims::of_payload(login@.access_token),
    ensures
        signed_under(login@.access_token, secret),
        checked matches Ok(claims) ==> claims.sub == login.id && exists|now: i64|
            claims == #[trigger] JwtClaims::issued(login.id, minutes, now),
{
    let (seed, now) = choose|seed: u128, now: i64|
        version_four(seed) && #[trigger] login_outcome(
            before,
            logged_in,
            email,
            password,
            secret,
            minutes,
            uuid_text(seed),
            now,
            Ok::<AuthResponse, AuthError>(login),
            dependable,
        );
    assert(is_access_token(login@.access_token, login.id, minutes, now, secret));
    if let Ok(claims) = checked {
        assert(claims == JwtClaims::issued(login.id, minutes, now));
    }
}

} // verus!
