//! What each endpoint answers for what its service returned, and how a
//! request proves who sends it.

use crate::auth::AuthResponse;
use crate::error::{AuthError, TodoError, UserError};
use crate::jwt::{signed_under, JwtClaims, TokenRejected};
use crate::response::{
    ApiResponse, CONFLICT, INTERNAL_SERVER_ERROR, NOT_FOUND, OK, UNAUTHORIZED,
    UNPROCESSABLE_ENTITY,
};
use crate::user::UserResponse;
use vstd::prelude::*;
use vstd::string::{StrSliceExecFns, StringExecFns};

verus! {

/// The token of an `Authorization` header: what follows `Bearer ` and one
/// space, where the header starts so.
pub open spec fn bearer_of(header: Seq<char>) -> Option<Seq<char>> {
    if header.len() >= 7 && header.subrange(0, 7) == "Bearer "@ {
        Some(header.subrange(7, header.len() as int))
    } else {
        None
    }
}

/// The token of an `Authorization` header.
pub fn bearer_token(header: &str) -> (r: Option<String>)
    ensures
        match r {
            Some(token) => bearer_of(header@) == Some(token@),
            None => bearer_of(header@) is None,
        },
{
    proof {
        reveal_strlit("Bearer ");
    }
    let prefix = "Bearer ";
    let len = header.unicode_len();
    if len < 7 {
        return None;
    }
    let mut i: usize = 0;
    while i < 7
        invariant
            i <= 7,
            len == header@.len(),
            len >= 7,
            prefix@ == "Bearer "@,
            prefix@.len() == 7,
            forall|k: int| 0 <= k < i ==> header@[k] == prefix@[k],
        decreases 7 - i,
    {
        if header.get_char(i) != prefix.get_char(i) {
            proof {
                reveal_strlit("Bearer ");
                assert(header@.subrange(0, 7)[i as int] == header@[i as int]);
                assert(header@.subrange(0, 7)[i as int] != "Bearer "@[i as int]);
            }
            return None;
        }
        i += 1;
    }
    proof {
        assert(header@.subrange(0, 7) =~= prefix@);
    }
    Some(String::from_str(header.substring_char(7, len)))
}

/// The answer to a request whose body failed validation.
pub fn invalid_request<T>(message: String) -> (r: ApiResponse<T>)
    ensures
        r.status() == UNPROCESSABLE_ENTITY,
        r.message_text() == message@,
{
    ApiResponse::UnprocessableEntity(message)
}

/// The answer to a request that shows no valid access token.
pub fn unauthorized<T>(message: &str) -> (r: ApiResponse<T>)
    ensures
        r.status() == UNAUTHORIZED,
        r.message_text() == message@,
{
    ApiResponse::Unauthorized(String::from_str(message))
}

/// What the service makes of a bearer token's check: the claims where there
/// was a token and it was accepted, and the same answer for a missing token
/// and for a refused one.
pub fn admitted(checked: Option<Result<JwtClaims, TokenRejected>>) -> (r: Result<
    JwtClaims,
    ApiResponse<()>,
>)
    ensures
        match checked {
            Some(Ok(claims)) => r == Ok::<JwtClaims, ApiResponse<()>>(claims),
            _ => r matches Err(answer) && answer.status() == UNAUTHORIZED && answer.message_text()
                == "Authorization not found"@,
        },
{
    match checked {
        Some(Ok(claims)) => Ok(claims),
        _ => Err(unauthorized("Authorization not found")),
    }
}

/// Checks the access token of a request: the header must be there and
/// carry a bearer token that decodes under the secret. The claims handed on
/// are those in the payload of that token, which is signed under the
/// secret. Every failure gets the same answer, so nothing tells a missing
/// token from an expired or a forged one. Whether a signed token is
/// accepted is for the clock to say.
pub fn authorize(header: Option<&str>, secret: &str) -> (r: Result<JwtClaims, ApiResponse<()>>)
    ensures
        r matches Err(answer) ==> answer.status() == UNAUTHORIZED && answer.message_text()
            == "Authorization not found"@,
        r matches Ok(claims) ==> {
            &&& header is Some
            &&& bearer_of(header->0@) is Some
            &&& signed_under(bearer_of(header->0@)->0, secret@)
            &&& JwtClaims::of_payload(bearer_of(header->0@)->0) == Ok::<JwtClaims, TokenRejected>(
                claims,
            )
        },
{
    let token = match header {
        Some(header) => bearer_token(header),
        None => None,
    };
    let checked = match token {
        Some(token) => Some(JwtClaims::decode(token, secret)),
        None => None,
    };
    admitted(checked)
}

/// The answer to a registration: a conflict where the address is taken, a
/// server error for every other failure.
pub fn register(result: Result<(), AuthError>) -> (r: ApiResponse<()>)
    ensures
        match result {
            Ok(()) => r.status() == OK,
            Err(AuthError::Conflict) => r.status() == CONFLICT && r.message_text()
                == "Email already registerd"@,
            Err(_) => r.status() == INTERNAL_SERVER_ERROR,
        },
{
    match result {
        Ok(()) => ApiResponse::Success(()),
        Err(AuthError::Conflict) => ApiResponse::Conflict(
            String::from_str("Email already registerd"),
        ),
        Err(_) => ApiResponse::InternalServerError,
    }
}

/// The answer to a login: unauthorized for a wrong password, not found for
/// an unknown address, a server error for every other failure.
pub fn login(result: Result<AuthResponse, AuthError>) -> (r: ApiResponse<AuthResponse>)
    ensures
        match result {
            Ok(data) => r.status() == OK && r.payload() == Some(data),
            Err(AuthError::InvalidCredentials) => r.status() == UNAUTHORIZED && r.message_text()
                == "Password missmatch"@,
            Err(AuthError::NotFound) => r.status() == NOT_FOUND,
            Err(_) => r.status() == INTERNAL_SERVER_ERROR,
        },
{
    match result {
        Ok(data) => ApiResponse::Success(data),
        Err(AuthError::InvalidCredentials) => ApiResponse::Unauthorized(
            String::from_str("Password missmatch"),
        ),
        Err(AuthError::NotFound) => ApiResponse::NotFound,
        Err(_) => ApiResponse::InternalServerError,
    }
}

/// The answer to a refresh: unauthorized where the token finds no session
/// or does not match it, a server error for every other failure.
pub fn refresh_access_token(result: Result<AuthResponse, AuthError>) -> (r: ApiResponse<
    AuthResponse,
>)
    ensures
        match result {
            Ok(data) => r.status() == OK && r.payload() == Some(data),
            Err(AuthError::TokenExpired) | Err(AuthError::NotFound) => r.status() == UNAUTHORIZED
                && r.message_text() == "Token expired"@,
            Err(_) => r.status() == INTERNAL_SERVER_ERROR,
        },
{
    match result {
        Ok(data) => ApiResponse::Success(data),
        Err(AuthError::TokenExpired) | Err(AuthError::NotFound) => ApiResponse::Unauthorized(
            String::from_str("Token expired"),
        ),
        Err(_) => ApiResponse::InternalServerError,
    }
}

/// The answer to who-am-I: the account, or not found for every failure.
pub fn whoami(result: Result<UserResponse, AuthError>) -> (r: ApiResponse<UserResponse>)
    ensures
        match result {
            Ok(data) => r.status() == OK && r.payload() == Some(data),
            Err(_) => r.status() == NOT_FOUND,
        },
{
    match result {
        Ok(data) => ApiResponse::Success(data),
        Err(_) => ApiResponse::NotFound,
    }
}

/// The answer to a logout: unauthorized where the account is gone, a server
/// error for every other failure.
pub fn logout(result: Result<(), AuthError>) -> (r: ApiResponse<()>)
    ensures
        match result {
            Ok(()) => r.status() == OK,
            Err(AuthError::NotFound) => r.status() == UNAUTHORIZED && r.message_text()
                == "Token is expired"@,
            Err(_) => r.status() == INTERNAL_SERVER_ERROR,
        },
{
    match result {
        Ok(()) => ApiResponse::Success(()),
        Err(AuthError::NotFound) => ApiResponse::Unauthorized(String::from_str("Token is expired")),
        Err(_) => ApiResponse::InternalServerError,
    }
}

/// The answer to adding or rewriting an item: a server error for every
/// failure.
pub fn todo_saved(result: Result<(), TodoError>) -> (r: ApiResponse<()>)
    ensures
        match result {
            Ok(()) => r.status() == OK,
            Err(_) => r.status() == INTERNAL_SERVER_ERROR,
        },
{
    match result {
        Ok(()) => ApiResponse::Success(()),
        Err(_) => ApiResponse::InternalServerError,
    }
}

/// The answer to removing, toggling, listing or showing items: not found
/// where the store reports the item missing, a server error for every other
/// failure.
pub fn todo_found<T>(result: Result<T, TodoError>) -> (r: ApiResponse<T>)
    ensures
        match result {
            Ok(data) => r.status() == OK && r.payload() == Some(data),
            Err(TodoError::NotFound) => r.status() == NOT_FOUND,
            Err(_) => r.status() == INTERNAL_SERVER_ERROR,
        },
{
    match result {
        Ok(data) => ApiResponse::Success(data),
        Err(TodoError::NotFound) => ApiResponse::NotFound,
        Err(_) => ApiResponse::InternalServerError,
    }
}

/// The answer to deleting, listing or showing users: not found where the
/// store reports the user missing, a server error for every other failure.
pub fn user_found<T>(result: Result<T, UserError>) -> (r: ApiResponse<T>)
    ensures
        match result {
            Ok(data) => r.status() == OK && r.payload() == Some(data),
            Err(UserError::NotFound) => r.status() == NOT_FOUND,
            Err(_) => r.status() == INTERNAL_SERVER_ERROR,
        },
{
    match result {
        Ok(data) => ApiResponse::Success(data),
        Err(UserError::NotFound) => ApiResponse::NotFound,
        Err(_) => ApiResponse::InternalServerError,
    }
}

} // verus!
