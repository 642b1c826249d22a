//! The access token: signed claims that name a user for a limited time.

use crate::clock::{seconds_of, utc_now_micros, whole_seconds};
use crate::ident::{parsed_uuid, uuid_value};
use crate::user::text_of;
use jsonwebtoken::{DecodingKey, EncodingKey, Header, Validation};
use uuid::Uuid;
use vstd::prelude::*;

verus! {

/// The longest lifetime, in minutes, that a token can be given: beyond it a
/// duration in minutes has no millisecond count in 64 bits.
pub const MAX_TTL_MINUTES: i64 = 153_722_867_280_912;

/// Whether a number of minutes is a lifetime that a token can be given.
pub open spec fn valid_ttl(minutes: i64) -> bool {
    -MAX_TTL_MINUTES <= minutes <= MAX_TTL_MINUTES
}

/// How long an access token lives, in whole minutes.
#[derive(Debug, Clone, Copy)]
pub struct Lifetime {
    minutes: i64,
}

impl Lifetime {
    #[verifier::type_invariant]
    spec fn in_range(self) -> bool {
        valid_ttl(self.minutes)
    }

    /// The minutes of the lifetime.
    pub closed spec fn minutes(self) -> i64 {
        self.minutes
    }

    /// The lifetime of so many minutes.
    pub fn new(minutes: i64) -> (r: Lifetime)
        requires
            valid_ttl(minutes),
        ensures
            r.minutes() == minutes,
    {
        Lifetime { minutes }
    }

    /// The lifetime of so many minutes, where there is one.
    pub fn of_minutes(minutes: i64) -> (r: Option<Lifetime>)
        ensures
            match r {
                Some(lifetime) => valid_ttl(minutes) && lifetime.minutes() == minutes,
                None => !valid_ttl(minutes),
            },
    {
        if -MAX_TTL_MINUTES <= minutes && minutes <= MAX_TTL_MINUTES {
            Some(Lifetime { minutes })
        } else {
            None
        }
    }

    /// The minutes of the lifetime.
    pub fn get(&self) -> (r: i64)
        ensures
            r == self.minutes(),
            valid_ttl(r),
    {
        proof {
            use_type_invariant(self);
        }
        self.minutes
    }
}

/// The claims of an access token: the user it names, and the Unix times, in
/// seconds, at which it was issued and at which it expires.
#[derive(Debug, Clone, Copy, PartialEq, Eq, Structural)]
pub struct JwtClaims {
    pub sub: u128,
    pub exp: i64,
    pub iat: i64,
}

/// A token that was refused. Nothing tells an expired token from a forged or
/// a malformed one.
#[derive(Debug, Clone, Copy, PartialEq, Eq, Structural)]
pub struct TokenRejected;

/// The error of `jsonwebtoken`: carried from a call to the caller, never
/// looked into.
#[verifier::external_type_specification]
#[verifier::external_body]
pub struct ExJwtError(jsonwebtoken::errors::Error);

/// A JSON value of `serde_json`: the claims of a token as they were read,
/// looked into only through `text_claim` and `integer_claim`.
#[verifier::external_type_specification]
#[verifier::external_body]
pub struct ExJsonValue(serde_json::Value);

/// What stands under a name in a JSON object, as far as claims go.
pub enum ClaimValue {
    /// A JSON string.
    Text(Seq<char>),
    /// A JSON number that is an integer of 64 bits with a sign.
    Integer(i64),
    /// Any other JSON value.
    Other,
}

/// The members of a JSON value by their names; none where the value is no
/// object.
pub uninterp spec fn json_members(value: serde_json::Value) -> Map<Seq<char>, ClaimValue>;

/// The members of the JSON object that `jsonwebtoken` reads from the payload
/// of a token, the middle of its three parts. The payload is read from the
/// token alone, whether or not the token is then accepted.
pub uninterp spec fn token_payload(token: Seq<char>) -> Map<Seq<char>, ClaimValue>;

/// Whether `jsonwebtoken` finds the HMAC-SHA256 signature of a token to be
/// the one made under the secret's bytes. It is a matter of the token and
/// the secret alone; the clock has no part in it.
pub uninterp spec fn signed_under(token: Seq<char>, secret: Seq<char>) -> bool;

/// The text under a name, where a text stands there.
pub open spec fn text_member(members: Map<Seq<char>, ClaimValue>, name: Seq<char>) -> Option<
    Seq<char>,
> {
    if members.dom().contains(name) {
        match members[name] {
            ClaimValue::Text(text) => Some(text),
            _ => None,
        }
    } else {
        None
    }
}

/// The integer under a name, where an integer stands there.
pub open spec fn integer_member(members: Map<Seq<char>, ClaimValue>, name: Seq<char>) -> Option<
    i64,
> {
    if members.dom().contains(name) {
        match members[name] {
            ClaimValue::Integer(number) => Some(number),
            _ => None,
        }
    } else {
        None
    }
}

/// The compact token that `jsonwebtoken::encode` writes for the claims
/// `exp`, `iat` and `sub` (the identifier in hyphenated text) under the
/// default header, signed with HMAC-SHA256 under the secret's bytes; `None`
/// where it fails.
pub uninterp spec fn hs256_token(sub: u128, exp: i64, iat: i64, secret: Seq<char>) -> Option<
    Seq<char>,
>;

/// Calls `jsonwebtoken::encode` with `Header::default()`, the three claims
/// as a JSON object, and `EncodingKey::from_secret`. The token is the
/// encoded header and claims and the signature, joined by dots, so it is
/// never empty. Its payload is the object of the three claims, from which
/// the crate reads the same claims again (the identifier through its
/// hyphenated text), and its signature is the one that the crate checks
/// under the same secret.
///
/// `jsonwebtoken` takes its signer from a provider that is set once for
/// the process. The contract holds for the provider that the crate is built
/// with here, its own HMAC signer, and rests on no other being installed:
/// this library installs none.
#[verifier::external_body]
fn sign_claims(sub: u128, exp: i64, iat: i64, secret: &str) -> (r: Result<
    String,
    jsonwebtoken::errors::Error,
>)
    ensures
        match r {
            Ok(token) => hs256_token(sub, exp, iat, secret@) == Some(token@),
            Err(_) => hs256_token(sub, exp, iat, secret@) is None,
        },
        r matches Ok(token) ==> token@.len() > 0,
        r matches Ok(token) ==> signed_under(token@, secret@),
        r matches Ok(token) ==> JwtClaims::payload_holds(token@, sub, exp, iat),
{
    let mut claims = serde_json::Map::new();
    claims.insert("exp".to_owned(), exp.into());
    claims.insert("iat".to_owned(), iat.into());
    claims.insert("sub".to_owned(), Uuid::from_u128(sub).to_string().into());
    jsonwebtoken::encode(&Header::default(), &claims, &EncodingKey::from_secret(secret.as_bytes()))
}

/// Calls `jsonwebtoken::decode` with `DecodingKey::from_secret` and
/// `Validation::default()`, which checks the HMAC-SHA256 signature and
/// refuses a token past its expiry by the clock. Whether the token is
/// accepted depends on the time, and nothing is claimed of it. An accepted
/// token is signed under the secret, and its claims are the JSON value that
/// the crate reads from the token's payload. Like the clock of this
/// library, the crate's own takes the system time to stand at or after 1970.
#[verifier::external_body]
fn checked_claims(token: &str, secret: &str) -> (r: Result<
    serde_json::Value,
    jsonwebtoken::errors::Error,
>)
    ensures
        r matches Ok(claims) ==> json_members(claims) == token_payload(token@),
        r is Ok ==> signed_under(token@, secret@),
{
    let key = DecodingKey::from_secret(secret.as_bytes());
    let data = jsonwebtoken::decode::<serde_json::Value>(token, &key, &Validation::default())?;
    Ok(data.claims)
}

/// The text under a name in a JSON object, by `Value::get` and
/// `Value::as_str`; `None` where the value is no object, has no such member,
/// or has one that is no string.
#[verifier::external_body]
fn text_claim(claims: &serde_json::Value, name: &str) -> (r: Option<String>)
    ensures
        text_of(r) == text_member(json_members(*claims), name@),
{
    Some(claims.get(name)?.as_str()?.to_owned())
}

/// The integer under a name in a JSON object, by `Value::get` and
/// `Value::as_i64`; `None` where the value is no object, has no such member,
/// or has one that is no integer of 64 bits with a sign.
#[verifier::external_body]
fn integer_claim(claims: &serde_json::Value, name: &str) -> (r: Option<i64>)
    ensures
        r == integer_member(json_members(*claims), name@),
{
    claims.get(name)?.as_i64()
}

impl JwtClaims {
    /// The claims of a token issued for `sub` at `now`, a time in
    /// microseconds, to live for `minutes`.
    pub open spec fn issued(sub: u128, minutes: i64, now: i64) -> JwtClaims {
        JwtClaims {
            sub,
            iat: seconds_of(now) as i64,
            exp: (seconds_of(now) + 60 * minutes) as i64,
        }
    }

    /// What the parts read from a token amount to: claims where all three
    /// are there and the subject is an identifier, a refusal otherwise.
    pub open spec fn of_parts(sub: Option<Seq<char>>, exp: Option<i64>, iat: Option<i64>) -> Result<
        JwtClaims,
        TokenRejected,
    > {
        if sub is Some && exp is Some && iat is Some && parsed_uuid(sub->0) is Some {
            Ok(JwtClaims { sub: parsed_uuid(sub->0)->0, exp: exp->0, iat: iat->0 })
        } else {
            Err(TokenRejected)
        }
    }

    /// The claims that the payload of a token holds: the identifier under
    /// `sub`, the times under `exp` and `iat`; a refusal where one is
    /// missing or of another kind.
    pub open spec fn of_payload(token: Seq<char>) -> Result<JwtClaims, TokenRejected> {
        JwtClaims::of_parts(
            text_member(token_payload(token), "sub"@),
            integer_member(token_payload(token), "exp"@),
            integer_member(token_payload(token), "iat"@),
        )
    }

    /// Whether the payload of a token holds exactly these three claims.
    pub open spec fn payload_holds(token: Seq<char>, sub: u128, exp: i64, iat: i64) -> bool {
        JwtClaims::of_payload(token) == Ok::<JwtClaims, TokenRejected>(JwtClaims { sub, exp, iat })
    }

    /// The claims of a token issued for `sub` at the time `now`, in
    /// microseconds since the Unix epoch, to live for `dur`.
    pub fn at(sub: u128, dur: Lifetime, now: i64) -> (r: JwtClaims)
        ensures
            r == JwtClaims::issued(sub, dur.minutes(), now),
            r.exp == r.iat + 60 * dur.minutes(),
    {
        let iat = whole_seconds(now);
        JwtClaims { sub, iat, exp: iat + 60 * dur.get() }
    }

    /// The claims of a token issued now for `sub`, to live for `dur`.
    pub fn new(sub: u128, dur: Lifetime) -> (r: JwtClaims)
        ensures
            r.sub == sub,
            r.exp == r.iat + 60 * dur.minutes(),
            exists|now: i64| r == JwtClaims::issued(sub, dur.minutes(), now),
    {
        JwtClaims::at(sub, dur, utc_now_micros())
    }

    /// Signs the claims under the secret. The token is signed under that
    /// secret and holds these claims in its payload.
    pub fn encode(&self, secret: &str) -> (r: Result<String, jsonwebtoken::errors::Error>)
        ensures
            match r {
                Ok(token) => hs256_token(self.sub, self.exp, self.iat, secret@) == Some(token@)
                    && token@.len() > 0 && signed_under(token@, secret@)
                    && JwtClaims::payload_holds(token@, self.sub, self.exp, self.iat),
                Err(_) => hs256_token(self.sub, self.exp, self.iat, secret@) is None,
            },
    {
        sign_claims(self.sub, self.exp, self.iat, secret)
    }

    /// Puts together the claims read from a token.
    pub fn from_parts(sub: Option<String>, exp: Option<i64>, iat: Option<i64>) -> (r: Result<
        JwtClaims,
        TokenRejected,
    >)
        ensures
            r == JwtClaims::of_parts(text_of(sub), exp, iat),
    {
        match (sub, exp, iat) {
            (Some(sub), Some(exp), Some(iat)) => match uuid_value(sub.as_str()) {
                Some(id) => Ok(JwtClaims { sub: id, exp, iat }),
                None => Err(TokenRejected),
            },
            _ => Err(TokenRejected),
        }
    }

    /// Checks a token's signature and expiry under the secret and reads its
    /// claims. A token that is accepted is signed under the secret and gives
    /// the claims that its payload holds; every failure comes back as the
    /// same refusal. Whether a signed token is accepted is for the clock to
    /// say.
    pub fn decode(token: String, secret: &str) -> (r: Result<JwtClaims, TokenRejected>)
        ensures
            r == Err::<JwtClaims, TokenRejected>(TokenRejected) || r == JwtClaims::of_payload(
                token@,
            ),
            r is Ok ==> signed_under(token@, secret@),
    {
        match checked_claims(token.as_str(), secret) {
            Ok(claims) => JwtClaims::from_parts(
                text_claim(&claims, "sub"),
                integer_claim(&claims, "exp"),
                integer_claim(&claims, "iat"),
            ),
            Err(_) => Err(TokenRejected),
        }
    }
}

} // verus!
