//! The refresh token: a session identifier handed to the client, and the
//! value bound to it under the server's secret, which the store keeps.

use crate::text::{hex_encode, hex_text, hex_text_injective, same_text};
use hmac::digest::InvalidLength;
use hmac::{Hmac, Mac};
use sha2::Sha256;
use vstd::prelude::*;
use vstd::string::StringExecFns;
use vstd::utf8::encode_utf8;

verus! {

/// The error of a key of the wrong length: carried, never looked into.
#[verifier::external_type_specification]
#[verifier::external_body]
pub struct ExInvalidLength(InvalidLength);

/// The HMAC-SHA256 authentication code of a message under a key.
pub uninterp spec fn hmac_sha256(key: Seq<u8>, message: Seq<u8>) -> Seq<u8>;

/// The value bound to a session identifier under a secret: the
/// authentication code of the identifier's bytes, in hexadecimal.
pub open spec fn bound_value(secret: Seq<char>, session: Seq<char>) -> Seq<char> {
    hex_text(hmac_sha256(encode_utf8(secret), encode_utf8(session)))
}

/// Computes the code with `Hmac<Sha256>`: `new_from_slice`, `update`,
/// `finalize`. HMAC takes a key of any length, so `new_from_slice` returns
/// no error here, and SHA-256 gives 32 bytes.
#[verifier::external_body]
fn hmac_sha256_code(key: &[u8], message: &[u8]) -> (r: Result<Vec<u8>, InvalidLength>)
    ensures
        r is Ok,
        r matches Ok(code) ==> code@ == hmac_sha256(key@, message@) && code@.len() == 32,
{
    let mut mac = Hmac::<Sha256>::new_from_slice(key)?;
    mac.update(message);
    Ok(mac.finalize().into_bytes().to_vec())
}

/// A refresh token: `decrypted` is the session identifier that the client
/// holds, `encrypted` the value bound to it, which the store holds.
#[derive(Debug)]
pub struct Token {
    pub decrypted: String,
    pub encrypted: String,
}

impl Token {
    /// Whether this is the token of `session` under `secret`.
    pub open spec fn issued_from(&self, secret: Seq<char>, session: Seq<char>) -> bool {
        &&& self.decrypted@ == session
        &&& self.encrypted@ == bound_value(secret, session)
    }

    /// Issues the token of a session identifier under the secret. It always
    /// succeeds, and the bound value has 64 hexadecimal digits.
    pub fn new(secret: &str, session: &str) -> (r: Result<Token, InvalidLength>)
        ensures
            r matches Ok(token) && token.issued_from(secret@, session@) && token.encrypted@.len()
                == 64,
    {
        let code = hmac_sha256_code(secret.as_bytes(), session.as_bytes())?;
        Ok(Token { decrypted: String::from_str(session), encrypted: hex_encode(code.as_slice()) })
    }

    /// Whether a stored bound value is this token's.
    pub fn validate(&self, token: &str) -> (r: bool)
        ensures
            r == (self.encrypted@ == token@),
    {
        same_text(self.encrypted.as_str(), token)
    }
}

/// Issuing is reproducible: two tokens of the same session identifier under
/// the same secret carry the same bound value, and each validates against
/// the other's.
pub proof fn bound_is_reproducible(a: Token, b: Token, secret: Seq<char>, session: Seq<char>)
    requires
        a.issued_from(secret, session),
        b.issued_from(secret, session),
    ensures
        a.encrypted@ == b.encrypted@,
        a.decrypted@ == b.decrypted@,
{
}

/// Two bound values agree exactly when the authentication codes under them
/// agree: the hexadecimal form adds no collision of its own.
pub proof fn bounds_agree_as_codes_do(
    secret_a: Seq<char>,
    session_a: Seq<char>,
    secret_b: Seq<char>,
    session_b: Seq<char>,
)
    ensures
        bound_value(secret_a, session_a) == bound_value(secret_b, session_b) <==> hmac_sha256(
            encode_utf8(secret_a),
            encode_utf8(session_a),
        ) == hmac_sha256(encode_utf8(secret_b), encode_utf8(session_b)),
{
    if bound_value(secret_a, session_a) == bound_value(secret_b, session_b) {
        hex_text_injective(
            hmac_sha256(encode_utf8(secret_a), encode_utf8(session_a)),
            hmac_sha256(encode_utf8(secret_b), encode_utf8(session_b)),
        );
    }
}

} // verus!
