use auth_core::clock::whole_seconds;
use auth_core::jwt::{JwtClaims, Lifetime, TokenRejected, MAX_TTL_MINUTES};
use auth_core::token::Token;
use auth_core::user::{HashError, User};

fn user_with_hash(hash: &str) -> User {
    User {
        id: 1,
        name: "test".to_string(),
        email: "test@domain.com".to_string(),
        password: hash.to_string(),
        token: None,
        created_at: 0,
        updated_at: 0,
    }
}

#[test]
fn hash_then_verify_accepts_the_password() {
    let hash = User::hash_password("test123").unwrap();
    let user = user_with_hash(&hash);
    assert!(user.verify_password("test123".to_string()));
}

#[test]
fn hash_then_verify_refuses_another_password() {
    let hash = User::hash_password("test123").unwrap();
    let user = user_with_hash(&hash);
    assert!(!user.verify_password("wrong".to_string()));
    assert!(!user.verify_password("test1234".to_string()));
    assert!(!user.verify_password("".to_string()));
}

#[test]
fn hash_is_a_phc_string_and_not_the_password() {
    let hash = User::hash_password("test123").unwrap();
    assert_ne!(hash, "test123");
    assert!(hash.starts_with("$argon2id$v=19$"));
}

#[test]
fn two_hashes_of_one_password_differ_by_their_salt() {
    let a = User::hash_password("same").unwrap();
    let b = User::hash_password("same").unwrap();
    assert_ne!(a, b);
    assert!(user_with_hash(&a).verify_password("same".to_string()));
    assert!(user_with_hash(&b).verify_password("same".to_string()));
}

#[test]
fn hash_with_salt_is_reproducible() {
    let a = User::hash_with_salt("secret", "c29tZXNhbHRzb21lc2FsdA").unwrap();
    let b = User::hash_with_salt("secret", "c29tZXNhbHRzb21lc2FsdA").unwrap();
    assert_eq!(a, b);
    assert!(a.contains("c29tZXNhbHRzb21lc2FsdA"));
    assert!(user_with_hash(&a).verify_password("secret".to_string()));
}

#[test]
fn hash_with_salt_refuses_a_bad_salt() {
    assert_eq!(User::hash_with_salt("secret", "!"), Err(HashError::Hasher));
    assert_eq!(User::hash_with_salt("secret", ""), Err(HashError::Hasher));
}

#[test]
fn verify_is_false_on_a_malformed_hash() {
    assert!(!user_with_hash("").verify_password("test123".to_string()));
    assert!(!user_with_hash("not a hash").verify_password("test123".to_string()));
    assert!(!user_with_hash("test123").verify_password("test123".to_string()));
    assert!(!user_with_hash("$argon2id$v=19$m=19456,t=2,p=1$").verify_password("x".to_string()));
}

#[test]
fn duplicate_copies_every_field() {
    let user = User {
        id: 7,
        name: "n".to_string(),
        email: "e".to_string(),
        password: "p".to_string(),
        token: Some("t".to_string()),
        created_at: 3,
        updated_at: 4,
    };
    let copy = user.duplicate();
    assert_eq!(copy.id, 7);
    assert_eq!(copy.name, "n");
    assert_eq!(copy.email, "e");
    assert_eq!(copy.password, "p");
    assert_eq!(copy.token, Some("t".to_string()));
    assert_eq!(copy.created_at, 3);
    assert_eq!(copy.updated_at, 4);
}

#[test]
fn bound_value_is_the_hex_of_hmac_sha256() {
    let token = Token::new("key", "The quick brown fox jumps over the lazy dog").unwrap();
    assert_eq!(token.decrypted, "The quick brown fox jumps over the lazy dog");
    assert_eq!(
        token.encrypted,
        "f7bc83f430538424b13298e6aa6fb143ef4d59a14946175997479dbc2d1a3cd8"
    );
}

#[test]
fn bound_value_of_empty_inputs() {
    let token = Token::new("", "").unwrap();
    assert_eq!(token.decrypted, "");
    assert_eq!(
        token.encrypted,
        "b613679a0814d9ec772f95d778c35fc5ff1697c493715653c6c712144292c5ad"
    );
}

#[test]
fn bound_value_is_reproducible() {
    let a = Token::new("secret", "0b7f8a52-7d0c-4f5e-9a55-3f1f7f0d2c11").unwrap();
    let b = Token::new("secret", "0b7f8a52-7d0c-4f5e-9a55-3f1f7f0d2c11").unwrap();
    assert_eq!(a.encrypted, b.encrypted);
    assert_eq!(a.decrypted, b.decrypted);
    assert!(a.validate(&b.encrypted));
    assert_eq!(a.encrypted.len(), 64);
}

#[test]
fn bound_value_changes_with_either_input() {
    let base = Token::new("secret", "seed").unwrap();
    let other_seed = Token::new("secret", "seed2").unwrap();
    let other_secret = Token::new("secret2", "seed").unwrap();
    assert_ne!(base.encrypted, other_seed.encrypted);
    assert_ne!(base.encrypted, other_secret.encrypted);
    assert!(!base.validate(&other_seed.encrypted));
    assert!(!base.validate(&other_secret.encrypted));
}

#[test]
fn bound_values_of_many_seeds_do_not_collide() {
    let mut seen = std::collections::HashSet::new();
    for i in 0..10_000u32 {
        let token = Token::new("secret", &format!("seed-{}", i)).unwrap();
        assert!(seen.insert(token.encrypted));
    }
}

#[test]
fn validate_is_plain_equality() {
    let token = Token::new("secret", "seed").unwrap();
    let stored = token.encrypted.clone();
    assert!(token.validate(&stored));
    assert!(!token.validate(&stored.to_uppercase()));
    assert!(!token.validate(&stored[..63]));
    assert!(!token.validate(""));
    assert!(!token.validate("seed"));
}

#[test]
fn whole_seconds_rounds_towards_the_past() {
    assert_eq!(whole_seconds(0), 0);
    assert_eq!(whole_seconds(999_999), 0);
    assert_eq!(whole_seconds(1_000_000), 1);
    assert_eq!(whole_seconds(1_700_000_000_123_456), 1_700_000_000);
    assert_eq!(whole_seconds(-1), -1);
    assert_eq!(whole_seconds(-1_000_000), -1);
    assert_eq!(whole_seconds(-1_000_001), -2);
    assert_eq!(whole_seconds(i64::MAX), 9_223_372_036_854);
    assert_eq!(whole_seconds(i64::MIN), -9_223_372_036_855);
}

#[test]
fn lifetime_has_bounds() {
    assert_eq!(Lifetime::of_minutes(15).unwrap().get(), 15);
    assert_eq!(Lifetime::of_minutes(0).unwrap().get(), 0);
    assert_eq!(Lifetime::of_minutes(-5).unwrap().get(), -5);
    assert!(Lifetime::of_minutes(MAX_TTL_MINUTES).is_some());
    assert!(Lifetime::of_minutes(-MAX_TTL_MINUTES).is_some());
    assert!(Lifetime::of_minutes(MAX_TTL_MINUTES + 1).is_none());
    assert!(Lifetime::of_minutes(-MAX_TTL_MINUTES - 1).is_none());
    assert!(Lifetime::of_minutes(i64::MAX).is_none());
    assert!(Lifetime::of_minutes(i64::MIN).is_none());
    assert_eq!(Lifetime::new(60).get(), 60);
}

#[test]
fn claims_at_a_given_time() {
    let claims = JwtClaims::at(42, Lifetime::new(15), 1_700_000_000_999_999);
    assert_eq!(claims, JwtClaims { sub: 42, iat: 1_700_000_000, exp: 1_700_000_900 });
    let early = JwtClaims::at(42, Lifetime::new(1), -1);
    assert_eq!(early, JwtClaims { sub: 42, iat: -1, exp: 59 });
    let widest = JwtClaims::at(1, Lifetime::new(MAX_TTL_MINUTES), i64::MAX);
    assert_eq!(widest.exp, 9_223_372_036_854 + 60 * MAX_TTL_MINUTES);
}

#[test]
fn claims_now_expire_after_the_lifetime() {
    let before = chrono::Utc::now().timestamp();
    let claims = JwtClaims::new(9, Lifetime::new(30));
    let after = chrono::Utc::now().timestamp();
    assert_eq!(claims.sub, 9);
    assert!(before <= claims.iat && claims.iat <= after);
    assert_eq!(claims.exp, claims.iat + 1800);
}

#[test]
fn encode_then_decode_gives_the_claims_back() {
    let id = 0x0b7f8a527d0c4f5e9a553f1f7f0d2c11u128;
    let claims = JwtClaims::new(id, Lifetime::new(10));
    let token = claims.encode("secret").unwrap();
    assert_eq!(token.split('.').count(), 3);
    assert_eq!(JwtClaims::decode(token, "secret"), Ok(claims));
}

#[test]
fn encode_is_reproducible_and_signs_the_three_claims() {
    let claims = JwtClaims { sub: 0x0b7f8a527d0c4f5e9a553f1f7f0d2c11, exp: 4_102_444_800, iat: 1_700_000_000 };
    let a = claims.encode("secret").unwrap();
    let b = claims.encode("secret").unwrap();
    assert_eq!(a, b);
    assert_ne!(a, claims.encode("other").unwrap());
    let key = jsonwebtoken::DecodingKey::from_secret(b"secret");
    let data = jsonwebtoken::decode::<serde_json::Value>(
        &a,
        &key,
        &jsonwebtoken::Validation::new(jsonwebtoken::Algorithm::HS256),
    )
    .unwrap();
    assert_eq!(data.header.alg, jsonwebtoken::Algorithm::HS256);
    assert_eq!(data.claims["sub"], "0b7f8a52-7d0c-4f5e-9a55-3f1f7f0d2c11");
    assert_eq!(data.claims["exp"], 4_102_444_800i64);
    assert_eq!(data.claims["iat"], 1_700_000_000i64);
    assert_eq!(data.claims.as_object().unwrap().len(), 3);
}

#[test]
fn decode_refuses_another_secret() {
    let token = JwtClaims::new(1, Lifetime::new(10)).encode("secret").unwrap();
    assert_eq!(JwtClaims::decode(token, "other"), Err(TokenRejected));
}

#[test]
fn decode_refuses_an_expired_token() {
    let claims = JwtClaims::at(1, Lifetime::new(1), 1_000_000_000_000_000);
    let token = claims.encode("secret").unwrap();
    assert_eq!(JwtClaims::decode(token, "secret"), Err(TokenRejected));
}

#[test]
fn decode_refuses_a_tampered_or_malformed_token() {
    let token = JwtClaims::new(1, Lifetime::new(10)).encode("secret").unwrap();
    let mut tampered = token.clone();
    tampered.pop();
    tampered.push(if token.ends_with('A') { 'B' } else { 'A' });
    assert_eq!(JwtClaims::decode(tampered, "secret"), Err(TokenRejected));
    assert_eq!(JwtClaims::decode("".to_string(), "secret"), Err(TokenRejected));
    assert_eq!(JwtClaims::decode("a.b.c".to_string(), "secret"), Err(TokenRejected));
    assert_eq!(JwtClaims::decode("not a token".to_string(), "secret"), Err(TokenRejected));
}

#[test]
fn decode_refuses_claims_without_a_user() {
    let key = jsonwebtoken::EncodingKey::from_secret(b"secret");
    let mut claims = serde_json::Map::new();
    claims.insert("exp".to_string(), serde_json::Value::from(4_102_444_800i64));
    claims.insert("iat".to_string(), serde_json::Value::from(1_700_000_000i64));
    let no_sub = jsonwebtoken::encode(&jsonwebtoken::Header::default(), &claims, &key).unwrap();
    assert_eq!(JwtClaims::decode(no_sub, "secret"), Err(TokenRejected));
    claims.insert("sub".to_string(), serde_json::Value::from("nobody"));
    let bad_sub = jsonwebtoken::encode(&jsonwebtoken::Header::default(), &claims, &key).unwrap();
    assert_eq!(JwtClaims::decode(bad_sub, "secret"), Err(TokenRejected));
    claims.insert(
        "sub".to_string(),
        serde_json::Value::from("0b7f8a52-7d0c-4f5e-9a55-3f1f7f0d2c11"),
    );
    claims.remove("iat");
    let no_iat = jsonwebtoken::encode(&jsonwebtoken::Header::default(), &claims, &key).unwrap();
    assert_eq!(JwtClaims::decode(no_iat, "secret"), Err(TokenRejected));
}

#[test]
fn from_parts_needs_all_three() {
    let id = "0b7f8a52-7d0c-4f5e-9a55-3f1f7f0d2c11".to_string();
    assert_eq!(
        JwtClaims::from_parts(Some(id.clone()), Some(20), Some(10)),
        Ok(JwtClaims { sub: 0x0b7f8a527d0c4f5e9a553f1f7f0d2c11, exp: 20, iat: 10 })
    );
    assert_eq!(JwtClaims::from_parts(None, Some(20), Some(10)), Err(TokenRejected));
    assert_eq!(JwtClaims::from_parts(Some(id.clone()), None, Some(10)), Err(TokenRejected));
    assert_eq!(JwtClaims::from_parts(Some(id), Some(20), None), Err(TokenRejected));
    assert_eq!(
        JwtClaims::from_parts(Some("x".to_string()), Some(20), Some(10)),
        Err(TokenRejected)
    );
}

#[test]
fn decode_reads_the_claims_of_the_payload() {
    let key = jsonwebtoken::EncodingKey::from_secret(b"secret");
    let mut claims = serde_json::Map::new();
    claims.insert(
        "sub".to_string(),
        serde_json::Value::from("0B7F8A52-7D0C-4F5E-9A55-3F1F7F0D2C11"),
    );
    claims.insert("role".to_string(), serde_json::Value::from("admin"));
    claims.insert("exp".to_string(), serde_json::Value::from(4_102_444_800i64));
    claims.insert("iat".to_string(), serde_json::Value::from(-5i64));
    let token = jsonwebtoken::encode(&jsonwebtoken::Header::default(), &claims, &key).unwrap();
    assert_eq!(
        JwtClaims::decode(token, "secret"),
        Ok(JwtClaims { sub: 0x0b7f8a527d0c4f5e9a553f1f7f0d2c11, exp: 4_102_444_800, iat: -5 })
    );
}

#[test]
fn decode_refuses_claims_of_another_kind() {
    let key = jsonwebtoken::EncodingKey::from_secret(b"secret");
    let mut claims = serde_json::Map::new();
    claims.insert(
        "sub".to_string(),
        serde_json::Value::from("0b7f8a52-7d0c-4f5e-9a55-3f1f7f0d2c11"),
    );
    claims.insert("exp".to_string(), serde_json::Value::from(4_102_444_800i64));
    claims.insert("iat".to_string(), serde_json::Value::from("yesterday"));
    let text_iat = jsonwebtoken::encode(&jsonwebtoken::Header::default(), &claims, &key).unwrap();
    assert_eq!(JwtClaims::decode(text_iat, "secret"), Err(TokenRejected));
    claims.insert("iat".to_string(), serde_json::Value::from(1_700_000_000i64));
    claims.insert("sub".to_string(), serde_json::Value::from(7));
    let number_sub = jsonwebtoken::encode(&jsonwebtoken::Header::default(), &claims, &key).unwrap();
    assert_eq!(JwtClaims::decode(number_sub, "secret"), Err(TokenRejected));
    claims.insert(
        "sub".to_string(),
        serde_json::Value::from("0b7f8a52-7d0c-4f5e-9a55-3f1f7f0d2c11"),
    );
    claims.insert("iat".to_string(), serde_json::Value::from(u64::MAX));
    let wide_iat = jsonwebtoken::encode(&jsonwebtoken::Header::default(), &claims, &key).unwrap();
    assert_eq!(JwtClaims::decode(wide_iat, "secret"), Err(TokenRejected));
}
