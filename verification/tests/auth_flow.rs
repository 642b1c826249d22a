use auth_core::auth::{
    account_of, enrolled, saved, session_of, AuthUseCase, LoginDto, RefreshTokenDto, RegisterDto,
};
use auth_core::error::{AuthError, ModelError};
use auth_core::jwt::JwtClaims;
use auth_core::user_memory::InMemoryUserRepository;
use auth_core::repository::UserRepository;
use auth_core::token::Token;

const SECRET: &str = "server-secret";

fn service() -> AuthUseCase<InMemoryUserRepository> {
    AuthUseCase::new(InMemoryUserRepository::new(), SECRET.to_string(), 15)
}

fn register(name: &str, email: &str, password: &str) -> RegisterDto {
    RegisterDto { name: name.to_string(), email: email.to_string(), password: password.to_string() }
}

fn login(email: &str, password: &str) -> LoginDto {
    LoginDto { email: email.to_string(), password: password.to_string() }
}

fn refresh(token: &str) -> RefreshTokenDto {
    RefreshTokenDto { token: token.to_string() }
}

#[test]
fn register_stores_the_address_in_lowercase() {
    let mut auth = service();
    assert_eq!(auth.register(register("test", "Test@Domain.com", "test123")), Ok(()));
    let session = auth.login(login("test@domain.com", "test123")).unwrap();
    let shown = auth.whoami(session.id).unwrap();
    assert_eq!(shown.email, "test@domain.com");
    assert_eq!(shown.name, "test");
    assert_eq!(shown.id, session.id);
}

#[test]
fn concrete_scenario_register_login_wrong_password_conflict() {
    let mut auth = service();
    assert_eq!(auth.register(register("test", "Test@Domain.com", "test123")), Ok(()));

    let session = auth.login(login("test@domain.com", "test123")).unwrap();
    assert!(!session.access_token.is_empty());
    assert!(!session.refresh_token.is_empty());
    assert_eq!(session.name, "test");
    assert_eq!(auth.whoami(session.id).unwrap().id, session.id);
    let claims = JwtClaims::decode(session.access_token.clone(), SECRET).unwrap();
    assert_eq!(claims.sub, session.id);
    assert_eq!(claims.exp, claims.iat + 15 * 60);

    let wrong = auth.login(login("test@domain.com", "wrong"));
    assert_eq!(wrong.unwrap_err(), AuthError::InvalidCredentials);

    let again = auth.register(register("other", "test@domain.com", "pw"));
    assert_eq!(again, Err(AuthError::Conflict));
    let again_mixed = auth.register(register("other", "TEST@DOMAIN.COM", "pw"));
    assert_eq!(again_mixed, Err(AuthError::Conflict));
}

#[test]
fn register_then_login_with_the_same_credentials() {
    let mut auth = service();
    assert_eq!(auth.register(register("Ann", "Ann@Example.org", "pa55")), Ok(()));
    let session = auth.login(login("Ann@Example.org", "pa55")).unwrap();
    assert!(!session.access_token.is_empty());
    assert_eq!(session.refresh_token.len(), 36);
    let seed = uuid::Uuid::parse_str(&session.refresh_token).unwrap();
    assert_eq!(seed.get_version_num(), 4);
    assert_eq!(seed.to_string(), session.refresh_token);
    let id = uuid::Uuid::from_u128(session.id);
    assert_eq!(id.get_version_num(), 4);
}

#[test]
fn login_with_wrong_password_is_invalid_credentials_not_not_found() {
    let mut auth = service();
    auth.register(register("Ann", "ann@example.org", "pa55")).unwrap();
    let result = auth.login(login("ann@example.org", "pa56"));
    assert_eq!(result.unwrap_err(), AuthError::InvalidCredentials);
    let result = auth.login(login("ann@example.org", ""));
    assert_eq!(result.unwrap_err(), AuthError::InvalidCredentials);
}

#[test]
fn login_of_an_unknown_address_is_not_found() {
    let mut auth = service();
    auth.register(register("Ann", "ann@example.org", "pa55")).unwrap();
    let result = auth.login(login("bob@example.org", "pa55"));
    assert_eq!(result.unwrap_err(), AuthError::NotFound);
    let mut empty = service();
    assert_eq!(empty.login(login("ann@example.org", "pa55")).unwrap_err(), AuthError::NotFound);
}

#[test]
fn login_looks_the_address_up_in_lowercase() {
    let mut auth = service();
    auth.register(register("Ann", "ann@example.org", "pa55")).unwrap();
    let session = auth.login(login("ANN@Example.ORG", "pa55")).unwrap();
    assert_eq!(session.name, "Ann");
}

#[test]
fn failed_login_leaves_the_session_as_it_was() {
    let mut auth = service();
    auth.register(register("Ann", "ann@example.org", "pa55")).unwrap();
    let session = auth.login(login("ann@example.org", "pa55")).unwrap();
    assert!(auth.login(login("ann@example.org", "nope")).is_err());
    assert!(auth.login(login("nobody@example.org", "pa55")).is_err());
    let refreshed = auth.refresh_access_token(refresh(&session.refresh_token)).unwrap();
    assert_eq!(refreshed.id, session.id);
}

#[test]
fn login_then_refresh_keeps_the_refresh_token() {
    let mut auth = service();
    auth.register(register("Ann", "ann@example.org", "pa55")).unwrap();
    let session = auth.login(login("ann@example.org", "pa55")).unwrap();
    let refreshed = auth.refresh_access_token(refresh(&session.refresh_token)).unwrap();
    assert_eq!(refreshed.refresh_token, session.refresh_token);
    assert_eq!(refreshed.id, session.id);
    assert_eq!(refreshed.name, session.name);
    assert!(!refreshed.access_token.is_empty());
    let claims = JwtClaims::decode(refreshed.access_token, SECRET).unwrap();
    assert_eq!(claims.sub, session.id);
    let twice = auth.refresh_access_token(refresh(&session.refresh_token)).unwrap();
    assert_eq!(twice.refresh_token, session.refresh_token);
}

#[test]
fn refresh_at_a_later_time_issues_a_new_access_token() {
    let mut auth = service();
    auth.register(register("Ann", "ann@example.org", "pa55")).unwrap();
    let now = chrono::Utc::now().timestamp_micros();
    let session = auth
        .login_session(login("ann@example.org", "pa55"), "my-session".to_string(), now)
        .unwrap();
    assert_eq!(session.refresh_token, "my-session");
    let later = now + 5_000_000;
    let refreshed = auth.refresh_at(refresh("my-session"), later).unwrap();
    assert_ne!(refreshed.access_token, session.access_token);
    assert_eq!(refreshed.refresh_token, "my-session");
    let first = JwtClaims::decode(session.access_token, SECRET).unwrap();
    let second = JwtClaims::decode(refreshed.access_token, SECRET).unwrap();
    assert_eq!(second.iat, first.iat + 5);
    assert_eq!(second.exp, first.exp + 5);
    assert_eq!(second.sub, first.sub);
}

#[test]
fn refresh_with_an_unknown_token_is_not_found() {
    let mut auth = service();
    auth.register(register("Ann", "ann@example.org", "pa55")).unwrap();
    auth.login(login("ann@example.org", "pa55")).unwrap();
    let result = auth.refresh_access_token(refresh("no-such-session"));
    assert_eq!(result.unwrap_err(), AuthError::NotFound);
    let result = auth.refresh_access_token(refresh(""));
    assert_eq!(result.unwrap_err(), AuthError::NotFound);
}

#[test]
fn refresh_does_not_take_the_bound_value_for_the_token() {
    let mut auth = service();
    auth.register(register("Ann", "ann@example.org", "pa55")).unwrap();
    let session = auth.login(login("ann@example.org", "pa55")).unwrap();
    let bound = Token::new(SECRET, &session.refresh_token).unwrap().encrypted;
    assert_ne!(bound, session.refresh_token);
    let result = auth.refresh_access_token(refresh(&bound));
    assert_eq!(result.unwrap_err(), AuthError::NotFound);
}

#[test]
fn logout_ends_the_refresh_session_but_not_the_access_token() {
    let mut auth = service();
    auth.register(register("Ann", "ann@example.org", "pa55")).unwrap();
    let session = auth.login(login("ann@example.org", "pa55")).unwrap();
    assert_eq!(auth.logout(session.id), Ok(()));
    let result = auth.refresh_access_token(refresh(&session.refresh_token));
    assert_eq!(result.unwrap_err(), AuthError::NotFound);
    let claims = JwtClaims::decode(session.access_token, SECRET).unwrap();
    assert_eq!(claims.sub, session.id);
    assert_eq!(auth.whoami(session.id).unwrap().email, "ann@example.org");
}

#[test]
fn logout_of_an_unknown_user_is_not_found() {
    let mut auth = service();
    assert_eq!(auth.logout(5), Err(AuthError::NotFound));
    assert_eq!(auth.logout_at(5, 0), Err(AuthError::NotFound));
}

#[test]
fn logout_twice_succeeds_and_login_opens_a_new_session() {
    let mut auth = service();
    auth.register(register("Ann", "ann@example.org", "pa55")).unwrap();
    let first = auth.login(login("ann@example.org", "pa55")).unwrap();
    assert_eq!(auth.logout(first.id), Ok(()));
    assert_eq!(auth.logout(first.id), Ok(()));
    let second = auth.login(login("ann@example.org", "pa55")).unwrap();
    assert_eq!(second.id, first.id);
    assert_ne!(second.refresh_token, first.refresh_token);
    assert!(auth.refresh_access_token(refresh(&second.refresh_token)).is_ok());
    assert!(auth.refresh_access_token(refresh(&first.refresh_token)).is_err());
}

#[test]
fn second_login_displaces_the_first_session() {
    let mut auth = service();
    auth.register(register("Ann", "ann@example.org", "pa55")).unwrap();
    let first = auth.login(login("ann@example.org", "pa55")).unwrap();
    let second = auth.login(login("ann@example.org", "pa55")).unwrap();
    assert_ne!(first.refresh_token, second.refresh_token);
    let old = auth.refresh_access_token(refresh(&first.refresh_token));
    assert_eq!(old.unwrap_err(), AuthError::NotFound);
    let new = auth.refresh_access_token(refresh(&second.refresh_token)).unwrap();
    assert_eq!(new.id, first.id);
}

#[test]
fn sessions_of_two_users_are_apart() {
    let mut auth = service();
    auth.register(register("Ann", "ann@example.org", "pa55")).unwrap();
    auth.register(register("Bob", "bob@example.org", "hunter2")).unwrap();
    let ann = auth.login(login("ann@example.org", "pa55")).unwrap();
    let bob = auth.login(login("bob@example.org", "hunter2")).unwrap();
    assert_ne!(ann.id, bob.id);
    assert_eq!(auth.login(login("ann@example.org", "hunter2")).unwrap_err(), AuthError::InvalidCredentials);
    auth.logout(ann.id).unwrap();
    assert!(auth.refresh_access_token(refresh(&ann.refresh_token)).is_err());
    let still = auth.refresh_access_token(refresh(&bob.refresh_token)).unwrap();
    assert_eq!(still.id, bob.id);
    assert_eq!(still.name, "Bob");
}

#[test]
fn whoami_of_an_unknown_user_is_not_found() {
    let auth = service();
    assert_eq!(auth.whoami(1).unwrap_err(), AuthError::NotFound);
}

#[test]
fn register_account_with_given_values() {
    let mut auth = service();
    let hash = auth_core::user::User::hash_password("pw").unwrap();
    let dto = register("Cy", "Cy@Example.org", "pw");
    assert_eq!(auth.register_account(dto, 77, hash.clone(), 1_000), Ok(()));
    let shown = auth.whoami(77).unwrap();
    assert_eq!(shown.email, "cy@example.org");
    assert_eq!(shown.name, "Cy");
    let same_id = auth.register_account(register("Di", "di@example.org", "pw"), 77, hash.clone(), 2_000);
    assert_eq!(same_id, Err(AuthError::Conflict));
    let same_email = auth.register_account(register("Di", "CY@example.org", "pw"), 78, hash, 2_000);
    assert_eq!(same_email, Err(AuthError::Conflict));
    assert_eq!(auth.whoami(78).unwrap_err(), AuthError::NotFound);
}

#[test]
fn login_session_fills_the_slot_with_the_bound_value() {
    let mut store = InMemoryUserRepository::new();
    let hash = auth_core::user::User::hash_password("pw").unwrap();
    store
        .create(auth_core::user::User {
            id: 5,
            name: "Cy".to_string(),
            email: "cy@example.org".to_string(),
            password: hash,
            token: None,
            created_at: 1,
            updated_at: 1,
        })
        .unwrap();
    let mut auth = AuthUseCase::new(store, SECRET.to_string(), 1);
    let session = auth.login_session(login("cy@example.org", "pw"), "seed".to_string(), 2_000_000).unwrap();
    assert_eq!(session.id, 5);
    assert_eq!(session.refresh_token, "seed");
    let expected = JwtClaims { sub: 5, iat: 2, exp: 62 }.encode(SECRET).unwrap();
    assert_eq!(session.access_token, expected);
}

#[test]
fn addresses_are_lowercased_beyond_ascii() {
    let mut auth = service();
    assert_eq!(auth.register(register("Änne", "ÄNNE@Example.ORG", "pw")), Ok(()));
    let session = auth.login(login("änne@example.org", "pw")).unwrap();
    assert_eq!(auth.whoami(session.id).unwrap().email, "änne@example.org");
    assert_eq!(auth.whoami(session.id).unwrap().name, "Änne");
    assert_eq!(auth.register(register("x", "Änne@example.org", "pw")), Err(AuthError::Conflict));
}

#[test]
fn register_opens_no_session() {
    let mut auth = service();
    let before = chrono::Utc::now().timestamp_micros();
    assert_eq!(auth.register(register("Cy", "Cy@Example.org", "pw")), Ok(()));
    let after = chrono::Utc::now().timestamp_micros();
    let stored = auth.repository().find_by_email("cy@example.org").unwrap().unwrap();
    assert_eq!(stored.token, None);
    assert_eq!(stored.name, "Cy");
    assert_ne!(stored.password, "pw");
    assert!(stored.verify_password("pw".to_string()));
    assert_eq!(stored.created_at, stored.updated_at);
    assert!(before <= stored.created_at && stored.created_at <= after);
    assert_eq!(uuid::Uuid::from_u128(stored.id).get_version_num(), 4);
    assert_eq!(auth.repository().find_all().unwrap().len(), 1);
}

#[test]
fn the_store_holds_only_the_bound_value() {
    let mut auth = service();
    auth.register(register("Cy", "cy@example.org", "pw")).unwrap();
    let registered = auth.repository().find_by_email("cy@example.org").unwrap().unwrap();
    let session = auth.login(login("cy@example.org", "pw")).unwrap();
    let stored = auth.repository().find_by_id(session.id).unwrap().unwrap();
    let bound = Token::new(SECRET, &session.refresh_token).unwrap().encrypted;
    assert_eq!(stored.token, Some(bound.clone()));
    assert_ne!(bound, session.refresh_token);
    assert!(stored.updated_at >= registered.updated_at);
    assert_eq!(stored.created_at, registered.created_at);
    assert_eq!(stored.password, registered.password);
    assert_eq!(auth.repository().find_by_token(&bound).unwrap().unwrap().id, session.id);
    assert!(auth.repository().find_by_token(&session.refresh_token).unwrap().is_none());

    auth.refresh_access_token(refresh(&session.refresh_token)).unwrap();
    let unchanged = auth.repository().find_by_id(session.id).unwrap().unwrap();
    assert_eq!(unchanged.token, Some(bound));
    assert_eq!(unchanged.updated_at, stored.updated_at);

    auth.logout_at(session.id, 42).unwrap();
    let cleared = auth.repository().find_by_id(session.id).unwrap().unwrap();
    assert_eq!(cleared.token, None);
    assert_eq!(cleared.updated_at, 42);
    assert_eq!(cleared.email, "cy@example.org");
}

fn record(token: Option<&str>) -> auth_core::user::User {
    auth_core::user::User {
        id: 3,
        name: "Cy".to_string(),
        email: "cy@example.org".to_string(),
        password: "hash".to_string(),
        token: token.map(|t| t.to_string()),
        created_at: 1,
        updated_at: 2,
    }
}

#[test]
fn what_the_service_makes_of_a_lookup() {
    assert_eq!(account_of(Ok(Some(record(None)))).unwrap().id, 3);
    assert_eq!(account_of(Ok(None)).unwrap_err(), AuthError::NotFound);
    assert_eq!(account_of(Err(ModelError::NotFound)).unwrap_err(), AuthError::NotFound);
    assert_eq!(account_of(Err(ModelError::Conflict)).unwrap_err(), AuthError::GeneralError);
    assert_eq!(
        account_of(Err(ModelError::Database("x".to_string()))).unwrap_err(),
        AuthError::GeneralError
    );
}

#[test]
fn what_the_service_makes_of_a_lookup_by_bound_value() {
    let token = Token::new(SECRET, "seed").unwrap();
    let bound = token.encrypted.clone();
    assert_eq!(session_of(Ok(Some(record(Some(&bound)))), &token).unwrap().id, 3);
    assert_eq!(session_of(Ok(Some(record(None))), &token).unwrap_err(), AuthError::GeneralError);
    assert_eq!(
        session_of(Ok(Some(record(Some("seed")))), &token).unwrap_err(),
        AuthError::TokenExpired
    );
    assert_eq!(session_of(Ok(None), &token).unwrap_err(), AuthError::NotFound);
    assert_eq!(session_of(Err(ModelError::NotFound), &token).unwrap_err(), AuthError::NotFound);
    assert_eq!(session_of(Err(ModelError::Conflict), &token).unwrap_err(), AuthError::GeneralError);
}

#[test]
fn what_the_service_makes_of_a_write() {
    assert_eq!(enrolled(Ok(())), Ok(()));
    assert_eq!(enrolled(Err(ModelError::Conflict)), Err(AuthError::Conflict));
    assert_eq!(enrolled(Err(ModelError::NotFound)), Err(AuthError::GeneralError));
    assert_eq!(enrolled(Err(ModelError::Database("x".to_string()))), Err(AuthError::GeneralError));
    assert_eq!(saved(Ok(())), Ok(()));
    assert_eq!(saved(Err(ModelError::Conflict)), Err(AuthError::GeneralError));
    assert_eq!(saved(Err(ModelError::NotFound)), Err(AuthError::GeneralError));
    assert_eq!(saved(Err(ModelError::Database("x".to_string()))), Err(AuthError::GeneralError));
}

#[test]
fn register_and_login_by_the_address_as_stored() {
    let mut auth = service();
    let hash = auth_core::user::User::hash_password("test123").unwrap();
    let done = auth.register_with_address(
        "test".to_string(),
        "test@domain.com".to_string(),
        hash,
        11,
        5,
    );
    assert_eq!(done, Ok(()));
    let stored = auth.repository().find_by_id(11).unwrap().unwrap();
    assert_eq!(stored.email, "test@domain.com");
    assert_eq!((stored.created_at, stored.updated_at, stored.token.clone()), (5, 5, None));

    let session = auth
        .login_with_address("test@domain.com", "test123".to_string(), "seed".to_string(), 7_000_000)
        .unwrap();
    assert_eq!((session.id, session.name.as_str(), session.refresh_token.as_str()), (11, "test", "seed"));
    let wrong = auth.login_with_address("test@domain.com", "wrong".to_string(), "s".to_string(), 8);
    assert_eq!(wrong.unwrap_err(), AuthError::InvalidCredentials);
    let unknown = auth.login_with_address("Test@Domain.com", "test123".to_string(), "s".to_string(), 8);
    assert_eq!(unknown.unwrap_err(), AuthError::NotFound);
    let by_dto = auth.login(login("Test@Domain.com", "test123")).unwrap();
    assert_eq!(by_dto.id, 11);
}

#[test]
fn credentials_are_checked_without_a_write() {
    let mut auth = service();
    auth.register(register("Ann", "ann@example.org", "pa55")).unwrap();
    let before = auth.repository().find_by_email("ann@example.org").unwrap().unwrap();
    let user = auth.check_credentials("ann@example.org", "pa55".to_string()).unwrap();
    assert_eq!(user.id, before.id);
    assert_eq!(
        auth.check_credentials("ann@example.org", "nope".to_string()).unwrap_err(),
        AuthError::InvalidCredentials
    );
    assert_eq!(
        auth.check_credentials("bob@example.org", "pa55".to_string()).unwrap_err(),
        AuthError::NotFound
    );
    let after = auth.repository().find_by_email("ann@example.org").unwrap().unwrap();
    assert_eq!(after.token, None);
    assert_eq!(after.updated_at, before.updated_at);

    let opened = auth.open_session(user, "seed".to_string(), 9_000_000).unwrap();
    assert_eq!(opened.refresh_token, "seed");
    let stored = auth.repository().find_by_id(opened.id).unwrap().unwrap();
    assert_eq!(stored.token, Some(Token::new(SECRET, "seed").unwrap().encrypted));
    assert_eq!(stored.updated_at, 9_000_000);
    let claims = JwtClaims { sub: opened.id, iat: 9, exp: 9 + 15 * 60 };
    assert_eq!(opened.access_token, claims.encode(SECRET).unwrap());
}
