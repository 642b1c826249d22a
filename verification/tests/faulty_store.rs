use auth_core::auth::{AuthUseCase, LoginDto, RefreshTokenDto, RegisterDto};
use auth_core::error::{AuthError, ModelError, UserError};
use auth_core::user_memory::InMemoryUserRepository;
use auth_core::repository::UserRepository;
use auth_core::user::User;
use auth_core::users::UserUseCase;

/// A store that answers as a database behind a network would: it reports a
/// missing record as an error, and can be switched to fail.
struct Remote {
    inner: InMemoryUserRepository,
    reads_fail: bool,
    writes_fail: bool,
    stale: Option<User>,
    odd: Option<fn() -> ModelError>,
}

fn remote(inner: InMemoryUserRepository) -> Remote {
    Remote { inner, reads_fail: false, writes_fail: false, stale: None, odd: None }
}

fn down() -> ModelError {
    ModelError::Database("connection refused".to_string())
}

fn odd_not_found() -> ModelError {
    ModelError::NotFound
}

fn odd_conflict() -> ModelError {
    ModelError::Conflict
}

fn found(result: Result<Option<User>, ModelError>) -> Result<Option<User>, ModelError> {
    match result {
        Ok(None) => Err(ModelError::NotFound),
        other => other,
    }
}

impl UserRepository for Remote {
    fn create(&mut self, user: User) -> Result<(), ModelError> {
        if let Some(odd) = self.odd {
            return Err(odd());
        }
        if self.writes_fail {
            return Err(down());
        }
        self.inner.create(user)
    }

    fn update(&mut self, user: &User) -> Result<(), ModelError> {
        if let Some(odd) = self.odd {
            return Err(odd());
        }
        if self.writes_fail {
            return Err(down());
        }
        self.inner.update(user)
    }

    fn delete(&mut self, id: u128) -> Result<(), ModelError> {
        if self.writes_fail {
            return Err(down());
        }
        self.inner.delete(id)
    }

    fn find_all(&self) -> Result<Vec<User>, ModelError> {
        if self.reads_fail {
            return Err(ModelError::NotFound);
        }
        self.inner.find_all()
    }

    fn find_by_id(&self, id: u128) -> Result<Option<User>, ModelError> {
        if self.reads_fail {
            return Err(down());
        }
        found(self.inner.find_by_id(id))
    }

    fn find_by_email(&self, email: &str) -> Result<Option<User>, ModelError> {
        if self.reads_fail {
            return Err(down());
        }
        found(self.inner.find_by_email(email))
    }

    fn find_by_token(&self, token: &str) -> Result<Option<User>, ModelError> {
        if self.reads_fail {
            return Err(down());
        }
        if let Some(user) = &self.stale {
            return Ok(Some(user.duplicate()));
        }
        found(self.inner.find_by_token(token))
    }
}

fn account(token: Option<&str>) -> User {
    User {
        id: 1,
        name: "Ann".to_string(),
        email: "ann@example.org".to_string(),
        password: User::hash_password("pa55").unwrap(),
        token: token.map(|t| t.to_string()),
        created_at: 0,
        updated_at: 0,
    }
}

fn with_account() -> InMemoryUserRepository {
    let mut inner = InMemoryUserRepository::new();
    inner.create(account(None)).unwrap();
    inner
}

fn register() -> RegisterDto {
    RegisterDto { name: "Bob".to_string(), email: "bob@example.org".to_string(), password: "pw".to_string() }
}

fn login(password: &str) -> LoginDto {
    LoginDto { email: "ann@example.org".to_string(), password: password.to_string() }
}

fn refresh(token: &str) -> RefreshTokenDto {
    RefreshTokenDto { token: token.to_string() }
}

#[test]
fn missing_record_reported_as_an_error_is_not_found() {
    let mut auth = AuthUseCase::new(remote(InMemoryUserRepository::new()), "s".to_string(), 15);
    assert_eq!(auth.login(login("pa55")).unwrap_err(), AuthError::NotFound);
    assert_eq!(auth.refresh_access_token(refresh("seed")).unwrap_err(), AuthError::NotFound);
    assert_eq!(auth.whoami(1).unwrap_err(), AuthError::NotFound);
    assert_eq!(auth.logout(1), Err(AuthError::NotFound));
}

#[test]
fn the_flow_works_over_such_a_store() {
    let mut auth = AuthUseCase::new(remote(with_account()), "s".to_string(), 15);
    assert_eq!(auth.register(register()), Ok(()));
    let session = auth.login(login("pa55")).unwrap();
    let again = auth.refresh_access_token(refresh(&session.refresh_token)).unwrap();
    assert_eq!(again.refresh_token, session.refresh_token);
    assert_eq!(auth.logout(session.id), Ok(()));
    assert_eq!(
        auth.refresh_access_token(refresh(&session.refresh_token)).unwrap_err(),
        AuthError::NotFound
    );
}

#[test]
fn failing_reads_are_general_errors() {
    let mut store = remote(with_account());
    store.reads_fail = true;
    let mut auth = AuthUseCase::new(store, "s".to_string(), 15);
    assert_eq!(auth.login(login("pa55")).unwrap_err(), AuthError::GeneralError);
    assert_eq!(auth.refresh_access_token(refresh("seed")).unwrap_err(), AuthError::GeneralError);
    assert_eq!(auth.whoami(1).unwrap_err(), AuthError::GeneralError);
    assert_eq!(auth.logout(1), Err(AuthError::GeneralError));
}

#[test]
fn failing_writes_are_general_errors() {
    let mut store = remote(with_account());
    store.writes_fail = true;
    let mut auth = AuthUseCase::new(store, "s".to_string(), 15);
    assert_eq!(auth.register(register()), Err(AuthError::GeneralError));
    assert_eq!(auth.login(login("pa55")).unwrap_err(), AuthError::GeneralError);
    assert_eq!(auth.login(login("nope")).unwrap_err(), AuthError::InvalidCredentials);
    assert_eq!(auth.logout(1), Err(AuthError::GeneralError));
    assert_eq!(auth.whoami(1).unwrap().name, "Ann");
}

#[test]
fn a_record_with_another_session_is_token_expired() {
    let mut store = remote(with_account());
    store.stale = Some(account(Some("some other bound value")));
    let auth = AuthUseCase::new(store, "s".to_string(), 15);
    assert_eq!(auth.refresh_access_token(refresh("seed")).unwrap_err(), AuthError::TokenExpired);
}

#[test]
fn a_record_without_a_session_is_a_general_error() {
    let mut store = remote(with_account());
    store.stale = Some(account(None));
    let auth = AuthUseCase::new(store, "s".to_string(), 15);
    assert_eq!(auth.refresh_access_token(refresh("seed")).unwrap_err(), AuthError::GeneralError);
}

#[test]
fn administration_over_a_failing_store() {
    let mut store = remote(with_account());
    store.reads_fail = true;
    let mut users = UserUseCase::new(store);
    assert_eq!(users.find_all().unwrap_err(), UserError::NotFound);
    assert_eq!(users.find_by_id(1).unwrap_err(), UserError::GeneralError);
    assert_eq!(users.delete_user(1), Err(UserError::GeneralError));
    let mut users = UserUseCase::new(remote(with_account()));
    assert_eq!(users.find_by_id(2).unwrap_err(), UserError::NotFound);
    assert_eq!(users.delete_user(2), Err(UserError::NotFound));
    assert_eq!(users.delete_user(1), Ok(()));
}

#[test]
fn a_failed_create_is_a_conflict_only_where_the_store_says_so() {
    let mut store = remote(with_account());
    store.odd = Some(odd_not_found);
    let mut auth = AuthUseCase::new(store, "s".to_string(), 15);
    assert_eq!(auth.register(register()), Err(AuthError::GeneralError));
    let mut store = remote(with_account());
    store.odd = Some(odd_conflict);
    let mut auth = AuthUseCase::new(store, "s".to_string(), 15);
    assert_eq!(auth.register(register()), Err(AuthError::Conflict));
}

#[test]
fn a_failed_update_is_a_general_error_whatever_the_store_says() {
    let mut store = remote(with_account());
    store.odd = Some(odd_conflict);
    let mut auth = AuthUseCase::new(store, "s".to_string(), 15);
    assert_eq!(auth.login(login("pa55")).unwrap_err(), AuthError::GeneralError);
    assert_eq!(auth.logout(1), Err(AuthError::GeneralError));
    let mut store = remote(with_account());
    store.odd = Some(odd_not_found);
    let mut auth = AuthUseCase::new(store, "s".to_string(), 15);
    assert_eq!(auth.login(login("pa55")).unwrap_err(), AuthError::GeneralError);
    assert_eq!(auth.logout(1), Err(AuthError::GeneralError));
    assert_eq!(auth.login(login("nope")).unwrap_err(), AuthError::InvalidCredentials);
}
