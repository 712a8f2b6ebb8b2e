use std::sync::Arc;
use zxc_money::identity::application::authenticate::{AuthenticateUserCommand, AuthenticateUserHandler};
use zxc_money::identity::application::create_user::{CreateUserCommand, CreateUserHandler};
use zxc_money::identity::domain::repository::IdentityError;
use zxc_money::identity::domain::user::{blank, Argon2PasswordHasher, PasswordError, PasswordHasher, User};
use zxc_money::provider::id::MockIdGenerator;
use zxc_money::shared::ids::UserID;
use zxc_money::shared::errors::RepositoryError;

#[test]
fn test_user_creation() {
    let id = UserID::new();
    let user = User::new(id, "alice@example.com".into(), "hash123".into(), "Alice".into()).unwrap();
    assert_eq!(user.id, id);
    assert_eq!(user.email, "alice@example.com");
    assert_eq!(user.name, "Alice");
    assert_eq!(user.password_hash, "hash123");
}

#[test]
fn test_user_empty_email_rejected() {
    let result = User::new(UserID::new(), "".into(), "hash".into(), "Alice".into());
    assert!(result.is_err());
}

#[test]
fn test_user_whitespace_email_rejected() {
    let result = User::new(UserID::new(), "   ".into(), "hash".into(), "Alice".into());
    assert!(result.is_err());
}

#[test]
fn test_user_empty_name_rejected() {
    let result = User::new(UserID::new(), "alice@example.com".into(), "hash".into(), "".into());
    assert!(result.is_err());
}

#[test]
fn user_error_messages() {
    match User::new(UserID(1), " \t\n".into(), "h".into(), "Alice".into()) {
        Err(IdentityError::InvalidInput(m)) => assert_eq!(m, "email must not be empty"),
        _ => panic!("a blank email is refused"),
    }
    match User::new(UserID(1), "a@b.c".into(), "h".into(), "\u{3000}".into()) {
        Err(IdentityError::InvalidInput(m)) => assert_eq!(m, "name must not be empty"),
        _ => panic!("a blank name is refused"),
    }
    assert!(!blank(" x "));
    assert!(blank(""));
}

#[test]
fn test_argon2_hash_and_verify() {
    let hasher = Argon2PasswordHasher;
    let hash = hasher.hash("my_secret_password").unwrap();
    assert!(hasher.verify("my_secret_password", &hash).unwrap());
    assert!(!hasher.verify("wrong_password", &hash).unwrap());
}

#[test]
fn test_argon2_different_hashes() {
    let hasher = Argon2PasswordHasher;
    let h1 = hasher.hash("password").unwrap();
    let h2 = hasher.hash("password").unwrap();
    assert_ne!(h1, h2);
    assert!(hasher.verify("password", &h1).unwrap());
    assert!(hasher.verify("password", &h2).unwrap());
}

#[test]
fn test_argon2_invalid_hash_format() {
    let hasher = Argon2PasswordHasher;
    let result = hasher.verify("password", "not_a_valid_hash");
    assert!(result.is_err());
}

fn create_handler() -> CreateUserHandler<(), Argon2PasswordHasher, MockIdGenerator> {
    CreateUserHandler::new(Arc::new(()), Arc::new(Argon2PasswordHasher), Arc::new(MockIdGenerator::new(0)))
}

fn create_cmd(email: &str, name: &str) -> CreateUserCommand {
    CreateUserCommand { email: email.into(), password: "secret123".into(), name: name.into() }
}

#[test]
fn test_create_user_happy_path() {
    let user = create_handler().create(None, create_cmd("alice@example.com", "Alice")).unwrap();
    assert_eq!(user.id, UserID(0));
    assert_eq!(user.email, "alice@example.com");
    assert!(Argon2PasswordHasher.verify("secret123", &user.password_hash).unwrap());
    assert_ne!(user.password_hash, "secret123");
}

#[test]
fn test_create_user_duplicate_email() {
    let existing = User::new(UserID(1), "alice@example.com".into(), "h".into(), "Alice".into()).unwrap();
    match create_handler().create(Some(existing), create_cmd("alice@example.com", "Alice 2")) {
        Err(IdentityError::EmailAlreadyExists(e)) => assert_eq!(e, "alice@example.com"),
        _ => panic!("a taken email is refused"),
    }
}

#[test]
fn test_create_user_empty_email() {
    assert!(matches!(create_handler().create(None, create_cmd("", "Alice")), Err(IdentityError::InvalidInput(_))));
}

#[test]
fn create_user_hashing_failure_is_invalid_input() {
    let r = CreateUserHandler::<(), Argon2PasswordHasher, MockIdGenerator>::register(
        None,
        Err(PasswordError::HashFailed("boom".into())),
        UserID(1),
        create_cmd("a@b.c", "A"),
    );
    match r {
        Err(IdentityError::InvalidInput(m)) => assert_eq!(m, "hash failed: boom"),
        _ => panic!("a failed hash is reported"),
    }
}

fn auth_handler() -> AuthenticateUserHandler<(), Argon2PasswordHasher> {
    AuthenticateUserHandler::new(Arc::new(()), Arc::new(Argon2PasswordHasher))
}

fn stored_alice() -> User {
    create_handler().create(None, create_cmd("alice@example.com", "Alice")).unwrap()
}

#[test]
fn test_authenticate_success() {
    let user = stored_alice();
    let p = auth_handler()
        .authenticate(Some(user.clone()), AuthenticateUserCommand { email: "alice@example.com".into(), password: "secret123".into() })
        .unwrap();
    assert_eq!(p.user_id, user.id);
}

#[test]
fn test_authenticate_wrong_password() {
    let r = auth_handler().authenticate(Some(stored_alice()), AuthenticateUserCommand { email: "alice@example.com".into(), password: "wrong".into() });
    assert!(matches!(r, Err(IdentityError::InvalidCredentials)));
}

#[test]
fn test_authenticate_unknown_email() {
    let r = auth_handler().authenticate(None, AuthenticateUserCommand { email: "bob@example.com".into(), password: "secret123".into() });
    assert!(matches!(r, Err(IdentityError::InvalidCredentials)));
}

#[test]
fn authenticate_unreadable_hash_is_invalid_input() {
    let user = User::new(UserID(1), "a@b.c".into(), "not_a_valid_hash".into(), "A".into()).unwrap();
    let r = auth_handler().authenticate(Some(user), AuthenticateUserCommand { email: "a@b.c".into(), password: "x".into() });
    match r {
        Err(IdentityError::InvalidInput(m)) => assert!(m.starts_with("invalid hash format: ")),
        _ => panic!("an unreadable stored hash is reported"),
    }
    assert_eq!(IdentityError::InvalidCredentials.message(), "invalid credentials");
}

#[test]
fn repository_error_message_names_the_backend_failure() {
    let e = IdentityError::Repository(RepositoryError::Storage("disk full".into()));
    assert_eq!(e.message(), "repository error: storage error: disk full");
}
