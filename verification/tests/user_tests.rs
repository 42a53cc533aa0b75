use todo_service::login_user;
use todo_service::register_user;
use todo_service::u64_to_dec;
use todo_service::validation_messages;
use todo_service::LoginUser;
use todo_service::RegisterUser;
use todo_service::ServiceError;
use todo_service::UserStore;
use todo_service::JWT;

const SECRET: &str = "test-signing-secret";

fn register_dto(email: &str, password: &str) -> RegisterUser {
    RegisterUser { email: email.to_string(), password: password.to_string() }
}

fn login_dto(email: &str, password: &str) -> LoginUser {
    LoginUser { email: email.to_string(), password: password.to_string() }
}

#[test]
fn register_returns_public_projection() {
    let mut store = UserStore::new();
    let s = register_user(&mut store, register_dto("a@x.com", "password1"), 5).unwrap();
    assert_eq!(s.id, 0);
    assert_eq!(s.email, "a@x.com");
    assert_eq!(s.created_at, 5);
    assert_eq!(s.updated_at, 5);
    assert_eq!(store.users.len(), 1);
    assert_ne!(store.users[0].password, "password1");
}

#[test]
fn register_rejects_invalid_email() {
    let mut store = UserStore::new();
    let e = register_user(&mut store, register_dto("not-an-email", "password1"), 5).unwrap_err();
    assert_eq!(e, ServiceError::Validation { email_invalid: true, password_too_short: false });
    assert_eq!(e.status_code(), 400);
    assert_eq!(validation_messages(true, false), vec!["invalid email address".to_string()]);
    assert_eq!(store.users.len(), 0);
}

#[test]
fn register_rejects_short_password() {
    let mut store = UserStore::new();
    let e = register_user(&mut store, register_dto("a@x.com", "short"), 5).unwrap_err();
    assert_eq!(e, ServiceError::Validation { email_invalid: false, password_too_short: true });
    assert_eq!(
        validation_messages(false, true),
        vec!["password must have at least 8 characters".to_string()],
    );
    assert_eq!(store.users.len(), 0);
}

#[test]
fn duplicate_email_is_a_conflict_not_a_second_row() {
    let mut store = UserStore::new();
    register_user(&mut store, register_dto("a@x.com", "password1"), 5).unwrap();
    let e = register_user(&mut store, register_dto("a@x.com", "password2"), 6).unwrap_err();
    assert_eq!(e, ServiceError::EmailTaken);
    assert_eq!(e.message(), "email already exist");
    assert_eq!(e.status_code(), 409);
    assert_eq!(store.users.len(), 1);
}

#[test]
fn registered_user_can_log_in() {
    let mut store = UserStore::new();
    let registered = register_user(&mut store, register_dto("a@x.com", "password1"), 5).unwrap();
    let now: u64 = 1_700_000_000;
    let s = login_user(&store, login_dto("a@x.com", "password1"), SECRET, now).unwrap();
    assert_eq!(s.id, registered.id);
    assert_eq!(s.email, "a@x.com");
    let claims = JWT::jwt_decode(s.token.as_str(), SECRET, now + 1).unwrap();
    assert_eq!(claims.sub, u64_to_dec(registered.id));
    assert_eq!(claims.iat, now);
    assert_eq!(claims.exp, now + 3600);
}

#[test]
fn wrong_password_and_unknown_email_are_indistinguishable() {
    let mut store = UserStore::new();
    register_user(&mut store, register_dto("a@x.com", "password1"), 5).unwrap();
    let wrong_password =
        login_user(&store, login_dto("a@x.com", "password2"), SECRET, 10).unwrap_err();
    let unknown_email =
        login_user(&store, login_dto("b@x.com", "password1"), SECRET, 10).unwrap_err();
    assert_eq!(wrong_password, unknown_email);
    assert_eq!(wrong_password.message(), unknown_email.message());
    assert_eq!(wrong_password.message(), "invalid credentials");
    assert_eq!(wrong_password.status_code(), 401);
    assert_eq!(unknown_email.status_code(), 401);
}

#[test]
fn login_validates_input_shape() {
    let store = UserStore::new();
    let e = login_user(&store, login_dto("nope", "pw"), SECRET, 10).unwrap_err();
    assert_eq!(e, ServiceError::Validation { email_invalid: true, password_too_short: true });
    assert_eq!(
        validation_messages(true, true),
        vec![
            "invalid email address".to_string(),
            "password must have at least 8 characters".to_string(),
        ],
    );
}

#[test]
fn register_assigns_fresh_ids() {
    let mut store = UserStore::new();
    let first = register_user(&mut store, register_dto("a@x.com", "password1"), 5).unwrap();
    let second = register_user(&mut store, register_dto("b@x.com", "password1"), 6).unwrap();
    assert_eq!(first.id, 0);
    assert_eq!(second.id, 1);
}
