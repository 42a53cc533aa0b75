use todo_service::authenticate;
use todo_service::extract_bearer;
use todo_service::EnvironmentVariables;
use todo_service::ServiceError;
use todo_service::JWT;

const SECRET: &str = "test-signing-secret";

#[test]
fn missing_header_is_rejected() {
    let r = authenticate(None, SECRET, 0);
    let e = r.unwrap_err();
    assert_eq!(e, ServiceError::MissingAuthHeader);
    assert_eq!(e.message(), "missing or invalid authorization header");
    assert_eq!(e.status_code(), 401);
}

#[test]
fn header_without_bearer_prefix_is_rejected() {
    let header = "Basic dXNlcjpwYXNz".to_string();
    let r = authenticate(Some(&header), SECRET, 0);
    assert_eq!(r.unwrap_err(), ServiceError::MissingAuthHeader);
    let lowercase = "bearer abc".to_string();
    let r = authenticate(Some(&lowercase), SECRET, 0);
    assert_eq!(r.unwrap_err(), ServiceError::MissingAuthHeader);
}

#[test]
fn invalid_token_is_rejected_distinctly() {
    let header = "Bearer notatoken".to_string();
    let r = authenticate(Some(&header), SECRET, 0);
    let e = r.unwrap_err();
    assert_eq!(e, ServiceError::InvalidToken);
    assert_eq!(e.message(), "invalid JWT token");
    assert_eq!(e.status_code(), 401);
}

#[test]
fn valid_bearer_token_yields_subject() {
    let now: u64 = 1_700_000_000;
    let token = JWT::jwt_encode("17".to_string(), SECRET, now).unwrap();
    let header = format!("Bearer {}", token);
    let subject = authenticate(Some(&header), SECRET, now + 5).unwrap();
    assert_eq!(subject, "17");
}

#[test]
fn expired_bearer_token_is_rejected() {
    let now: u64 = 1_700_000_000;
    let token = JWT::jwt_encode("17".to_string(), SECRET, now).unwrap();
    let header = format!("Bearer {}", token);
    let r = authenticate(Some(&header), SECRET, now + 3600);
    assert_eq!(r.unwrap_err(), ServiceError::InvalidToken);
}

#[test]
fn extract_bearer_strips_exact_prefix() {
    assert_eq!(extract_bearer("Bearer abc.def.ghi"), Some("abc.def.ghi".to_string()));
    assert_eq!(extract_bearer("Bearer "), Some(String::new()));
    assert_eq!(extract_bearer("Bearer"), None);
    assert_eq!(extract_bearer(""), None);
    assert_eq!(extract_bearer("BEARER abc"), None);
}

#[test]
fn environment_variables_keep_their_fields() {
    let env = EnvironmentVariables::new(
        "http".to_string(),
        "127.0.0.1".to_string(),
        "8080".to_string(),
        "postgres://localhost/todos".to_string(),
        SECRET.to_string(),
    );
    assert_eq!(env.web_server_protocol, "http");
    assert_eq!(env.web_server_host, "127.0.0.1");
    assert_eq!(env.web_server_port, "8080");
    assert_eq!(env.database_url, "postgres://localhost/todos");
    assert_eq!(env.jwt_secret, SECRET);
}
