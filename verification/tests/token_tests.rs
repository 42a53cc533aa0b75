use todo_service::ServiceError;
use todo_service::JWT;
use todo_service::TOKEN_LIFETIME_SECONDS;

const SECRET: &str = "test-signing-secret";

#[test]
fn issue_then_verify_yields_subject() {
    let now: u64 = 1_700_000_000;
    let token = JWT::jwt_encode("42".to_string(), SECRET, now).unwrap();
    let claims = JWT::jwt_decode(token.as_str(), SECRET, now + 10).unwrap();
    assert_eq!(claims.sub, "42");
    assert_eq!(claims.iat, now);
    assert_eq!(claims.exp, now + TOKEN_LIFETIME_SECONDS);
}

#[test]
fn verify_fails_at_and_after_expiry() {
    let now: u64 = 1_700_000_000;
    let token = JWT::jwt_encode("42".to_string(), SECRET, now).unwrap();
    let exp = now + TOKEN_LIFETIME_SECONDS;
    assert!(JWT::jwt_decode(token.as_str(), SECRET, exp - 1).is_ok());
    assert_eq!(JWT::jwt_decode(token.as_str(), SECRET, exp).unwrap_err(), ServiceError::InvalidToken);
    assert_eq!(
        JWT::jwt_decode(token.as_str(), SECRET, exp + 1000).unwrap_err(),
        ServiceError::InvalidToken,
    );
}

#[test]
fn tampered_token_fails() {
    let now: u64 = 1_700_000_000;
    let token = JWT::jwt_encode("42".to_string(), SECRET, now).unwrap();
    let mut chars: Vec<char> = token.chars().collect();
    let middle = chars.len() / 2;
    chars[middle] = if chars[middle] == 'x' { 'y' } else { 'x' };
    let tampered: String = chars.into_iter().collect();
    assert_eq!(
        JWT::jwt_decode(tampered.as_str(), SECRET, now + 10).unwrap_err(),
        ServiceError::InvalidToken,
    );
}

#[test]
fn wrong_secret_fails() {
    let now: u64 = 1_700_000_000;
    let token = JWT::jwt_encode("42".to_string(), SECRET, now).unwrap();
    assert_eq!(
        JWT::jwt_decode(token.as_str(), "another-secret", now + 10).unwrap_err(),
        ServiceError::InvalidToken,
    );
}

#[test]
fn garbage_token_fails() {
    assert_eq!(
        JWT::jwt_decode("definitely.not.ajwt", SECRET, 0).unwrap_err(),
        ServiceError::InvalidToken,
    );
}
