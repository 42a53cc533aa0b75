use vstd::prelude::*;

use crate::errors::ServiceError;

verus! {

/// Whether the validator crate's email grammar accepts `s`. That check
/// (local part, domain, length limits) is a pure function of the string;
/// this name stands for its verdict.
pub uninterp spec fn is_email(s: Seq<char>) -> bool;

/// Relies on validator's `ValidateEmail::validate_email` for `&str`: a
/// syntactic check of the address, depending on the characters alone.
#[verifier::external_body]
fn email_is_valid(s: &str) -> (r: bool)
    ensures
        r == is_email(s@),
{
    validator::ValidateEmail::validate_email(&s)
}

/// The shape every registration and login body must have: a syntactically
/// valid email address and a password of at least eight characters.
pub open spec fn credentials_valid(email: Seq<char>, password: Seq<char>) -> bool {
    is_email(email) && password.len() >= 8
}

/// Checks a registration or login body, reporting the failing fields.
pub fn validate_credentials(email: &str, password: &str) -> (r: Option<ServiceError>)
    ensures
        r is None <==> credentials_valid(email@, password@),
        r matches Some(e) ==> e == (ServiceError::Validation {
            email_invalid: !is_email(email@),
            password_too_short: password@.len() < 8,
        }),
{
    let email_ok = email_is_valid(email);
    let password_ok = password.unicode_len() >= 8;
    if email_ok && password_ok {
        None
    } else {
        Some(
            ServiceError::Validation {
                email_invalid: !email_ok,
                password_too_short: !password_ok,
            },
        )
    }
}

} // verus!
