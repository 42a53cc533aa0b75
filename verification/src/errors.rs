use vstd::prelude::*;

use crate::ident::dec_digits;
use crate::ident::u64_to_dec;

verus! {

/// Every way a service call can fail. Each variant maps to exactly one
/// client-visible message and one status code, so the transport layer
/// only renders what is decided here.
#[derive(Clone, Copy, Debug, PartialEq, Eq)]
pub enum ServiceError {
    /// Malformed registration or login input, with the failing fields.
    Validation { email_invalid: bool, password_too_short: bool },
    /// No `Authorization` header, or one without the bearer prefix.
    MissingAuthHeader,
    /// A bearer token that does not verify or has expired.
    InvalidToken,
    /// Unknown email or wrong password: deliberately one shared variant,
    /// so the two causes cannot be told apart.
    InvalidCredentials,
    /// No todo with this id is owned by the caller.
    TodoNotFound { id: u64 },
    /// The caller owns no todos at all.
    NoTodos,
    /// The requested offset lies at or past the end of the collection.
    OffsetBeyondEnd,
    /// Registration with an email that is already stored.
    EmailTaken,
    /// Hashing, signing or storage failure unrelated to the input.
    Internal,
}

pub open spec fn message_spec(e: ServiceError) -> Seq<char> {
    match e {
        ServiceError::Validation { .. } => "validation error"@,
        ServiceError::MissingAuthHeader => "missing or invalid authorization header"@,
        ServiceError::InvalidToken => "invalid JWT token"@,
        ServiceError::InvalidCredentials => "invalid credentials"@,
        ServiceError::TodoNotFound { id } => "todo with ID: "@ + dec_digits(id) + " not found"@,
        ServiceError::NoTodos => "todos does not exist"@,
        ServiceError::OffsetBeyondEnd => "exceeds the total page"@,
        ServiceError::EmailTaken => "email already exist"@,
        ServiceError::Internal => "internal server error"@,
    }
}

pub open spec fn status_code_spec(e: ServiceError) -> u16 {
    match e {
        ServiceError::Validation { .. } => 400,
        ServiceError::MissingAuthHeader => 401,
        ServiceError::InvalidToken => 401,
        ServiceError::InvalidCredentials => 401,
        ServiceError::TodoNotFound { .. } => 404,
        ServiceError::NoTodos => 404,
        ServiceError::OffsetBeyondEnd => 400,
        ServiceError::EmailTaken => 409,
        ServiceError::Internal => 500,
    }
}

impl ServiceError {
    /// The client-visible message for this error.
    pub fn message(&self) -> (r: String)
        ensures
            r@ == message_spec(*self),
    {
        match self {
            ServiceError::Validation { .. } => String::from_str("validation error"),
            ServiceError::MissingAuthHeader => String::from_str(
                "missing or invalid authorization header",
            ),
            ServiceError::InvalidToken => String::from_str("invalid JWT token"),
            ServiceError::InvalidCredentials => String::from_str("invalid credentials"),
            ServiceError::TodoNotFound { id } => {
                let r = String::from_str("todo with ID: ").concat(
                    u64_to_dec(*id).as_str(),
                ).concat(" not found");
                assert(r@ =~= message_spec(*self));
                r
            },
            ServiceError::NoTodos => String::from_str("todos does not exist"),
            ServiceError::OffsetBeyondEnd => String::from_str("exceeds the total page"),
            ServiceError::EmailTaken => String::from_str("email already exist"),
            ServiceError::Internal => String::from_str("internal server error"),
        }
    }

    /// The HTTP-style status code echoed in every response body.
    pub fn status_code(&self) -> (r: u16)
        ensures
            r == status_code_spec(*self),
    {
        match self {
            ServiceError::Validation { .. } => 400,
            ServiceError::MissingAuthHeader => 401,
            ServiceError::InvalidToken => 401,
            ServiceError::InvalidCredentials => 401,
            ServiceError::TodoNotFound { .. } => 404,
            ServiceError::NoTodos => 404,
            ServiceError::OffsetBeyondEnd => 400,
            ServiceError::EmailTaken => 409,
            ServiceError::Internal => 500,
        }
    }
}

/// The field-level detail that accompanies a `Validation` error,
/// one message per failing field.
pub fn validation_messages(email_invalid: bool, password_too_short: bool) -> (r: Vec<String>)
    ensures
        email_invalid && password_too_short ==> r@.len() == 2 && r@[0]@
            == "invalid email address"@ && r@[1]@ == "password must have at least 8 characters"@,
        email_invalid && !password_too_short ==> r@.len() == 1 && r@[0]@
            == "invalid email address"@,
        !email_invalid && password_too_short ==> r@.len() == 1 && r@[0]@
            == "password must have at least 8 characters"@,
        !email_invalid && !password_too_short ==> r@.len() == 0,
{
    let mut r: Vec<String> = Vec::new();
    if email_invalid {
        r.push(String::from_str("invalid email address"));
    }
    if password_too_short {
        r.push(String::from_str("password must have at least 8 characters"));
    }
    r
}

} // verus!
