use vstd::prelude::*;

use crate::errors::ServiceError;

verus! {

/// The claims a bearer token asserts: a subject identifier and the
/// Unix timestamps at which the token was issued and expires.
#[derive(Debug)]
pub struct Claims {
    pub sub: String,
    pub iat: u64,
    pub exp: u64,
}

/// Tokens live exactly this many seconds from issuance.
pub const TOKEN_LIFETIME_SECONDS: u64 = 3600;

/// The compact serialization that signing these claims with this secret
/// produces. HMAC signing and the claim serialization are deterministic,
/// so the token is a function of the claims and the secret alone; this
/// name stands for it.
pub uninterp spec fn token_of(sub: Seq<char>, iat: u64, exp: u64, secret: Seq<char>) -> Seq<char>;

/// The claims `(sub, iat, exp)` that signature checking and claim parsing
/// recover from a token under a secret, or `None` where the token is
/// malformed, carries a different signature, or lacks one of the three
/// claims. No clock is involved, so this is a function of the token and
/// the secret alone; this name stands for it.
pub uninterp spec fn token_claims(token: Seq<char>, secret: Seq<char>) -> Option<
    (Seq<char>, u64, u64),
>;

/// Relies on jsonwebtoken's `encode` with the default HS256 header: the
/// token it builds serializes exactly these claims, and `decode` under the
/// same secret recovers them (the crate's documented round trip).
#[verifier::external_body]
fn encode_token(claims: &Claims, secret: &str) -> (r: Option<String>)
    ensures
        r matches Some(t) ==> t@ == token_of(claims.sub@, claims.iat, claims.exp, secret@),
        r matches Some(t) ==> token_claims(t@, secret@) == Some(
            (claims.sub@, claims.iat, claims.exp),
        ),
{
    let mut payload = serde_json::Map::new();
    payload.insert("sub".to_string(), serde_json::Value::String(claims.sub.clone()));
    payload.insert("iat".to_string(), serde_json::Value::from(claims.iat));
    payload.insert("exp".to_string(), serde_json::Value::from(claims.exp));
    let key = jsonwebtoken::EncodingKey::from_secret(secret.as_bytes());
    jsonwebtoken::encode(&jsonwebtoken::Header::default(), &serde_json::Value::Object(payload), &key).ok()
}

/// Relies on jsonwebtoken's `decode` with expiry, not-before and audience
/// checks switched off: what remains is HS256 signature verification and
/// claim parsing, which read no clock and depend on the token and the
/// secret alone.
#[verifier::external_body]
fn decode_token(token: &str, secret: &str) -> (r: Option<Claims>)
    ensures
        r is Some <==> token_claims(token@, secret@) is Some,
        r matches Some(c) ==> token_claims(token@, secret@) == Some((c.sub@, c.iat, c.exp)),
{
    let mut validation = jsonwebtoken::Validation::new(jsonwebtoken::Algorithm::HS256);
    validation.validate_exp = false;
    validation.validate_aud = false;
    validation.required_spec_claims = std::collections::HashSet::new();
    let key = jsonwebtoken::DecodingKey::from_secret(secret.as_bytes());
    let data = jsonwebtoken::decode::<serde_json::Value>(token, &key, &validation).ok()?;
    let sub = data.claims.get("sub")?.as_str()?.to_string();
    let iat = data.claims.get("iat")?.as_u64()?;
    let exp = data.claims.get("exp")?.as_u64()?;
    Some(Claims { sub, iat, exp })
}

/// Issues and verifies signed, time-bound identity tokens.
pub struct JWT {}

impl JWT {
    /// Builds a signed token asserting `user_id`, issued at `now` and
    /// expiring one hour later.
    pub fn jwt_encode(user_id: String, secret: &str, now: u64) -> (r: Result<String, ServiceError>)
        requires
            now + TOKEN_LIFETIME_SECONDS <= u64::MAX,
        ensures
            r matches Ok(t) ==> t@ == token_of(
                user_id@,
                now,
                (now + TOKEN_LIFETIME_SECONDS) as u64,
                secret@,
            ),
            r matches Ok(t) ==> token_claims(t@, secret@) == Some(
                (user_id@, now, (now + TOKEN_LIFETIME_SECONDS) as u64),
            ),
            r matches Err(e) ==> e == ServiceError::Internal,
    {
        let claims = Claims { sub: user_id, iat: now, exp: now + TOKEN_LIFETIME_SECONDS };
        match encode_token(&claims, secret) {
            Some(t) => Ok(t),
            None => Err(ServiceError::Internal),
        }
    }

    /// Checks the token's signature and that `now` lies strictly before
    /// its expiry; returns the claims it asserts.
    pub fn jwt_decode(token: &str, secret: &str, now: u64) -> (r: Result<Claims, ServiceError>)
        ensures
            r is Ok <==> (token_claims(token@, secret@) matches Some(c) && now < c.2),
            r matches Ok(c) ==> token_claims(token@, secret@) == Some((c.sub@, c.iat, c.exp)),
            r matches Err(e) ==> e == ServiceError::InvalidToken,
    {
        match decode_token(token, secret) {
            Some(c) => {
                if now < c.exp {
                    Ok(c)
                } else {
                    Err(ServiceError::InvalidToken)
                }
            },
            None => Err(ServiceError::InvalidToken),
        }
    }
}

} // verus!
