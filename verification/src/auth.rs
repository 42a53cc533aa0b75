use vstd::prelude::*;

use crate::errors::ServiceError;
use crate::token::token_claims;
use crate::token::Claims;
use crate::token::JWT;

verus! {

/// The credential carried by an `Authorization` header: the rest of the
/// header after the literal prefix `"Bearer "`, or `None` where the
/// prefix is absent.
pub open spec fn bearer_token(header: Seq<char>) -> Option<Seq<char>> {
    if header.len() >= 7 && header.subrange(0, 7) == "Bearer "@ {
        Some(header.skip(7))
    } else {
        None
    }
}

/// Strips the `"Bearer "` prefix from an `Authorization` header value.
pub fn extract_bearer(header: &str) -> (r: Option<String>)
    ensures
        r is Some <==> bearer_token(header@) is Some,
        r matches Some(t) ==> bearer_token(header@) == Some(t@),
{
    let n = header.unicode_len();
    proof {
        reveal_strlit("Bearer ");
    }
    if n < 7 {
        return None;
    }
    if header.get_char(0) != 'B' || header.get_char(1) != 'e' || header.get_char(2) != 'a'
        || header.get_char(3) != 'r' || header.get_char(4) != 'e' || header.get_char(5) != 'r'
        || header.get_char(6) != ' ' {
        proof {
            if header@.subrange(0, 7) == "Bearer "@ {
                assert(header@[0] == header@.subrange(0, 7)[0]);
                assert(header@[1] == header@.subrange(0, 7)[1]);
                assert(header@[2] == header@.subrange(0, 7)[2]);
                assert(header@[3] == header@.subrange(0, 7)[3]);
                assert(header@[4] == header@.subrange(0, 7)[4]);
                assert(header@[5] == header@.subrange(0, 7)[5]);
                assert(header@[6] == header@.subrange(0, 7)[6]);
                assert(false);
            }
        }
        return None;
    }
    proof {
        assert(header@.subrange(0, 7) =~= "Bearer "@);
    }
    let token = header.substring_char(7, n);
    proof {
        assert(token@ =~= header@.skip(7));
    }
    Some(String::from_str(token))
}

/// Turns the optional `Authorization` header of a request into a verified
/// principal: the subject identifier asserted by a correctly signed,
/// unexpired bearer token. This is the single enforcement point for
/// authentication; a missing or prefix-less header and an invalid or
/// expired token are rejected with distinct messages.
pub fn authenticate(header: Option<&String>, secret: &str, now: u64) -> (r: Result<
    String,
    ServiceError,
>)
    ensures
        (header is None || bearer_token(header.unwrap()@) is None) ==> r == Err::<
            String,
            ServiceError,
        >(ServiceError::MissingAuthHeader),
        r is Ok <==> (header matches Some(h) && bearer_token(h@) matches Some(t) && token_claims(
            t,
            secret@,
        ) matches Some(c) && now < c.2),
        r matches Ok(sub) ==> sub@ == token_claims(
            bearer_token(header.unwrap()@).unwrap(),
            secret@,
        ).unwrap().0,
        (header matches Some(h) && bearer_token(h@) is Some && !(token_claims(
            bearer_token(h@).unwrap(),
            secret@,
        ) matches Some(c) && now < c.2)) ==> r == Err::<String, ServiceError>(
            ServiceError::InvalidToken,
        ),
{
    let header_value = match header {
        Some(h) => h,
        None => {
            return Err(ServiceError::MissingAuthHeader);
        },
    };
    let token = match extract_bearer(header_value.as_str()) {
        Some(t) => t,
        None => {
            return Err(ServiceError::MissingAuthHeader);
        },
    };
    match JWT::jwt_decode(token.as_str(), secret, now) {
        Ok(claims) => Ok(claims.sub),
        Err(e) => Err(e),
    }
}

} // verus!
