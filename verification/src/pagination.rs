use vstd::prelude::*;

verus! {

/// The page size used when a request supplies no usable `limit`.
pub fn limit_default() -> (r: i64)
    ensures
        r == 10,
{
    10
}

/// The offset used when a request supplies no usable `offset`.
pub fn offset_default() -> (r: i64)
    ensures
        r == 0,
{
    0
}

/// The paging parameters of a listing request as the client sent them.
#[derive(Clone, Copy, Debug, PartialEq, Eq, Structural)]
pub struct GetTodosQueryParam {
    pub limit: i64,
    pub offset: i64,
}

/// A request's parameters are usable when the limit is at least the
/// default page size and the offset is not negative.
pub open spec fn params_valid(q: GetTodosQueryParam) -> bool {
    q.limit >= 10 && q.offset >= 0
}

/// The limit actually used: unusable parameters fall back to the
/// defaults instead of failing the request.
pub open spec fn effective_limit(q: GetTodosQueryParam) -> i64 {
    if params_valid(q) {
        q.limit
    } else {
        10
    }
}

/// The offset actually used; see `effective_limit`.
pub open spec fn effective_offset(q: GetTodosQueryParam) -> i64 {
    if params_valid(q) {
        q.offset
    } else {
        0
    }
}

/// Applies the fallback rule to a request's paging parameters.
pub fn effective_params(q: &GetTodosQueryParam) -> (r: (i64, i64))
    ensures
        r.0 == effective_limit(*q),
        r.1 == effective_offset(*q),
        r.0 >= 10,
        r.1 >= 0,
{
    if q.limit >= 10 && q.offset >= 0 {
        (q.limit, q.offset)
    } else {
        (limit_default(), offset_default())
    }
}

} // verus!
