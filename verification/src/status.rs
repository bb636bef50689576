use vstd::prelude::*;

verus! {

/// An HTTP status code of the 2xx class, as `StatusCode::is_success` of the `http` crate
/// defines it.
pub open spec fn is_success(code: u16) -> bool {
    200 <= code < 300
}

/// Whether an HTTP status code reports success.
pub fn is_success_status(code: u16) -> (b: bool)
    ensures
        b == is_success(code),
{
    200 <= code && code < 300
}

} // verus!
