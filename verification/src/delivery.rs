//! Delivery outcome rules: a webhook POST succeeded exactly when the server
//! answered with a 2xx status; a transport error (no status at all) is a
//! failure like any other.

use vstd::prelude::*;

verus! {

/// A status code in the 2xx success class.
pub open spec fn spec_is_success_status(code: u16) -> bool {
    200 <= code < 300
}

/// Whether an HTTP status code reports success.
pub fn is_success_status(code: u16) -> (r: bool)
    ensures
        r == spec_is_success_status(code),
{
    200 <= code && code < 300
}

/// Whether one delivery attempt succeeded: a status was received at all
/// (`None` is a transport error) and it lies in the 2xx class.
pub fn delivery_succeeded(status: Option<u16>) -> (r: bool)
    ensures
        r == match status {
            Option::Some(code) => spec_is_success_status(code),
            Option::None => false,
        },
{
    match status {
        Option::Some(code) => is_success_status(code),
        Option::None => false,
    }
}

} // verus!
