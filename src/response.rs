use vstd::prelude::*;

use crate::error::ClientError;
use crate::json::{json_str_field, string_field};

verus! {

/// An HTTP status in the success class (2xx).
pub open spec fn success_status(status: u16) -> bool {
    200 <= status < 300
}

/// The message of a failed request whose body is `text`: the string member
/// `detail` when the body is such a JSON object, else the body itself.
pub open spec fn failure_text(text: Seq<char>) -> Seq<char> {
    "request failed: "@ + match json_str_field(text, "detail"@) {
        Some(detail) => detail,
        None => text,
    }
}

/// Whether `status` denotes success, as `StatusCode::is_success` does.
pub fn is_success(status: u16) -> (r: bool)
    ensures
        r == success_status(status),
{
    200 <= status && status < 300
}

/// Normalizes the body of a failed response into an error message.
pub fn failure_message(text: &str) -> (r: String)
    ensures
        r@ == failure_text(text@),
{
    proof {
        reveal_strlit("detail");
        reveal_strlit("request failed: ");
    }
    let prefix = String::from_str("request failed: ");
    match string_field(text, "detail") {
        Some(detail) => prefix.concat(detail.as_str()),
        None => prefix.concat(text),
    }
}

/// Classifies a response by its status; a failure carries the normalized
/// message built from `body`.
pub fn recv_raw(status: u16, body: &str) -> (r: Result<(), ClientError>)
    ensures
        success_status(status) <==> r is Ok,
        r matches Err(e) ==> (e matches ClientError::Request { message } && message@ == failure_text(body@)),
{
    if is_success(status) {
        Ok(())
    } else {
        Err(ClientError::Request { message: failure_message(body) })
    }
}

} // verus!
