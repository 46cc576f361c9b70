use vstd::prelude::*;

verus! {

/// Why a call against the service failed.
pub enum ClientError {
    /// The server answered with a non-success status; the message is
    /// `request failed: ` followed by the server's detail or raw text.
    Request { message: String },
    /// A lookup by id found no entity.
    NotFound,
    /// A header value held a byte that headers cannot carry.
    InvalidHeader,
    /// A successful response did not have the expected shape.
    MalformedResponse,
}

/// The text of each kind of failure.
pub open spec fn error_text(e: ClientError) -> Seq<char> {
    match e {
        ClientError::Request { message } => message@,
        ClientError::NotFound => "entry not found"@,
        ClientError::InvalidHeader => "failed to parse header value"@,
        ClientError::MalformedResponse => "malformed response"@,
    }
}

impl ClientError {
    /// A human-readable description of the failure.
    pub fn message(&self) -> (r: String)
        ensures
            r@ == error_text(*self),
    {
        match self {
            ClientError::Request { message } => message.clone(),
            ClientError::NotFound => {
                proof {
                    reveal_strlit("entry not found");
                }
                String::from_str("entry not found")
            },
            ClientError::InvalidHeader => {
                proof {
                    reveal_strlit("failed to parse header value");
                }
                String::from_str("failed to parse header value")
            },
            ClientError::MalformedResponse => {
                proof {
                    reveal_strlit("malformed response");
                }
                String::from_str("malformed response")
            },
        }
    }
}

} // verus!
