//! Client-side data access for the Phira game service: request paths and
//! headers, response classification, paginated list queries and a typed
//! object cache. The network itself is driven by the caller.

pub mod cache;
pub mod client;
pub mod error;
pub mod json;
pub mod query;
pub mod response;
pub mod session;
pub mod text;
pub mod transport;

pub use cache::ObjectCache;
pub use client::Client;
pub use error::ClientError;
pub use query::QueryBuilder;
pub use response::{failure_message, is_success, recv_raw};
pub use session::{register_body, LoginParams, Tokens};
pub use text::{decimal, signed_decimal};
pub use transport::{build_headers, set_access_token_sync, Headers};
