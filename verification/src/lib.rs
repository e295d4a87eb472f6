//! Typed bindings for ChilloutVR's HTTP query API and its tagged real-time
//! messaging protocol.
//!
//! The crate holds the parts that decide something: which endpoint a query
//! resolves to, what a response envelope unwraps to, and which integer tag
//! travels with a real-time message. Transport and serialisation are left to
//! the caller.

pub mod model;
pub mod query;
pub mod unwrapping;
pub mod ws;

pub use query::friends::{FriendList, FriendRequests};
pub use query::instances::Instance;
pub use query::{NoAuthentication, Queryable, API_V1_HTTP_URL, API_V1_WS_URL};
pub use unwrapping::{CvrApiUnwrapping, MissingPayload, Response};
pub use ws::{
    Inbound, MalformedPayload, Online, RequestKind, RequestType, RequestWrapper, Requestable,
};
