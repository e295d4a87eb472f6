//! Data about queries, which can be used with the HTTP client of your choice.
//!
//! A query is a plain value. It says where its answer is to be fetched and
//! what type that answer has; fetching it is the caller's business.

use vstd::prelude::*;
use vstd::string::StringExecFns;

pub mod friends;
pub mod instances;

verus! {

/// The base path under which the HTTP API's endpoints live.
pub const API_V1_HTTP_URL: &'static str = "https://api.abinteractive.net/v1";

/// Where the real-time connection is opened.
pub const API_V1_WS_URL: &'static str = "https://api.abinteractive.net/v1/users/ws";

/// The API state of a caller that has no credentials.
///
/// Even unauthenticated requests to the HTTP API should take rate limits into
/// account. So every query is resolved against a state, and this one, which
/// holds nothing, is asked for where `()` could have done.
#[derive(Debug, Clone, Copy, PartialEq, Eq, Hash, Default, Structural)]
pub struct NoAuthentication {}

/// The endpoint of a query whose path is `path`, under the base path `base`.
pub open spec fn spec_endpoint(base: Seq<char>, path: Seq<char>) -> Seq<char> {
    base + path
}

/// A query: a value that stands for one operation of the remote service.
///
/// `RequiredApiState` is the state that the caller has to hold to make the
/// query. It is only read here.
pub trait Queryable<RequiredApiState> {
    /// The type that the answer to this query is read into.
    type ResponseType;

    /// The path of this query below the base path. It begins with a slash and
    /// depends on nothing but the query's fields.
    spec fn path(&self) -> Seq<char>;

    /// The endpoint of this query under the base path `base`: the base path
    /// with the query's path behind it. Nothing is sent and nothing is kept.
    fn endpoint(&self, state: &RequiredApiState, base: &str) -> (url: String)
        ensures
            url@ == spec_endpoint(base@, self.path()),
    ;

    /// The endpoint of this query under [`API_V1_HTTP_URL`].
    fn url(&self, state: &RequiredApiState) -> (url: String)
        ensures
            url@ == spec_endpoint(API_V1_HTTP_URL@, self.path()),
    {
        self.endpoint(state, API_V1_HTTP_URL)
    }
}

/// `base` with `path` behind it.
pub(crate) fn join(base: &str, path: &str) -> (url: String)
    ensures
        url@ == spec_endpoint(base@, path@),
{
    let mut url = String::from_str(base);
    url.append(path);
    url
}

/// Two queries that are equal resolve to the same endpoint under the same
/// base path: the endpoint is a function of the query and the base path.
pub proof fn equal_queries_share_endpoint<S, Q: Queryable<S>>(a: Q, b: Q, base: Seq<char>)
    requires
        a == b,
    ensures
        spec_endpoint(base, a.path()) == spec_endpoint(base, b.path()),
{
}

} // verus!
