//! Queries about the friends of the account.

use crate::model::{AssetBase, AssetBaseWithCategories};
use crate::query::{join, NoAuthentication, Queryable};
use vstd::prelude::*;

verus! {

/// Asks for the friends of the account.
#[derive(Default, Debug, Clone)]
pub struct FriendList();

impl Queryable<NoAuthentication> for FriendList {
    type ResponseType = AssetBaseWithCategories;

    open spec fn path(&self) -> Seq<char> {
        "/friends"@
    }

    fn endpoint(&self, state: &NoAuthentication, base: &str) -> (url: String) {
        join(base, "/friends")
    }
}

/// Asks for the friend requests that the account has been sent.
#[derive(Default, Debug, Clone)]
pub struct FriendRequests();

impl Queryable<NoAuthentication> for FriendRequests {
    type ResponseType = AssetBase;

    open spec fn path(&self) -> Seq<char> {
        "/friends/requests"@
    }

    fn endpoint(&self, state: &NoAuthentication, base: &str) -> (url: String) {
        join(base, "/friends/requests")
    }
}

} // verus!
