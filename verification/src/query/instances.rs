//! Queries about instances.

use crate::model::ExtendedInstanceDetails;
use crate::query::{join, NoAuthentication, Queryable};
use vstd::prelude::*;
use vstd::string::StringExecFns;

verus! {

/// Asks for the details of one instance.
#[derive(Debug, Clone, PartialEq, Eq, Hash)]
pub struct Instance {
    /// The instance to ask about. It is put into the endpoint as it is.
    pub instance_id: String,
}

impl Queryable<NoAuthentication> for Instance {
    type ResponseType = ExtendedInstanceDetails;

    open spec fn path(&self) -> Seq<char> {
        "/instances/"@ + self.instance_id@
    }

    fn endpoint(&self, state: &NoAuthentication, base: &str) -> (url: String) {
        let mut url = join(base, "/instances/");
        url.append(self.instance_id.as_str());
        assert(url@ =~= base@ + ("/instances/"@ + self.instance_id@));
        url
    }
}

/// Two instance queries with the same identifier resolve to the same
/// endpoint under the same base path.
pub proof fn same_identifier_same_endpoint(a: Instance, b: Instance, base: Seq<char>)
    requires
        a.instance_id@ == b.instance_id@,
    ensures
        crate::query::spec_endpoint(base, a.path()) == crate::query::spec_endpoint(
            base,
            b.path(),
        ),
{
}

} // verus!
