//! What a session with the transport is opened with.

use vstd::prelude::*;
use vstd::string::StringExecFns;

verus! {

/// The properties of a client session with the router at `locator`.
pub open spec fn properties_of(locator: Seq<char>) -> Seq<char> {
    "mode=client;peer="@ + locator
}

/// The properties with which a session is opened as a client of the router
/// at `locator`.
pub fn client_properties(locator: &str) -> (properties: String)
    ensures
        properties@ == properties_of(locator@),
{
    String::from_str("mode=client;peer=").concat(locator)
}

} // verus!
