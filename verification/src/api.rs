//! The broker's API to name servers and to other brokers.
use vstd::prelude::*;

verus! {

/// Decides what the broker asks of name servers and of other brokers, and what the
/// answers mean. The transport carries out the invocations that it hands out.
#[derive(Debug, PartialEq, Eq)]
pub struct BrokerOuterAPI {
    pub name_server_address: Option<String>,
}

impl BrokerOuterAPI {
    /// An API without a fixed name server.
    pub fn new() -> (r: BrokerOuterAPI)
        ensures
            r.name_server_address is None,
    {
        BrokerOuterAPI { name_server_address: None }
    }
}

} // verus!
