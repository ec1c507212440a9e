//! Broker selection.

use vstd::prelude::*;

verus! {

/// Which broker to connect to.
#[derive(Clone, Debug)]
pub struct BrokerConfig {
    pub name: String,
}

} // verus!
