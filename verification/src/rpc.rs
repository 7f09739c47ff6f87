//! The module that overrides part of the node's `eth` namespace.

use vstd::prelude::*;

verus! {

/// Holds the node's own API for the overriding endpoints to fall back on.
#[derive(Debug)]
pub struct EthApiExt<Eth> {
    eth_api: Eth,
}

impl<E> EthApiExt<E> {
    /// The API that the module was made with.
    pub closed spec fn inner(&self) -> E {
        self.eth_api
    }

    /// Create a new `EthApiExt` module.
    pub fn new(eth_api: E) -> (module: Self)
        ensures
            module.inner() == eth_api,
    {
        Self { eth_api }
    }

    /// The API that the module was made with.
    pub fn eth_api(&self) -> (eth_api: &E)
        ensures
            *eth_api == self.inner(),
    {
        &self.eth_api
    }
}

} // verus!
