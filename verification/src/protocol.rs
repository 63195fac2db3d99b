use vstd::prelude::*;

use crate::network::NetworkId;

verus! {

/// The capability of a logical cross-chain action (a mint, a swap, ...):
/// encoding itself into the native call format of a target network, or
/// failing where that network is unsupported or the arguments cannot be
/// represented there.
pub trait Protocol: Sized {
    /// The protocol's own error: at least an unsupported-network case,
    /// and an encoding-failure case where encoding can fail.
    type Error;

    /// What serializing this action for `network` yields: the exact
    /// payload bytes, or the exact error. Serialization is a pure
    /// function of the action and the network, so the same inputs give
    /// the same bytes on every call.
    spec fn spec_serialize(&self, network: NetworkId) -> Result<Seq<u8>, Self::Error>;

    /// Encodes the action into `network`'s native call format.
    fn serialize(&self, network: NetworkId) -> (r: Result<Vec<u8>, Self::Error>)
        ensures
            (match self.spec_serialize(network) {
                Ok(bytes) => r matches Ok(payload) && payload@ == bytes,
                Err(e) => r matches Err(e2) && e2 == e,
            }),
    ;
}

} // verus!
