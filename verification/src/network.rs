use vstd::prelude::*;

verus! {

/// An execution domain taking part in cross-chain programs. The set of
/// supported networks is closed and known at compile time.
#[derive(Clone, Copy, Debug, PartialEq, Eq, Structural)]
pub enum NetworkId {
    Picasso,
    Ethereum,
}

/// A canonical cross-chain identifier of a fungible asset, distinct from
/// any one network's native token representation.
#[derive(Clone, Copy, Debug, PartialEq, Eq, Structural)]
pub enum AssetId {
    Pica,
    Eth,
    Usdt,
    Usdc,
}

} // verus!
