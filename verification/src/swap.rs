use vstd::prelude::*;

use crate::amount::Amount;
use crate::network::AssetId;
use crate::network::NetworkId;
use crate::protocol::Protocol;

verus! {

/// A cross-chain swap action: exchange `amount` of the asset `give` for
/// the asset `want` on the target network.
#[derive(Clone, Copy, Debug, PartialEq, Eq, Structural)]
pub struct Swap {
    pub give: AssetId,
    pub want: AssetId,
    pub amount: Amount,
}

/// The error of a swap asked of a network that does not implement it.
#[derive(Clone, Copy, Debug, PartialEq, Eq, Structural)]
pub enum SwapError {
    UnsupportedNetwork,
}

/// The opcode opening a swap call on Picasso.
pub const SWAP_OPCODE: u8 = 1;

/// The wire code of an asset in Picasso's native call format.
pub open spec fn asset_code(asset: AssetId) -> u8 {
    match asset {
        AssetId::Pica => 1u8,
        AssetId::Eth => 2u8,
        AssetId::Usdt => 3u8,
        AssetId::Usdc => 4u8,
    }
}

/// One big-endian byte of a 128-bit quantity: the bits `sh + 7 .. sh`.
pub open spec fn be_byte(value: u128, sh: u128) -> u8 {
    ((value >> sh) & 0xff) as u8
}

/// Picasso's native encoding of an amount: a kind byte, then for an
/// absolute amount the quantity in sixteen big-endian bytes, and for a
/// ratio amount the percentage in one byte.
pub open spec fn amount_bytes(amount: Amount) -> Seq<u8> {
    match amount {
        Amount::Absolute(value) => seq![
            0u8,
            be_byte(value, 120),
            be_byte(value, 112),
            be_byte(value, 104),
            be_byte(value, 96),
            be_byte(value, 88),
            be_byte(value, 80),
            be_byte(value, 72),
            be_byte(value, 64),
            be_byte(value, 56),
            be_byte(value, 48),
            be_byte(value, 40),
            be_byte(value, 32),
            be_byte(value, 24),
            be_byte(value, 16),
            be_byte(value, 8),
            be_byte(value, 0),
        ],
        Amount::Ratio(percent) => seq![1u8, percent],
    }
}

/// Picasso's native call format for a swap: the swap opcode, the codes
/// of the two assets, then the amount.
pub open spec fn swap_picasso_encoding(swap: Swap) -> Seq<u8> {
    seq![SWAP_OPCODE, asset_code(swap.give), asset_code(swap.want)] + amount_bytes(swap.amount)
}

/// The wire code of an asset, as `asset_code` gives it.
fn asset_code_of(asset: AssetId) -> (r: u8)
    ensures
        r == asset_code(asset),
{
    match asset {
        AssetId::Pica => 1,
        AssetId::Eth => 2,
        AssetId::Usdt => 3,
        AssetId::Usdc => 4,
    }
}

/// Appends the native encoding of `amount` to `out`.
fn push_amount_bytes(out: &mut Vec<u8>, amount: Amount)
    ensures
        final(out)@ == old(out)@ + amount_bytes(amount),
{
    match amount {
        Amount::Absolute(value) => {
            out.push(0);
            out.push(((value >> 120) & 0xff) as u8);
            out.push(((value >> 112) & 0xff) as u8);
            out.push(((value >> 104) & 0xff) as u8);
            out.push(((value >> 96) & 0xff) as u8);
            out.push(((value >> 88) & 0xff) as u8);
            out.push(((value >> 80) & 0xff) as u8);
            out.push(((value >> 72) & 0xff) as u8);
            out.push(((value >> 64) & 0xff) as u8);
            out.push(((value >> 56) & 0xff) as u8);
            out.push(((value >> 48) & 0xff) as u8);
            out.push(((value >> 40) & 0xff) as u8);
            out.push(((value >> 32) & 0xff) as u8);
            out.push(((value >> 24) & 0xff) as u8);
            out.push(((value >> 16) & 0xff) as u8);
            out.push(((value >> 8) & 0xff) as u8);
            out.push(((value >> 0) & 0xff) as u8);
            proof {
                assert(out@ =~= old(out)@ + amount_bytes(amount));
            }
        },
        Amount::Ratio(percent) => {
            out.push(1);
            out.push(percent);
            proof {
                assert(out@ =~= old(out)@ + amount_bytes(amount));
            }
        },
    }
}

impl Protocol for Swap {
    type Error = SwapError;

    /// A swap is implemented on Picasso, in its native call format, and
    /// on no other network.
    open spec fn spec_serialize(&self, network: NetworkId) -> Result<Seq<u8>, SwapError> {
        match network {
            NetworkId::Picasso => Ok(swap_picasso_encoding(*self)),
            NetworkId::Ethereum => Err(SwapError::UnsupportedNetwork),
        }
    }

    fn serialize(&self, network: NetworkId) -> (r: Result<Vec<u8>, SwapError>) {
        match network {
            NetworkId::Picasso => {
                let mut out: Vec<u8> = Vec::new();
                out.push(SWAP_OPCODE);
                out.push(asset_code_of(self.give));
                out.push(asset_code_of(self.want));
                push_amount_bytes(&mut out, self.amount);
                proof {
                    assert(out@ =~= swap_picasso_encoding(*self));
                }
                Ok(out)
            },
            NetworkId::Ethereum => Err(SwapError::UnsupportedNetwork),
        }
    }
}

} // verus!
