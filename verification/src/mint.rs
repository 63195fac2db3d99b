use vstd::prelude::*;

use crate::amount::Amount;
use crate::network::AssetId;
use crate::network::NetworkId;
use crate::program::Instruction;
use crate::program::Program;
use crate::program::ProgramBuilder;
use crate::protocol::Protocol;
use crate::transfer::Transfer;

verus! {

/// `ethabi::Function` carried opaquely through signatures.
#[verifier::external_type_specification]
#[verifier::external_body]
pub struct ExFunction(ethabi::Function);

/// `ethabi::Error` carried opaquely through signatures.
#[verifier::external_type_specification]
#[verifier::external_body]
pub struct ExEthabiError(ethabi::Error);

/// What `ethabi::Function::encode_input` yields for the Ethereum
/// `mint(address,string)` prototype: the ABI call encoding of the
/// recipient address and the ownable identifier, or nothing where the
/// arguments cannot be encoded. A pure function of the two arguments.
pub uninterp spec fn mint_input_encoding(to: Seq<u8>, ownable_id: Seq<char>) -> Option<Seq<u8>>;

/// What `ethabi::encode` yields for an `(address, bytes)` token pair:
/// the router envelope around an inner call. A pure function of the two
/// values.
pub uninterp spec fn address_bytes_encoding(contract: Seq<u8>, payload: Seq<u8>) -> Seq<u8>;

/// The address of the Ethereum router contract through which mint calls
/// are dispatched.
pub open spec fn router_address() -> Seq<u8> {
    seq![
        0xe7u8, 0xf1, 0x72, 0x5e, 0x77, 0x34, 0xce, 0x28, 0x8f, 0x83,
        0x67, 0xe1, 0xbb, 0x14, 0x3e, 0x90, 0xbb, 0x3f, 0x05, 0x12,
    ]
}

/// The router contract address, as `router_address` gives it.
fn router_contract() -> (r: [u8; 20])
    ensures
        r@ == router_address(),
{
    let r: [u8; 20] = [
        0xe7, 0xf1, 0x72, 0x5e, 0x77, 0x34, 0xce, 0x28, 0x8f, 0x83,
        0x67, 0xe1, 0xbb, 0x14, 0x3e, 0x90, 0xbb, 0x3f, 0x05, 0x12,
    ];
    proof {
        assert(r@ =~= router_address());
    }
    r
}

/// The error of a mint asked of a network that does not implement it,
/// or whose arguments its type system cannot represent.
#[derive(Clone, Copy, Debug, PartialEq, Eq, Structural)]
pub enum MintError {
    UnsupportedNetwork,
    EncodingFailed,
}

/// A cross-chain mint action: mint the ownable identified by
/// `ownable_id` to the address `to` on the target network.
#[derive(Clone, Debug, PartialEq, Eq)]
pub struct Mint {
    to: [u8; 20],
    ownable_id: String,
}

impl Mint {
    /// The recipient address.
    pub closed spec fn spec_to(self) -> Seq<u8> {
        self.to@
    }

    /// The ownable identifier.
    pub closed spec fn spec_ownable_id(self) -> Seq<char> {
        self.ownable_id@
    }

    /// Builds a mint of `ownable_id` to the address `to`.
    pub fn new(to: [u8; 20], ownable_id: String) -> (m: Mint)
        ensures
            m.spec_to() == to@,
            m.spec_ownable_id() == ownable_id@,
    {
        Mint { to, ownable_id }
    }

    /// Relies on `ethabi::Function` as plain data: the ABI prototype of
    /// the Ethereum `mint(address,string)` entry point, a payable
    /// function of a recipient address and an ownable identifier, with
    /// no outputs.
    #[verifier::external_body]
    #[allow(deprecated)]
    pub fn ethereum_prototype() -> ethabi::Function {
        ethabi::Function {
            name: "mint".to_owned(),
            inputs: vec![
                ethabi::Param { name: "to".into(), kind: ethabi::ParamType::Address, internal_type: None },
                ethabi::Param { name: "ownableId".into(), kind: ethabi::ParamType::String, internal_type: None },
            ],
            outputs: vec![],
            constant: None,
            state_mutability: ethabi::StateMutability::Payable,
        }
    }
}

/// Relies on `ethabi::Function::encode_input`, applied to the fixed
/// `mint(address,string)` prototype: the encoding is a pure function of
/// the two arguments, named `mint_input_encoding`, and fails only where
/// the arguments cannot be encoded.
#[verifier::external_body]
fn encode_mint_input(to: &[u8; 20], ownable_id: &String) -> (r: Result<Vec<u8>, ethabi::Error>)
    ensures
        r matches Ok(b) ==> mint_input_encoding(to@, ownable_id@) == Some(b@),
        r is Err ==> mint_input_encoding(to@, ownable_id@) is None,
{
    let address = ethereum_types::H160(*to);
    Mint::ethereum_prototype().encode_input(&[
        ethabi::Token::Address(address),
        ethabi::Token::String(ownable_id.clone()),
    ])
}

/// Relies on `ethabi::encode` on an `(address, bytes)` token pair: the
/// encoding is a pure function of the two values, named
/// `address_bytes_encoding`, and its head alone takes two 32-byte words.
#[verifier::external_body]
fn encode_address_bytes(contract: &[u8; 20], payload: &Vec<u8>) -> (r: Vec<u8>)
    ensures
        r@ == address_bytes_encoding(contract@, payload@),
        r@.len() >= 64,
{
    let address = ethereum_types::H160(*contract);
    ethabi::encode(&[ethabi::Token::Address(address), ethabi::Token::Bytes(payload.clone())])
}

impl Protocol for Mint {
    type Error = MintError;

    /// A mint is implemented on Ethereum, as the router envelope around
    /// the encoded mint call, and on no other network.
    open spec fn spec_serialize(&self, network: NetworkId) -> Result<Seq<u8>, MintError> {
        match network {
            NetworkId::Ethereum => match mint_input_encoding(self.spec_to(), self.spec_ownable_id()) {
                Some(payload) => Ok(address_bytes_encoding(router_address(), payload)),
                None => Err(MintError::EncodingFailed),
            },
            NetworkId::Picasso => Err(MintError::UnsupportedNetwork),
        }
    }

    fn serialize(&self, network: NetworkId) -> (r: Result<Vec<u8>, MintError>) {
        match network {
            NetworkId::Ethereum => match encode_mint_input(&self.to, &self.ownable_id) {
                Ok(inner) => {
                    let contract = router_contract();
                    Ok(encode_address_bytes(&contract, &inner))
                },
                Err(_) => Err(MintError::EncodingFailed),
            },
            NetworkId::Picasso => Err(MintError::UnsupportedNetwork),
        }
    }
}

/// The program the mint entry point dispatches: a parent program on
/// Picasso holding one spawn to Ethereum, whose child program holds the
/// single encoded mint call minting the fixed ownable to `owner`.
pub fn mint_program(owner: [u8; 20]) -> (r: Result<Program, MintError>)
    ensures
        r matches Ok(p) ==> {
            &&& p.tag matches Some(t) && t@ == "Mint_parent"@
            &&& p.network == NetworkId::Picasso
            &&& p.instructions@.len() == 1
            &&& p.instructions@[0] matches Instruction::Spawn { network, salt, transfer, program }
                && network == NetworkId::Ethereum
                && salt@ == Seq::<u8>::empty()
                && transfer@ == Map::<AssetId, Amount>::empty()
                && (program.tag matches Some(ct) && ct@ == "Mint_children"@)
                && program.network == NetworkId::Ethereum
                && program.instructions@.len() == 1
                && (program.instructions@[0] matches Instruction::Call { payload }
                    && (mint_input_encoding(owner@, "ownable-1"@) matches Some(inner)
                        && payload@ == address_bytes_encoding(router_address(), inner)))
        },
        r matches Err(e) ==> e == MintError::EncodingFailed
            && mint_input_encoding(owner@, "ownable-1"@) is None,
{
    let mint = Mint::new(owner, "ownable-1".to_string());
    let configure = |child: ProgramBuilder| -> (res: Result<ProgramBuilder, MintError>)
        requires
            child.network == NetworkId::Ethereum,
        ensures
            res matches Ok(b) ==> {
                &&& b.tag == child.tag
                &&& b.network == child.network
                &&& b.instructions@.len() == child.instructions@.len() + 1
                &&& b.instructions@.last() matches Instruction::Call { payload }
                    && (mint_input_encoding(owner@, "ownable-1"@) matches Some(inner)
                        && payload@ == address_bytes_encoding(router_address(), inner))
            },
            res matches Err(e) ==> e == MintError::EncodingFailed
                && mint_input_encoding(owner@, "ownable-1"@) is None,
        {
            let mut b = child;
            match b.call(mint) {
                Ok(()) => Ok(b),
                Err(e) => Err(e),
            }
        };
    let mut builder = ProgramBuilder::from(Some("Mint_parent".to_string()), NetworkId::Picasso);
    match builder.spawn(
        Some("Mint_children".to_string()),
        NetworkId::Ethereum,
        Vec::new(),
        Transfer::empty(),
        configure,
    ) {
        Ok(()) => Ok(builder.build()),
        Err(e) => Err(e),
    }
}

} // verus!
