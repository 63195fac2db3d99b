//! Instruction model and program-construction API for a cross-chain
//! virtual machine: programs are ordered, network-scoped instruction
//! sequences, built through `ProgramBuilder` and encoded per network
//! through the `Protocol` capability.

pub mod amount;
pub mod mint;
pub mod network;
pub mod program;
pub mod protocol;
pub mod swap;
pub mod transfer;
