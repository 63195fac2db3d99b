use vstd::prelude::*;

use crate::network::NetworkId;
use crate::protocol::Protocol;
use crate::transfer::Transfer;

verus! {

/// One step of a program, scoped to the network of the program that
/// holds it.
#[derive(Debug, PartialEq, Eq)]
pub enum Instruction {
    /// Execute an already-encoded protocol call in the current network
    /// context.
    Call { payload: Vec<u8> },
    /// Move funds to a destination address on the current network.
    Transfer { to: Vec<u8>, transfer: Transfer },
    /// Dispatch a nested program to another network, carrying `transfer`
    /// as the funds made available there.
    Spawn { network: NetworkId, salt: Vec<u8>, transfer: Transfer, program: Program },
}

/// An ordered instruction sequence scoped to one network, with an
/// optional tag. Instructions execute in sequence, by an external
/// runtime; nesting through `Spawn` is strictly tree-shaped, since each
/// spawn owns its child program outright.
#[derive(Debug, PartialEq, Eq)]
pub struct Program {
    pub tag: Option<String>,
    pub network: NetworkId,
    pub instructions: Vec<Instruction>,
}

/// Accumulates the instructions of one program under construction.
/// Operations append at the end; an operation that fails leaves the
/// builder exactly as it was, so a caller may still continue or build.
#[derive(Debug, PartialEq, Eq)]
pub struct ProgramBuilder {
    pub tag: Option<String>,
    pub network: NetworkId,
    pub instructions: Vec<Instruction>,
}

impl ProgramBuilder {
    /// A builder freshly opened by `ProgramBuilder::from`, before any
    /// operation.
    pub open spec fn is_fresh(self, tag: Option<String>, network: NetworkId) -> bool {
        &&& self.tag == tag
        &&& self.network == network
        &&& self.instructions@ == Seq::<Instruction>::empty()
    }

    /// Opens a builder scoped to `network`, with no instructions yet.
    pub fn from(tag: Option<String>, network: NetworkId) -> (b: ProgramBuilder)
        ensures
            b.is_fresh(tag, network),
    {
        ProgramBuilder { tag, network, instructions: Vec::new() }
    }

    /// Closes construction: the built program carries the builder's tag,
    /// network and instructions, exactly and in order.
    pub fn build(self) -> (p: Program)
        ensures
            p.tag == self.tag,
            p.network == self.network,
            p.instructions == self.instructions,
    {
        Program { tag: self.tag, network: self.network, instructions: self.instructions }
    }

    /// Encodes `protocol` for this builder's network and appends the
    /// payload as one `Call` instruction; where encoding fails, the
    /// error is returned and the builder is left unchanged.
    pub fn call<P: Protocol>(&mut self, protocol: P) -> (r: Result<(), P::Error>)
        ensures
            (match protocol.spec_serialize(old(self).network) {
                Ok(bytes) => {
                    &&& r is Ok
                    &&& final(self).tag == old(self).tag
                    &&& final(self).network == old(self).network
                    &&& final(self).instructions@.len() == old(self).instructions@.len() + 1
                    &&& final(self).instructions@.take(old(self).instructions@.len() as int)
                        == old(self).instructions@
                    &&& final(self).instructions@.last() matches Instruction::Call { payload }
                        && payload@ == bytes
                },
                Err(e) => {
                    &&& r matches Err(e2) && e2 == e
                    &&& *final(self) == *old(self)
                },
            }),
    {
        match protocol.serialize(self.network) {
            Ok(payload) => {
                self.instructions.push(Instruction::Call { payload });
                proof {
                    assert(self.instructions@.take(old(self).instructions@.len() as int)
                        =~= old(self).instructions@);
                }
                Ok(())
            },
            Err(e) => Err(e),
        }
    }

    /// Appends one `Transfer` instruction moving `transfer` to the
    /// destination `to` on this builder's network.
    pub fn transfer(&mut self, to: Vec<u8>, transfer: Transfer)
        ensures
            final(self).tag == old(self).tag,
            final(self).network == old(self).network,
            final(self).instructions@ == old(self).instructions@.push(
                (Instruction::Transfer { to, transfer }),
            ),
    {
        self.instructions.push(Instruction::Transfer { to, transfer });
    }

    /// Opens a fresh child builder scoped to `network`, lets `configure`
    /// build on it, builds the child's program, and appends it as one
    /// `Spawn` instruction carrying `salt` and `transfer`.
    ///
    /// Where `configure` fails, its error is returned unchanged and the
    /// parent builder is left exactly as it was: a failed spawn attempt
    /// is atomic.
    pub fn spawn<E, F: FnOnce(ProgramBuilder) -> Result<ProgramBuilder, E>>(
        &mut self,
        tag: Option<String>,
        network: NetworkId,
        salt: Vec<u8>,
        transfer: Transfer,
        configure: F,
    ) -> (r: Result<(), E>)
        requires
            forall|child: ProgramBuilder| child.is_fresh(tag, network)
                ==> #[trigger] call_requires(configure, (child,)),
        ensures
            r is Ok ==> exists|child: ProgramBuilder, built: ProgramBuilder| {
                &&& child.is_fresh(tag, network)
                &&& #[trigger] call_ensures(configure, (child,), Result::<ProgramBuilder, E>::Ok(built))
                &&& final(self).tag == old(self).tag
                &&& final(self).network == old(self).network
                &&& final(self).instructions@ == old(self).instructions@.push(
                    (Instruction::Spawn {
                        network,
                        salt,
                        transfer,
                        program: (Program {
                            tag: built.tag,
                            network: built.network,
                            instructions: built.instructions,
                        }),
                    }),
                )
            },
            r is Err ==> *final(self) == *old(self),
            r matches Err(e) ==> exists|child: ProgramBuilder| child.is_fresh(tag, network)
                && #[trigger] call_ensures(configure, (child,), Result::<ProgramBuilder, E>::Err(e)),
    {
        let child = ProgramBuilder::from(tag, network);
        let ghost child0 = child;
        let out: Result<(), E>;
        match configure(child) {
            Ok(built) => {
                let ghost built0 = built;
                let program = built.build();
                self.instructions.push(Instruction::Spawn { network, salt, transfer, program });
                proof {
                    assert(call_ensures(configure, (child0,), (Result::<ProgramBuilder, E>::Ok(built0))));
                }
                out = Ok(());
            },
            Err(e) => {
                proof {
                    assert(call_ensures(configure, (child0,), (Result::<ProgramBuilder, E>::Err(e))));
                }
                out = Err(e);
            },
        }
        proof {
            if out is Err {
                assert(child0.is_fresh(tag, network));
                assert(call_ensures(configure, (child0,), (Result::<ProgramBuilder, E>::Err(out->Err_0))));
                assert(exists|child: ProgramBuilder| child.is_fresh(tag, network)
                    && #[trigger] call_ensures(configure, (child,), (Result::<ProgramBuilder, E>::Err(out->Err_0))));
            }
        }
        out
    }
}

} // verus!
