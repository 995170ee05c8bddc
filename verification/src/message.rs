//! A minimal model of the message abstraction consumed by the fee logic: the
//! number of signatures a message requires, and its instructions, each with a
//! target program and opaque data bytes.

use vstd::prelude::*;

verus! {

/// The target program of an instruction, as far as fee computation cares:
/// the two signature-verification precompiles are distinguished from every
/// other program.
#[derive(Clone, Copy, Debug, PartialEq, Eq, Structural)]
pub enum ProgramId {
    Ed25519Precompile,
    Secp256k1Precompile,
    Other,
}

impl ProgramId {
    /// Whether this program is one of the signature-verification precompiles,
    /// whose instructions carry their own per-signature fee contribution.
    pub open spec fn spec_is_signature_precompile(self) -> bool {
        self is Ed25519Precompile || self is Secp256k1Precompile
    }

    #[verifier::when_used_as_spec(spec_is_signature_precompile)]
    pub fn is_signature_precompile(self) -> (r: bool)
        ensures
            r == self.spec_is_signature_precompile(),
    {
        match self {
            ProgramId::Ed25519Precompile => true,
            ProgramId::Secp256k1Precompile => true,
            ProgramId::Other => false,
        }
    }
}

/// One instruction of a message: a target program and opaque data bytes.
#[derive(Clone, Debug)]
pub struct Instruction {
    pub program_id: ProgramId,
    pub data: Vec<u8>,
}

/// A message, reduced to what fee computation reads: the number of required
/// signatures and the list of instructions.
#[derive(Clone, Debug)]
pub struct Message {
    pub num_required_signatures: u8,
    pub instructions: Vec<Instruction>,
}

impl Default for Message {
    /// An empty message: no required signatures, no instructions.
    fn default() -> (r: Self)
        ensures
            r.num_required_signatures == 0,
            r.instructions@ =~= Seq::<Instruction>::empty(),
    {
        Message { num_required_signatures: 0, instructions: Vec::new() }
    }
}

} // verus!
