//! Architecture selection: the pure mapping from the abstract architecture
//! choice offered to callers onto the identifier the decoding engine expects.

use vstd::prelude::*;

verus! {

/// The architecture of the binary code handed to a translation session.
#[derive(Clone, Copy, Debug, PartialEq, Eq, Structural)]
pub enum ReilArch {
    X86,
    ARM,
}

/// The engine's own architecture identifier, one value per supported
/// architecture. Code that talks to the engine converts this value into
/// the engine's native constant.
#[derive(Clone, Copy, Debug, PartialEq, Eq, Structural)]
pub enum EngineArch {
    ArchX86,
    ArchArm,
}

/// The engine identifier selected for an architecture.
pub open spec fn arch_id(arch: ReilArch) -> EngineArch {
    match arch {
        ReilArch::X86 => EngineArch::ArchX86,
        ReilArch::ARM => EngineArch::ArchArm,
    }
}

impl ReilArch {
    /// Selects the engine architecture identifier. Pure and total: every
    /// supported architecture maps to exactly one engine identifier.
    pub fn select(self) -> (r: EngineArch)
        ensures
            r == arch_id(self),
    {
        match self {
            ReilArch::X86 => EngineArch::ArchX86,
            ReilArch::ARM => EngineArch::ArchArm,
        }
    }
}

} // verus!
