//! The instruction data model.
//!
//! The engine hands each decoded REIL instruction to the handler as a
//! transient record that is only valid for that one invocation. The
//! boundary code copies it field by field into a `ReilInst`, a plain value
//! the handler may keep. The accessors here are the read-only projections:
//! opcode, native address, REIL offset, composite address, and the three
//! operand slots filtered for presence.

use vstd::prelude::*;
use crate::addr::composite;
use crate::addr::encode;
use crate::arg::ReilArg;
use crate::arg::ReilType;

verus! {

/// An operand slot filtered for presence: absent exactly when the slot's
/// type tag marks it unused, otherwise the slot itself.
pub open spec fn operand_of(slot: ReilArg) -> Option<ReilArg> {
    if slot.ty is ANone {
        Option::None
    } else {
        Option::Some(slot)
    }
}

/// One decoded REIL instruction, recorded as plain values copied out of
/// the engine's transient record.
#[derive(Clone, Copy, Debug)]
pub struct ReilInst {
    /// The operation code, carried through unchanged; its meaning is owned
    /// by the engine's instruction set, not reinterpreted here.
    pub op: u16,
    /// The address of the native instruction this REIL instruction was
    /// expanded from.
    pub raw_addr: u64,
    /// The index of this REIL instruction within that expansion; only its
    /// low byte is significant.
    pub inum: u16,
    /// The first operand slot.
    pub a: ReilArg,
    /// The second operand slot.
    pub b: ReilArg,
    /// The third operand slot.
    pub c: ReilArg,
}

impl ReilInst {
    /// The operation code.
    pub fn opcode(&self) -> (r: u16)
        ensures
            r == self.op,
    {
        self.op
    }

    /// The native instruction address.
    pub fn raw_address(&self) -> (r: u64)
        ensures
            r == self.raw_addr,
    {
        self.raw_addr
    }

    /// The REIL offset: which instruction of its expansion this is.
    pub fn reil_offset(&self) -> (r: u8)
        ensures
            r == self.inum as u8,
    {
        self.inum as u8
    }

    /// The composite address: the native address and the REIL offset
    /// packed into one orderable 64-bit value.
    pub fn address(&self) -> (r: u64)
        ensures
            r == composite(self.raw_addr, self.inum as u8),
    {
        encode(self.raw_address(), self.reil_offset())
    }

    /// The first operand, absent when its slot is unused.
    pub fn first_operand(&self) -> (r: Option<ReilArg>)
        ensures
            r == operand_of(self.a),
    {
        match self.a.ty {
            ReilType::ANone => None,
            _ => Some(self.a),
        }
    }

    /// The second operand, absent when its slot is unused.
    pub fn second_operand(&self) -> (r: Option<ReilArg>)
        ensures
            r == operand_of(self.b),
    {
        match self.b.ty {
            ReilType::ANone => None,
            _ => Some(self.b),
        }
    }

    /// The third operand, absent when its slot is unused.
    pub fn third_operand(&self) -> (r: Option<ReilArg>)
        ensures
            r == operand_of(self.c),
    {
        match self.c.ty {
            ReilType::ANone => None,
            _ => Some(self.c),
        }
    }
}

} // verus!
