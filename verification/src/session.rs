//! The translation session protocol.
//!
//! A session owns one engine handle. The handle itself is an opaque
//! resource acquired and released by unverified boundary code; what is
//! verified here is the protocol that code must follow: a session exists
//! only when the engine reported a successful initialization, every
//! translation step requires an Active session and leaves it Active, and
//! the one release step requires an Active session and closes it, so a
//! second release can never pass the contract. The boundary code performs
//! each engine call this module decides on and hands the outcome back.

use vstd::prelude::*;
use crate::arch::EngineArch;
use crate::arch::ReilArch;
use crate::arch::arch_id;

verus! {

/// The lifecycle state of a session: `Active` between a successful
/// construction and the release of the engine handle, `Closed` after.
#[derive(Clone, Copy, Debug, PartialEq, Eq, Structural)]
pub enum SessionState {
    Active,
    Closed,
}

/// One buffer-feeding call for the boundary code to pass to the engine:
/// the bytes starting at `start_address`, decoded as a stream of native
/// instructions, or as exactly one when `single` is set.
#[derive(Clone, Copy, Debug, PartialEq, Eq, Structural)]
pub struct EngineRequest {
    /// Decode exactly one native instruction instead of the whole buffer.
    pub single: bool,
    /// The address assigned to the first decoded native instruction.
    pub start_address: u32,
    /// How many buffer bytes the engine may read.
    pub data_len: usize,
}

/// A translation session over the decoding engine, in the abstract: the
/// architecture it was opened for and where it stands in its lifecycle.
pub struct Reil {
    state: SessionState,
    arch: EngineArch,
}

/// The session constructed for an architecture when the engine reports
/// readiness, and no session at all when it does not.
pub closed spec fn new_spec(arch: ReilArch, engine_ready: bool) -> Option<Reil> {
    if engine_ready {
        Option::Some(Reil { state: SessionState::Active, arch: arch_id(arch) })
    } else {
        Option::None
    }
}

/// The session after its engine handle has been released.
pub closed spec fn close_spec(s: Reil) -> Reil {
    Reil { state: SessionState::Closed, ..s }
}

impl Reil {
    /// Whether the session still holds its engine handle.
    pub closed spec fn is_active(self) -> bool {
        self.state is Active
    }

    /// The engine architecture identifier the session was opened with.
    pub closed spec fn arch(self) -> EngineArch {
        self.arch
    }

    /// Whether the session still holds its engine handle, as a runtime
    /// value: what every other step of the protocol requires.
    pub fn active(&self) -> (r: bool)
        ensures
            r == self.is_active(),
    {
        match self.state {
            SessionState::Active => true,
            SessionState::Closed => false,
        }
    }

    /// Opens a session for an architecture. `engine_ready` is the outcome
    /// of the engine's initialization, performed by the boundary code: a
    /// session comes back exactly when the engine came up, and it is then
    /// Active and bound to the selected architecture. On failure nothing
    /// is held, so nothing has to be released.
    pub fn new(arch: ReilArch, engine_ready: bool) -> (r: Option<Reil>)
        ensures
            r == new_spec(arch, engine_ready),
            r is Some <==> engine_ready,
            r matches Some(s) ==> s.is_active() && s.arch() == arch_id(arch),
    {
        if engine_ready {
            Some(Reil { state: SessionState::Active, arch: arch.select() })
        } else {
            None
        }
    }

    /// One streaming step: an Active session may feed a buffer of any
    /// length to the engine, and stays Active. The returned request tells
    /// the boundary code to decode the whole buffer; the engine then calls
    /// the handler once per REIL instruction it produces, and a buffer of
    /// length zero produces no call at all.
    pub fn translate(&mut self, data_len: usize, start_address: u32) -> (r: EngineRequest)
        requires
            old(self).is_active(),
        ensures
            *final(self) == *old(self),
            r == (EngineRequest { single: false, start_address, data_len }),
    {
        EngineRequest { single: false, start_address, data_len }
    }

    /// One single-instruction step: as `translate`, but the returned
    /// request tells the boundary code to decode exactly one native
    /// instruction and leave the rest of the buffer untouched.
    pub fn translate_instruction(&mut self, data_len: usize, start_address: u32) -> (r:
        EngineRequest)
        requires
            old(self).is_active(),
        ensures
            *final(self) == *old(self),
            r == (EngineRequest { single: true, start_address, data_len }),
    {
        EngineRequest { single: true, start_address, data_len }
    }

    /// Releases the engine handle. Only an Active session may release, and
    /// the session is Closed afterwards, so for each session this step can
    /// pass its contract at most once: no double release.
    pub fn close(&mut self)
        requires
            old(self).is_active(),
        ensures
            *final(self) == close_spec(*old(self)),
            !final(self).is_active(),
            final(self).arch() == old(self).arch(),
    {
        self.state = SessionState::Closed;
    }
}

/// Lifecycle law: for every supported architecture, construction succeeds
/// exactly when the engine comes up; a fresh session is Active and bound
/// to that architecture; closing it makes it inactive while keeping its
/// architecture; and a closed session is never Active again, so the
/// release step cannot repeat. Sessions own nothing in common, so any
/// number of them may be constructed and destroyed in sequence, each with
/// exactly one release.
pub proof fn lemma_session_lifecycle(arch: ReilArch)
    ensures
        new_spec(arch, false) is None,
        new_spec(arch, true) is Some,
        new_spec(arch, true).unwrap().is_active(),
        new_spec(arch, true).unwrap().arch() == arch_id(arch),
        !close_spec(new_spec(arch, true).unwrap()).is_active(),
        close_spec(new_spec(arch, true).unwrap()).arch() == arch_id(arch),
{
}

} // verus!
