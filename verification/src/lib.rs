//! A verified interface layer for lifting machine code (x86 or ARM) into
//! REIL, a small architecture-independent intermediate representation.
//!
//! The byte-level lifting itself is done by an external decoding engine;
//! this crate owns everything around it: the architecture selection, the
//! composite addressing scheme that pairs a native instruction address
//! with its position inside the REIL expansion, the read-only data model
//! for decoded instructions and their operands, and the session protocol
//! that guarantees the engine handle is acquired and released exactly once.

pub mod addr;
pub mod arch;
pub mod arg;
pub mod inst;
pub mod session;

pub use arch::{EngineArch, ReilArch};
pub use arg::{ReilArg, ReilSize, ReilType};
pub use inst::ReilInst;
pub use session::{EngineRequest, Reil, SessionState};
