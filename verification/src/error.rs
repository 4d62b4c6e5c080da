//! Fatal conditions that abort a run.
//!
//! Every other irregular access (cartridge writes, the unusable gap) is
//! defined behavior and absorbed locally, so it never appears here.

use vstd::prelude::*;

verus! {

/// A condition that desynchronizes emulated state and must abort the run.
#[derive(Clone, Copy, Debug, PartialEq, Eq, Structural)]
pub enum GbError {
    /// An opcode with no implemented instruction was fetched.
    UnknownInstruction { opcode: u8 },
    /// The STOP instruction is not supported.
    Unimplemented,
    /// A write landed in the read-only mirror of work RAM.
    MirrorRamWrite { addr: u16 },
}

} // verus!
