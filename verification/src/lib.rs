//! Machine-mode supervisor binary interface (SBI) for RISC-V.
//!
//! The library decides how each supervisor environment call is answered.
//! The platform registers its services (timer, inter-processor interrupts,
//! legacy console) in an [`environment::Environment`], and the trap handler
//! hands every `ecall` to [`ecall::handle_ecall`].
use vstd::prelude::*;

pub mod clint;
pub mod ecall;
pub mod environment;
pub mod hart_mask;
pub mod ipi;
pub mod legacy_stdio;
pub mod timer;
pub mod trap;


pub use ecall::handle_ecall as ecall;
pub use ecall::SbiRet;
pub use environment::Environment;

pub use hart_mask::HartMask;
pub use ipi::{init_ipi, Ipi};
pub use legacy_stdio::LegacyStdio;
pub use timer::{init_timer, probe_timer, Timer};




verus! {

/// Major number of the SBI specification this implementation follows.
pub const SBI_SPEC_MAJOR: usize = 0;

/// Minor number of the SBI specification this implementation follows.
pub const SBI_SPEC_MINOR: usize = 2;

/// Implementation id of RustSBI, as registered in the SBI specification.
pub const IMPL_ID_RUSTSBI: usize = 4;

/// Version of this implementation.
pub const RUSTSBI_VERSION: usize = 1;

} // verus!
