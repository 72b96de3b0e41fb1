//! The services that a platform registers with the SBI implementation.
use vstd::prelude::*;

verus! {

/// Machine identification registers, read once by the platform.
#[derive(Debug, Clone, Copy, PartialEq, Eq, Structural)]
pub struct MachineIds {
    /// Value of `mvendorid`, 0 where the register is not implemented.
    pub mvendorid: usize,
    /// Value of `marchid`, 0 where the register is not implemented.
    pub marchid: usize,
    /// Value of `mimpid`, 0 where the register is not implemented.
    pub mimpid: usize,
}

/// Which services are registered.
pub struct Services {
    pub timer: bool,
    pub ipi: bool,
    pub stdio: bool,
}

/// The state of the SBI implementation: the registered services and the
/// machine's identification.
pub struct Environment<T, I, S> {
    pub timer: Option<T>,
    pub ipi: Option<I>,
    pub stdio: Option<S>,
    pub machine: MachineIds,
}

impl<T, I, S> Environment<T, I, S> {
    /// Which services are registered.
    pub open spec fn services(&self) -> Services {
        Services { timer: self.timer is Some, ipi: self.ipi is Some, stdio: self.stdio is Some }
    }

    /// An environment with no service registered.
    pub fn new(machine: MachineIds) -> (env: Self)
        ensures
            env.timer is None,
            env.ipi is None,
            env.stdio is None,
            env.machine == machine,
    {
        Environment { timer: None, ipi: None, stdio: None, machine }
    }
}

} // verus!
