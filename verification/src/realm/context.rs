//! The saved register context of a virtual CPU.

use vstd::prelude::*;

verus! {

/// The system registers that the monitor programs for a virtual CPU.
#[derive(Debug, Copy, Clone, PartialEq, Eq, Structural)]
pub struct SystemRegister {
    /// Stage-2 translation: the realm's identifier and the base of its table.
    pub vttbr: u64,
    /// The identity that the virtual CPU reads as its own.
    pub vmpidr: u64,
}

/// The register context of a virtual CPU while it is not running.
#[derive(Debug, Copy, Clone, PartialEq, Eq, Structural)]
pub struct Context {
    pub sys_regs: SystemRegister,
}

impl Context {
    /// The context of a virtual CPU that has never run: every register zero.
    pub open spec fn fresh() -> Context {
        Context { sys_regs: SystemRegister { vttbr: 0, vmpidr: 0 } }
    }

    pub fn new() -> (context: Context)
        ensures
            context == Context::fresh(),
    {
        Context { sys_regs: SystemRegister { vttbr: 0, vmpidr: 0 } }
    }
}

} // verus!
