//! Proofs of permission for the privileged entry points of the kernel.
//!
//! A capability is a value without content. Only this module can make one,
//! and it makes them in one place: when a kernel is created, its creator
//! receives one of each kind and decides whom to lend them to. A function
//! that asks for a reference to a capability can therefore be called only
//! by code that the board has trusted with it.

use vstd::prelude::*;

verus! {

/// Permits loading processes.
#[derive(Debug)]
pub struct ProcessManagementCapability {
    seal: (),
}

/// Permits entering the scheduler.
#[derive(Debug)]
pub struct MainLoopCapability {
    seal: (),
}

/// Permits carving grants out of a process's memory.
#[derive(Debug)]
pub struct MemoryAllocationCapability {
    seal: (),
}

/// One capability of each kind.
#[derive(Debug)]
pub struct Capabilities {
    pub process_management: ProcessManagementCapability,
    pub main_loop: MainLoopCapability,
    pub memory_allocation: MemoryAllocationCapability,
}

impl Capabilities {
    /// Makes the capabilities. Only the kernel's constructor calls this.
    pub(crate) fn issue() -> (capabilities: Capabilities) {
        Capabilities {
            process_management: ProcessManagementCapability { seal: () },
            main_loop: MainLoopCapability { seal: () },
            memory_allocation: MemoryAllocationCapability { seal: () },
        }
    }
}

} // verus!
