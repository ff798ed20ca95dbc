//! What the kernel asks of the architecture it runs on in order to enter
//! and leave processes.

use vstd::prelude::*;
use crate::mem::Region;
use crate::process::FunctionCall;
use crate::result::{AllowResult, CommandResult, SubscribeResult};
use crate::syscall::ContextSwitchReason;

verus! {

/// Implemented once for each architecture. It lets the kernel switch to and
/// from processes without knowing the processor's registers.
pub trait UserspaceKernelBoundary {
    /// What the architecture keeps for a process while the process does not
    /// run, such as registers that are not saved on the stack. A freshly
    /// made value is not ready for use: `initialize_process` makes it so.
    type StoredState: Default;

    /// Sets up the first stack frame of a process whose stack begins at
    /// `stack_base` and has `stack_size` bytes, and makes `state` ready, so
    /// that the process can be switched to. Gives the new stack pointer.
    /// May be called again on the same process, as when it is restarted.
    /// The kernel hands over a stack that has at least one byte and ends
    /// within the address space.
    fn initialize_process(
        &self,
        stack_base: usize,
        stack_size: usize,
        state: &mut Self::StoredState,
    ) -> (outcome: Result<usize, ()>)
        requires
            stack_size > 0,
            stack_base + stack_size <= usize::MAX,
    ;

    /// Sets the values that the process sees when it resumes after a
    /// command. Only called after the process has called a command.
    fn set_syscall_return_command(
        &self,
        stack_pointer: usize,
        state: &mut Self::StoredState,
        return_value: &CommandResult,
    );

    /// Sets the values that the process sees when it resumes after a
    /// subscribe. Only called after the process has called a subscribe.
    fn set_syscall_return_subscribe(
        &self,
        stack_pointer: usize,
        state: &mut Self::StoredState,
        return_value: &SubscribeResult,
    );

    /// Sets the values that the process sees when it resumes after an
    /// allow. Only called after the process has called an allow.
    fn set_syscall_return_allow(
        &self,
        stack_pointer: usize,
        state: &mut Self::StoredState,
        return_value: &AllowResult,
    );

    /// Makes the process execute `callback` when it resumes, and go on where
    /// it was once that function returns. `remaining_stack_memory` is the
    /// number of bytes of stack below `stack_pointer`. Gives the new stack
    /// pointer, or, where the frame for the call does not fit into those
    /// bytes, the old one as an error. Without any byte left there is no
    /// room for a frame: the call is refused and `state` is left as it was.
    ///
    /// Never used together with one of the `set_syscall_return` functions
    /// for the same resumption, since the call would overwrite the values.
    fn set_process_function(
        &self,
        stack_pointer: usize,
        remaining_stack_memory: usize,
        state: &mut Self::StoredState,
        callback: FunctionCall,
    ) -> (outcome: Result<usize, usize>)
        ensures
            outcome matches Err(unchanged) ==> unchanged == stack_pointer,
            remaining_stack_memory == 0 ==> outcome is Err && *final(state) == *old(state),
    ;

    /// Switches to the process and runs it until it traps. Gives the stack
    /// pointer of the process at the trap and the reason for the trap.
    fn switch_to_process(&self, stack_pointer: usize, state: &mut Self::StoredState) -> (outcome: (
        usize,
        ContextSwitchReason,
    ));

    /// Describes the architecture's view of the process, such as its
    /// registers and status flags, for diagnostics.
    fn print_context(&self, stack_pointer: usize, state: &Self::StoredState) -> (text: String);
}

/// The timer that bounds how long a process runs at a stretch. It is armed
/// when a process is switched to; when it runs out the process is
/// interrupted and the architecture reports an expired timeslice.
pub trait SchedulerTimer {
    /// Starts a timeslice of the given length, in microseconds.
    fn arm(&mut self, timeslice_us: u32);

    /// Stops the timer and says how many microseconds of the timeslice
    /// have been used.
    fn disarm(&mut self) -> (used_us: u32);
}

/// The memory-protection unit of the chip. The kernel tells it which
/// regions the process that is about to run may touch; how the unit is
/// programmed is the chip's business.
pub trait MemoryProtection {
    /// How many regions the unit can open at once.
    fn region_slots(&self) -> (slots: usize);

    /// Opens exactly the given regions, each with its access rights, and
    /// closes everything else to the process.
    fn configure(&mut self, regions: &Vec<Region>);

    /// Closes all memory to processes, as while the kernel runs.
    fn disable(&mut self);
}

} // verus!
