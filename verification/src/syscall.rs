//! System-call numbers, their decoding from raw register words, and the
//! reasons for which a process hands the processor back to the kernel.

use vstd::prelude::*;

verus! {

/// The system calls. Each carries the register words of the process that
/// issued it, named by their meaning. Addresses are kept as plain words:
/// recognising a call never reads the memory it points to.
#[derive(Copy, Clone, Debug, PartialEq, Eq, Structural)]
pub enum Syscall {
    /// Return to the kernel to let other processes run or to wait for
    /// callbacks. Class number 0.
    YIELD,
    /// Pass a callback function to the kernel. Class number 1.
    SUBSCRIBE {
        driver_number: usize,
        subdriver_number: usize,
        callback_ptr: usize,
        appdata: usize,
    },
    /// Instruct the kernel or a driver to perform an operation. Class number 2.
    COMMAND { driver_number: usize, subdriver_number: usize, arg0: usize, arg1: usize },
    /// Share a memory buffer with the kernel. Class number 3.
    ALLOW {
        driver_number: usize,
        subdriver_number: usize,
        allow_address: usize,
        allow_size: usize,
    },
    /// Various memory operations. Class number 4.
    MEMOP { operand: usize, arg0: usize },
}

/// Why the process stopped executing and execution returned to the kernel.
#[derive(Copy, Clone, Debug, PartialEq, Eq, Structural)]
pub enum ContextSwitchReason {
    /// Process called a syscall; the call and its words come along.
    SyscallFired { syscall: Syscall },
    /// Process triggered the hardfault handler.
    Fault,
    /// Process exceeded its timeslice.
    TimesliceExpired,
    /// Process interrupted (for example by a hardware event).
    Interrupted,
}

/// The system call that class `syscall_number` and the four words stand for,
/// if the class is known.
pub open spec fn decode(syscall_number: u8, r0: usize, r1: usize, r2: usize, r3: usize) -> Option<
    Syscall,
> {
    if syscall_number == 0 {
        Some(Syscall::YIELD)
    } else if syscall_number == 1 {
        Some(
            Syscall::SUBSCRIBE {
                driver_number: r0,
                subdriver_number: r1,
                callback_ptr: r2,
                appdata: r3,
            },
        )
    } else if syscall_number == 2 {
        Some(Syscall::COMMAND { driver_number: r0, subdriver_number: r1, arg0: r2, arg1: r3 })
    } else if syscall_number == 3 {
        Some(
            Syscall::ALLOW {
                driver_number: r0,
                subdriver_number: r1,
                allow_address: r2,
                allow_size: r3,
            },
        )
    } else if syscall_number == 4 {
        Some(Syscall::MEMOP { operand: r0, arg0: r1 })
    } else {
        None
    }
}

/// The class number under which a system call traps into the kernel.
pub open spec fn class_of(syscall: Syscall) -> u8 {
    match syscall {
        Syscall::YIELD => 0,
        Syscall::SUBSCRIBE { .. } => 1,
        Syscall::COMMAND { .. } => 2,
        Syscall::ALLOW { .. } => 3,
        Syscall::MEMOP { .. } => 4,
    }
}

/// How many of the four argument registers a class reads, counted from `r0`.
pub open spec fn words_used(syscall_number: u8) -> int {
    if syscall_number == 0 {
        0
    } else if syscall_number == 4 {
        2
    } else {
        4
    }
}

/// The four register words that carry a system call, with zero in the
/// registers that its class does not read.
pub open spec fn words_of(syscall: Syscall) -> (usize, usize, usize, usize) {
    match syscall {
        Syscall::YIELD => (0, 0, 0, 0),
        Syscall::SUBSCRIBE { driver_number, subdriver_number, callback_ptr, appdata } => (
            driver_number,
            subdriver_number,
            callback_ptr,
            appdata,
        ),
        Syscall::COMMAND { driver_number, subdriver_number, arg0, arg1 } => (
            driver_number,
            subdriver_number,
            arg0,
            arg1,
        ),
        Syscall::ALLOW { driver_number, subdriver_number, allow_address, allow_size } => (
            driver_number,
            subdriver_number,
            allow_address,
            allow_size,
        ),
        Syscall::MEMOP { operand, arg0 } => (operand, arg0, 0, 0),
    }
}

impl Syscall {
    /// The class number of this call.
    pub fn class_number(&self) -> (class: u8)
        ensures
            class == class_of(*self),
            class <= 4,
    {
        match self {
            Syscall::YIELD => 0,
            Syscall::SUBSCRIBE { .. } => 1,
            Syscall::COMMAND { .. } => 2,
            Syscall::ALLOW { .. } => 3,
            Syscall::MEMOP { .. } => 4,
        }
    }

    /// The register words of this call, zero where the class reads none.
    pub fn into_arguments(&self) -> (words: (usize, usize, usize, usize))
        ensures
            words == words_of(*self),
    {
        match *self {
            Syscall::YIELD => (0, 0, 0, 0),
            Syscall::SUBSCRIBE { driver_number, subdriver_number, callback_ptr, appdata } => (
                driver_number,
                subdriver_number,
                callback_ptr,
                appdata,
            ),
            Syscall::COMMAND { driver_number, subdriver_number, arg0, arg1 } => (
                driver_number,
                subdriver_number,
                arg0,
                arg1,
            ),
            Syscall::ALLOW { driver_number, subdriver_number, allow_address, allow_size } => (
                driver_number,
                subdriver_number,
                allow_address,
                allow_size,
            ),
            Syscall::MEMOP { operand, arg0 } => (operand, arg0, 0, 0),
        }
    }
}

/// Converts the raw values that a process passed when it trapped into a
/// `Syscall`. The mapping from class numbers to calls is fixed. Nothing is
/// checked but the class: addresses and lengths are taken as they come.
pub fn arguments_to_syscall(
    syscall_number: u8,
    r0: usize,
    r1: usize,
    r2: usize,
    r3: usize,
) -> (call: Option<Syscall>)
    ensures
        call == decode(syscall_number, r0, r1, r2, r3),
        call is Some <==> syscall_number <= 4,
{
    match syscall_number {
        0 => Some(Syscall::YIELD),
        1 => Some(
            Syscall::SUBSCRIBE {
                driver_number: r0,
                subdriver_number: r1,
                callback_ptr: r2,
                appdata: r3,
            },
        ),
        2 => Some(Syscall::COMMAND { driver_number: r0, subdriver_number: r1, arg0: r2, arg1: r3 }),
        3 => Some(
            Syscall::ALLOW {
                driver_number: r0,
                subdriver_number: r1,
                allow_address: r2,
                allow_size: r3,
            },
        ),
        4 => Some(Syscall::MEMOP { operand: r0, arg0: r1 }),
        _ => None,
    }
}

/// Decoding then encoding gives back the class and every word that the class
/// reads.
pub proof fn lemma_encode_decode(syscall_number: u8, r0: usize, r1: usize, r2: usize, r3: usize)
    requires
        decode(syscall_number, r0, r1, r2, r3) is Some,
    ensures
        class_of(decode(syscall_number, r0, r1, r2, r3)->0) == syscall_number,
        words_used(syscall_number) > 0 ==> words_of(decode(syscall_number, r0, r1, r2, r3)->0).0
            == r0,
        words_used(syscall_number) > 1 ==> words_of(decode(syscall_number, r0, r1, r2, r3)->0).1
            == r1,
        words_used(syscall_number) > 2 ==> words_of(decode(syscall_number, r0, r1, r2, r3)->0).2
            == r2,
        words_used(syscall_number) > 3 ==> words_of(decode(syscall_number, r0, r1, r2, r3)->0).3
            == r3,
{
}

/// Encoding then decoding gives back the call itself.
pub proof fn lemma_decode_encode(syscall: Syscall)
    ensures
        decode(
            class_of(syscall),
            words_of(syscall).0,
            words_of(syscall).1,
            words_of(syscall).2,
            words_of(syscall).3,
        ) == Some(syscall),
{
}

} // verus!
