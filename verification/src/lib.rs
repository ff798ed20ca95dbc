//! The core of a kernel for microcontrollers that runs a handful of
//! processes which do not trust each other: the system calls by which a
//! process reaches the kernel and the encoding of their results into the
//! four return registers, the record that the kernel keeps of each process,
//! the table of drivers, and the scheduler that goes round the processes.
//!
//! The hardware stays outside, behind four traits: the architecture's trap
//! layer ([`boundary::UserspaceKernelBoundary`]), the memory-protection
//! unit ([`boundary::MemoryProtection`]), the timer that ends a timeslice
//! ([`boundary::SchedulerTimer`]) and the drivers ([`driver::Driver`]).

pub mod boundary;
pub mod callback;
pub mod capabilities;
pub mod deferred;
pub mod dispatch;
pub mod driver;
pub mod io;
pub mod mem;
pub mod process;
pub mod result;
pub mod returncode;
pub mod round_robin;
pub mod sched;
pub mod syscall;
