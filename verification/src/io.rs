//! The state of the writer through which the kernel reports a panic over a
//! serial port.

use vstd::prelude::*;

verus! {

/// Remembers whether the serial port has been set up. Setting the port up
/// twice leaves the hardware in an undefined state, so it is done at most
/// once: by the board, which then says so, or by the first write.
#[derive(Debug)]
pub struct Writer {
    initialized: bool,
}

impl Writer {
    /// Whether the serial port has been set up.
    pub closed spec fn is_initialized(&self) -> bool {
        self.initialized
    }

    /// A writer for a serial port that has not been set up yet.
    pub fn new() -> (writer: Writer)
        ensures
            !writer.is_initialized(),
    {
        Writer { initialized: false }
    }

    /// Whether the serial port has been set up.
    pub fn initialized(&self) -> (yes: bool)
        ensures
            yes == self.is_initialized(),
    {
        self.initialized
    }

    /// Records that the serial port has been set up already.
    pub fn set_initialized(&mut self)
        ensures
            final(self).is_initialized(),
    {
        self.initialized = true;
    }

    /// Called before bytes are written: says whether the serial port has to
    /// be set up first, which is the case exactly on the first write when
    /// nobody has set it up before, and records that it now is.
    pub fn begin_write(&mut self) -> (configure: bool)
        ensures
            configure == !old(self).is_initialized(),
            final(self).is_initialized(),
    {
        if !self.initialized {
            self.initialized = true;
            true
        } else {
            false
        }
    }
}

} // verus!
