//! Kernel return codes and their stable wire numbers.

use vstd::prelude::*;

verus! {

/// What a kernel operation reports back. The numbering of the members is part
/// of the binary interface with processes and never changes.
#[derive(Clone, Copy, Debug, PartialEq, Eq, Structural)]
pub enum ReturnCode {
    /// Success that carries a value.
    SuccessWithValue { value: usize },
    /// Operation completed.
    SUCCESS,
    /// Generic failure.
    FAIL,
    /// The underlying system is busy; retry.
    EBUSY,
    /// The state requested is already set.
    EALREADY,
    /// The component is powered down.
    EOFF,
    /// Reservation required before use.
    ERESERVE,
    /// An invalid parameter was passed.
    EINVAL,
    /// Parameter passed was too large.
    ESIZE,
    /// Operation cancelled by a call.
    ECANCEL,
    /// Memory required not available.
    ENOMEM,
    /// Operation or command is unsupported.
    ENOSUPPORT,
    /// Device does not exist.
    ENODEVICE,
    /// Device is not physically installed.
    EUNINSTALLED,
    /// Packet transmission not acknowledged.
    ENOACK,
}

/// The wire number of a return code. Both forms of success map to zero.
pub open spec fn error_code_of(rcode: ReturnCode) -> u32 {
    match rcode {
        ReturnCode::SuccessWithValue { .. } => 0,
        ReturnCode::SUCCESS => 0,
        ReturnCode::FAIL => 1,
        ReturnCode::EBUSY => 2,
        ReturnCode::EALREADY => 3,
        ReturnCode::EOFF => 4,
        ReturnCode::ERESERVE => 5,
        ReturnCode::EINVAL => 6,
        ReturnCode::ESIZE => 7,
        ReturnCode::ECANCEL => 8,
        ReturnCode::ENOMEM => 9,
        ReturnCode::ENOSUPPORT => 10,
        ReturnCode::ENODEVICE => 11,
        ReturnCode::EUNINSTALLED => 12,
        ReturnCode::ENOACK => 13,
    }
}

/// Whether a return code is one of the fourteen members without a payload.
pub open spec fn is_plain(rcode: ReturnCode) -> bool {
    !(rcode is SuccessWithValue)
}

/// Two payload-free return codes with the same wire number are the same code.
pub proof fn lemma_error_code_injective(a: ReturnCode, b: ReturnCode)
    requires
        is_plain(a),
        is_plain(b),
        error_code_of(a) == error_code_of(b),
    ensures
        a == b,
{
}

} // verus!
