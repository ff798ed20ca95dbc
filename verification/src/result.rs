//! The typed results of system calls and their encoding into the four
//! return registers of a process.

use vstd::prelude::*;
use crate::mem::AppSlice;
use crate::returncode::{error_code_of, ReturnCode};

verus! {

/// Failure that carries only its error.
#[derive(Clone, Copy, Debug, PartialEq, Eq, Structural)]
pub struct SyscallFailure {
    pub error: ReturnCode,
}

/// Failure that carries its error and one word.
#[derive(Clone, Copy, Debug, PartialEq, Eq, Structural)]
pub struct SyscallFailureU32 {
    pub error: ReturnCode,
    pub rval0: u32,
}

/// Failure that carries its error and two words.
#[derive(Clone, Copy, Debug, PartialEq, Eq, Structural)]
pub struct SyscallFailureU32U32 {
    pub error: ReturnCode,
    pub rval0: u32,
    pub rval1: u32,
}

/// Failure that carries its error and one double word.
#[derive(Clone, Copy, Debug, PartialEq, Eq, Structural)]
pub struct SyscallFailureU64 {
    pub error: ReturnCode,
    pub rval0: u64,
}

/// Success that carries one word.
#[derive(Clone, Copy, Debug, PartialEq, Eq, Structural)]
pub struct SyscallSuccessU32 {
    pub rval0: u32,
}

/// Success that carries two words.
#[derive(Clone, Copy, Debug, PartialEq, Eq, Structural)]
pub struct SyscallSuccessU32U32 {
    pub rval0: u32,
    pub rval1: u32,
}

/// Success that carries one double word.
#[derive(Clone, Copy, Debug, PartialEq, Eq, Structural)]
pub struct SyscallSuccessU64 {
    pub rval0: u64,
}

/// Success that carries three words.
#[derive(Clone, Copy, Debug, PartialEq, Eq, Structural)]
pub struct SyscallSuccessU32U32U32 {
    pub rval0: u32,
    pub rval1: u32,
    pub rval2: u32,
}

/// Success that carries one word and one double word.
#[derive(Clone, Copy, Debug, PartialEq, Eq, Structural)]
pub struct SyscallSuccessU32U64 {
    pub rval0: u32,
    pub rval1: u64,
}

/// Successful allow: the buffer that goes back to the process.
#[derive(Clone, Copy, Debug, PartialEq, Eq, Structural)]
pub struct SyscallSuccessAllow {
    pub buf: AppSlice,
}

/// Failed allow: the error and the buffer that goes back to the process.
#[derive(Clone, Copy, Debug, PartialEq, Eq, Structural)]
pub struct SyscallFailureAllow {
    pub error: ReturnCode,
    pub buf: AppSlice,
}

/// Failed allow whose buffer was never turned into a slice: the error and the
/// two words as the process passed them.
#[derive(Clone, Copy, Debug, PartialEq, Eq, Structural)]
pub struct SyscallFailureAllowRaw {
    pub error: ReturnCode,
    pub addr: u32,
    pub len: u32,
}

/// The possible results of a command.
#[derive(Clone, Copy, Debug, PartialEq, Eq, Structural)]
pub enum CommandResult {
    Failure(SyscallFailure),
    FailureU32(SyscallFailureU32),
    FailureU32U32(SyscallFailureU32U32),
    FailureU64(SyscallFailureU64),
    Success,
    SuccessU32(SyscallSuccessU32),
    SuccessU32U32(SyscallSuccessU32U32),
    SuccessU64(SyscallSuccessU64),
    SuccessU32U32U32(SyscallSuccessU32U32U32),
    SuccessU32U64(SyscallSuccessU32U64),
}

/// The possible results of a subscribe.
#[derive(Clone, Copy, Debug, PartialEq, Eq, Structural)]
pub enum SubscribeResult {
    Failure(SyscallFailure),
    Success,
}

/// The possible results of an allow.
#[derive(Clone, Copy, Debug, PartialEq, Eq, Structural)]
pub enum AllowResult {
    Failure(SyscallFailureAllow),
    FailureRaw(SyscallFailureAllowRaw),
    Success(SyscallSuccessAllow),
}

/// The structural case of a result: whether it succeeded and which payload
/// words are meaningful. It is what the tag in the first register names.
#[derive(Clone, Copy, Debug, PartialEq, Eq, Structural)]
pub enum ResultShape {
    Failure,
    FailureU32,
    FailureU32U32,
    FailureU64,
    Success,
    SuccessU32,
    SuccessU32U32,
    SuccessU64,
    SuccessU32U32U32,
    SuccessU32U64,
}

/// The four return registers `(r0, r1, r2, r3)`.
pub type Registers = (u32, u32, u32, u32);

/// The tag that stands for a structural case in the first register.
pub open spec fn tag_of(shape: ResultShape) -> u32 {
    match shape {
        ResultShape::Failure => 0,
        ResultShape::FailureU32 => 1,
        ResultShape::FailureU32U32 => 2,
        ResultShape::FailureU64 => 3,
        ResultShape::Success => 128,
        ResultShape::SuccessU32 => 129,
        ResultShape::SuccessU32U32 => 130,
        ResultShape::SuccessU64 => 131,
        ResultShape::SuccessU32U32U32 => 132,
        ResultShape::SuccessU32U64 => 133,
    }
}

/// The structural case that a tag names, if it names one.
pub open spec fn shape_of_tag(tag: u32) -> Option<ResultShape> {
    if tag == 0 {
        Some(ResultShape::Failure)
    } else if tag == 1 {
        Some(ResultShape::FailureU32)
    } else if tag == 2 {
        Some(ResultShape::FailureU32U32)
    } else if tag == 3 {
        Some(ResultShape::FailureU64)
    } else if tag == 128 {
        Some(ResultShape::Success)
    } else if tag == 129 {
        Some(ResultShape::SuccessU32)
    } else if tag == 130 {
        Some(ResultShape::SuccessU32U32)
    } else if tag == 131 {
        Some(ResultShape::SuccessU64)
    } else if tag == 132 {
        Some(ResultShape::SuccessU32U32U32)
    } else if tag == 133 {
        Some(ResultShape::SuccessU32U64)
    } else {
        None
    }
}

/// Whether a structural case is one of the successes.
pub open spec fn shape_succeeds(shape: ResultShape) -> bool {
    match shape {
        ResultShape::Failure => false,
        ResultShape::FailureU32 => false,
        ResultShape::FailureU32U32 => false,
        ResultShape::FailureU64 => false,
        _ => true,
    }
}

/// Whether the bit `0x80` of a tag is set: the bit by which a process tells
/// success from failure without looking at the rest.
pub open spec fn success_bit(tag: u32) -> bool {
    tag & 0x80 == 0x80
}

/// The low 32 bits of a double word.
pub open spec fn lo_word(v: u64) -> u32 {
    (v % 0x1_0000_0000) as u32
}

/// The high 32 bits of a double word.
pub open spec fn hi_word(v: u64) -> u32 {
    (v / 0x1_0000_0000) as u32
}

/// The low 32 bits of a machine word.
pub open spec fn word_of(v: usize) -> u32 {
    (v as int % 0x1_0000_0000) as u32
}

/// Computes the low 32 bits of a double word.
pub fn low_half(v: u64) -> (w: u32)
    ensures
        w == lo_word(v),
{
    assert(v & 0xffff_ffff == v % 0x1_0000_0000) by (bit_vector);
    (v & 0xffff_ffff) as u32
}

/// Computes the high 32 bits of a double word.
pub fn high_half(v: u64) -> (w: u32)
    ensures
        w == hi_word(v),
{
    assert(v >> 32 == v / 0x1_0000_0000) by (bit_vector);
    (v >> 32) as u32
}

/// Computes the low 32 bits of a machine word.
pub fn low_word_of(v: usize) -> (w: u32)
    ensures
        w == word_of(v),
{
    let wide: u64 = v as u64;
    assert(wide & 0xffff_ffff == wide % 0x1_0000_0000) by (bit_vector);
    (wide & 0xffff_ffff) as u32
}

/// The two halves of a double word are its little-endian digits in base
/// 2^32: low half first, high half second.
pub proof fn lemma_halves_compose(v: u64)
    ensures
        lo_word(v) + hi_word(v) * 0x1_0000_0000 == v,
{
}

/// Among the ten tags, the success bit is set exactly on the successes.
pub proof fn lemma_success_bit_of_tag(shape: ResultShape)
    ensures
        success_bit(tag_of(shape)) <==> shape_succeeds(shape),
        shape_of_tag(tag_of(shape)) == Some(shape),
{
    assert(forall|t: u32| t < 128 ==> t & 0x80 != 0x80) by (bit_vector);
    assert(forall|t: u32| 128 <= t < 256 ==> t & 0x80 == 0x80) by (bit_vector);
}

impl ResultShape {
    /// The tag of this case.
    pub fn tag(&self) -> (tag: u32)
        ensures
            tag == tag_of(*self),
    {
        match self {
            ResultShape::Failure => 0,
            ResultShape::FailureU32 => 1,
            ResultShape::FailureU32U32 => 2,
            ResultShape::FailureU64 => 3,
            ResultShape::Success => 128,
            ResultShape::SuccessU32 => 129,
            ResultShape::SuccessU32U32 => 130,
            ResultShape::SuccessU64 => 131,
            ResultShape::SuccessU32U32U32 => 132,
            ResultShape::SuccessU32U64 => 133,
        }
    }

    /// The case that `tag` names, or `None` for a number that is no tag.
    pub fn from_tag(tag: u32) -> (shape: Option<ResultShape>)
        ensures
            shape == shape_of_tag(tag),
            shape matches Some(s) ==> tag_of(s) == tag,
    {
        match tag {
            0 => Some(ResultShape::Failure),
            1 => Some(ResultShape::FailureU32),
            2 => Some(ResultShape::FailureU32U32),
            3 => Some(ResultShape::FailureU64),
            128 => Some(ResultShape::Success),
            129 => Some(ResultShape::SuccessU32),
            130 => Some(ResultShape::SuccessU32U32),
            131 => Some(ResultShape::SuccessU64),
            132 => Some(ResultShape::SuccessU32U32U32),
            133 => Some(ResultShape::SuccessU32U64),
            _ => None,
        }
    }

    /// Whether this case is a success.
    pub fn is_success(&self) -> (yes: bool)
        ensures
            yes == shape_succeeds(*self),
    {
        match self {
            ResultShape::Failure => false,
            ResultShape::FailureU32 => false,
            ResultShape::FailureU32U32 => false,
            ResultShape::FailureU64 => false,
            _ => true,
        }
    }
}

/// What every kind of system-call result has: a structural case, and an
/// encoding into the four return registers whose first word is the tag of
/// that case.
pub trait SyscallResult {
    /// The structural case of this result.
    spec fn shape(&self) -> ResultShape;

    /// The registers after this result has been written over `prior`, the
    /// words that the registers held when the process trapped. A register
    /// that the case gives no meaning to keeps its prior word; only a
    /// command's success with one word clears the two registers behind its
    /// word, so that the process does not find its own arguments there.
    spec fn registers(&self, prior: Registers) -> Registers;

    /// The first register holds the tag of the result's case, so the tag
    /// alone tells the case, and its bit `0x80` tells success from failure.
    proof fn lemma_tag_names_shape(&self, prior: Registers)
        ensures
            self.registers(prior).0 == tag_of(self.shape()),
            shape_of_tag(self.registers(prior).0) == Some(self.shape()),
            success_bit(self.registers(prior).0) <==> shape_succeeds(self.shape()),
    ;

    /// The wire number of a return code.
    fn return_code_to_error_code(rcode: ReturnCode) -> (code: u32)
        ensures
            code == error_code_of(rcode),
    {
        match rcode {
            ReturnCode::SuccessWithValue { value: _ } => 0,
            ReturnCode::SUCCESS => 0,
            ReturnCode::FAIL => 1,
            ReturnCode::EBUSY => 2,
            ReturnCode::EALREADY => 3,
            ReturnCode::EOFF => 4,
            ReturnCode::ERESERVE => 5,
            ReturnCode::EINVAL => 6,
            ReturnCode::ESIZE => 7,
            ReturnCode::ECANCEL => 8,
            ReturnCode::ENOMEM => 9,
            ReturnCode::ENOSUPPORT => 10,
            ReturnCode::ENODEVICE => 11,
            ReturnCode::EUNINSTALLED => 12,
            ReturnCode::ENOACK => 13,
        }
    }

    /// Writes the encoding of this result into the four register slots.
    fn into_registers(&self, r0: &mut u32, r1: &mut u32, r2: &mut u32, r3: &mut u32)
        ensures
            (*final(r0), *final(r1), *final(r2), *final(r3)) == self.registers(
                (*old(r0), *old(r1), *old(r2), *old(r3)),
            ),
            shape_of_tag(*final(r0)) == Some(self.shape()),
            success_bit(*final(r0)) <==> shape_succeeds(self.shape()),
    ;
}

impl SyscallResult for SubscribeResult {
    open spec fn shape(&self) -> ResultShape {
        match self {
            SubscribeResult::Failure(_) => ResultShape::Failure,
            SubscribeResult::Success => ResultShape::Success,
        }
    }

    open spec fn registers(&self, prior: Registers) -> Registers {
        match self {
            SubscribeResult::Failure(fail) => (0, error_code_of(fail.error), prior.2, prior.3),
            SubscribeResult::Success => (128, prior.1, prior.2, prior.3),
        }
    }

    proof fn lemma_tag_names_shape(&self, prior: Registers) {
        lemma_success_bit_of_tag(self.shape());
    }

    fn into_registers(&self, r0: &mut u32, r1: &mut u32, _r2: &mut u32, _r3: &mut u32) {
        proof {
            lemma_success_bit_of_tag(self.shape());
        }
        match self {
            SubscribeResult::Failure(fail) => {
                *r0 = 0;
                *r1 = Self::return_code_to_error_code(fail.error);
            },
            SubscribeResult::Success => {
                *r0 = 128;
            },
        }
    }
}

impl SyscallResult for AllowResult {
    open spec fn shape(&self) -> ResultShape {
        match self {
            AllowResult::Failure(_) => ResultShape::FailureU32U32,
            AllowResult::FailureRaw(_) => ResultShape::FailureU32U32,
            AllowResult::Success(_) => ResultShape::SuccessU32U32,
        }
    }

    open spec fn registers(&self, prior: Registers) -> Registers {
        match self {
            AllowResult::Failure(fail) => (
                2,
                error_code_of(fail.error),
                word_of(fail.buf.addr),
                word_of(fail.buf.size),
            ),
            AllowResult::FailureRaw(fail) => (2, error_code_of(fail.error), fail.addr, fail.len),
            AllowResult::Success(success) => (
                130,
                word_of(success.buf.addr),
                word_of(success.buf.size),
                prior.3,
            ),
        }
    }

    proof fn lemma_tag_names_shape(&self, prior: Registers) {
        lemma_success_bit_of_tag(self.shape());
    }

    fn into_registers(&self, r0: &mut u32, r1: &mut u32, r2: &mut u32, r3: &mut u32) {
        proof {
            lemma_success_bit_of_tag(self.shape());
        }
        match self {
            AllowResult::Failure(fail) => {
                *r0 = 2;
                *r1 = Self::return_code_to_error_code(fail.error);
                *r2 = low_word_of(fail.buf.ptr());
                *r3 = low_word_of(fail.buf.len());
            },
            AllowResult::FailureRaw(fail) => {
                *r0 = 2;
                *r1 = Self::return_code_to_error_code(fail.error);
                *r2 = fail.addr;
                *r3 = fail.len;
            },
            AllowResult::Success(success) => {
                *r0 = 130;
                *r1 = low_word_of(success.buf.ptr());
                *r2 = low_word_of(success.buf.len());
            },
        }
    }
}

impl SyscallResult for CommandResult {
    open spec fn shape(&self) -> ResultShape {
        match self {
            CommandResult::Failure(_) => ResultShape::Failure,
            CommandResult::FailureU32(_) => ResultShape::FailureU32,
            CommandResult::FailureU32U32(_) => ResultShape::FailureU32U32,
            CommandResult::FailureU64(_) => ResultShape::FailureU64,
            CommandResult::Success => ResultShape::Success,
            CommandResult::SuccessU32(_) => ResultShape::SuccessU32,
            CommandResult::SuccessU32U32(_) => ResultShape::SuccessU32U32,
            CommandResult::SuccessU64(_) => ResultShape::SuccessU64,
            CommandResult::SuccessU32U32U32(_) => ResultShape::SuccessU32U32U32,
            CommandResult::SuccessU32U64(_) => ResultShape::SuccessU32U64,
        }
    }

    open spec fn registers(&self, prior: Registers) -> Registers {
        match self {
            CommandResult::Failure(fail) => (0, error_code_of(fail.error), prior.2, prior.3),
            CommandResult::FailureU32(fail) => (
                1,
                error_code_of(fail.error),
                fail.rval0,
                prior.3,
            ),
            CommandResult::FailureU32U32(fail) => (
                2,
                error_code_of(fail.error),
                fail.rval0,
                fail.rval1,
            ),
            CommandResult::FailureU64(fail) => (
                3,
                error_code_of(fail.error),
                lo_word(fail.rval0),
                hi_word(fail.rval0),
            ),
            CommandResult::Success => (128, prior.1, prior.2, prior.3),
            CommandResult::SuccessU32(success) => (129, success.rval0, 0, 0),
            CommandResult::SuccessU32U32(success) => (
                130,
                success.rval0,
                success.rval1,
                prior.3,
            ),
            CommandResult::SuccessU64(success) => (
                131,
                lo_word(success.rval0),
                hi_word(success.rval0),
                prior.3,
            ),
            CommandResult::SuccessU32U32U32(success) => (
                132,
                success.rval0,
                success.rval1,
                success.rval2,
            ),
            CommandResult::SuccessU32U64(success) => (
                133,
                success.rval0,
                lo_word(success.rval1),
                hi_word(success.rval1),
            ),
        }
    }

    proof fn lemma_tag_names_shape(&self, prior: Registers) {
        lemma_success_bit_of_tag(self.shape());
    }

    fn into_registers(&self, r0: &mut u32, r1: &mut u32, r2: &mut u32, r3: &mut u32) {
        proof {
            lemma_success_bit_of_tag(self.shape());
        }
        match self {
            CommandResult::Failure(fail) => {
                *r0 = 0;
                *r1 = Self::return_code_to_error_code(fail.error);
            },
            CommandResult::FailureU32(fail) => {
                *r0 = 1;
                *r1 = Self::return_code_to_error_code(fail.error);
                *r2 = fail.rval0;
            },
            CommandResult::FailureU32U32(fail) => {
                *r0 = 2;
                *r1 = Self::return_code_to_error_code(fail.error);
                *r2 = fail.rval0;
                *r3 = fail.rval1;
            },
            CommandResult::FailureU64(fail) => {
                *r0 = 3;
                *r1 = Self::return_code_to_error_code(fail.error);
                *r2 = low_half(fail.rval0);
                *r3 = high_half(fail.rval0);
            },
            CommandResult::Success => {
                *r0 = 128;
            },
            CommandResult::SuccessU32(success) => {
                *r0 = 129;
                *r1 = success.rval0;
                *r2 = 0;
                *r3 = 0;
            },
            CommandResult::SuccessU32U32(success) => {
                *r0 = 130;
                *r1 = success.rval0;
                *r2 = success.rval1;
            },
            CommandResult::SuccessU64(success) => {
                *r0 = 131;
                *r1 = low_half(success.rval0);
                *r2 = high_half(success.rval0);
            },
            CommandResult::SuccessU32U32U32(success) => {
                *r0 = 132;
                *r1 = success.rval0;
                *r2 = success.rval1;
                *r3 = success.rval2;
            },
            CommandResult::SuccessU32U64(success) => {
                *r0 = 133;
                *r1 = success.rval0;
                *r2 = low_half(success.rval1);
                *r3 = high_half(success.rval1);
            },
        }
    }
}

/// Makes the records that results are built from.
pub struct SrvFactory;

impl SrvFactory {
    pub fn failure(error: ReturnCode) -> (record: SyscallFailure)
        ensures
            record == (SyscallFailure { error }),
    {
        SyscallFailure { error }
    }

    pub fn failure_u32(error: ReturnCode, rval0: u32) -> (record: SyscallFailureU32)
        ensures
            record == (SyscallFailureU32 { error, rval0 }),
    {
        SyscallFailureU32 { error, rval0 }
    }

    pub fn failure_u32_u32(error: ReturnCode, rval0: u32, rval1: u32) -> (record:
        SyscallFailureU32U32)
        ensures
            record == (SyscallFailureU32U32 { error, rval0, rval1 }),
    {
        SyscallFailureU32U32 { error, rval0, rval1 }
    }

    pub fn failure_u64(error: ReturnCode, rval0: u64) -> (record: SyscallFailureU64)
        ensures
            record == (SyscallFailureU64 { error, rval0 }),
    {
        SyscallFailureU64 { error, rval0 }
    }

    pub fn success_u32(rval0: u32) -> (record: SyscallSuccessU32)
        ensures
            record == (SyscallSuccessU32 { rval0 }),
    {
        SyscallSuccessU32 { rval0 }
    }

    pub fn success_u32_u32(rval0: u32, rval1: u32) -> (record: SyscallSuccessU32U32)
        ensures
            record == (SyscallSuccessU32U32 { rval0, rval1 }),
    {
        SyscallSuccessU32U32 { rval0, rval1 }
    }

    pub fn success_u64(rval0: u64) -> (record: SyscallSuccessU64)
        ensures
            record == (SyscallSuccessU64 { rval0 }),
    {
        SyscallSuccessU64 { rval0 }
    }

    pub fn success_u32_u32_u32(rval0: u32, rval1: u32, rval2: u32) -> (record:
        SyscallSuccessU32U32U32)
        ensures
            record == (SyscallSuccessU32U32U32 { rval0, rval1, rval2 }),
    {
        SyscallSuccessU32U32U32 { rval0, rval1, rval2 }
    }

    pub fn success_u32_u64(rval0: u32, rval1: u64) -> (record: SyscallSuccessU32U64)
        ensures
            record == (SyscallSuccessU32U64 { rval0, rval1 }),
    {
        SyscallSuccessU32U64 { rval0, rval1 }
    }

    pub fn success_allow(buf: AppSlice) -> (record: SyscallSuccessAllow)
        ensures
            record == (SyscallSuccessAllow { buf }),
    {
        SyscallSuccessAllow { buf }
    }

    pub fn failure_allow(error: ReturnCode, buf: AppSlice) -> (record: SyscallFailureAllow)
        ensures
            record == (SyscallFailureAllow { error, buf }),
    {
        SyscallFailureAllow { error, buf }
    }

    pub fn failure_allow_raw(error: ReturnCode, addr: u32, len: u32) -> (record:
        SyscallFailureAllowRaw)
        ensures
            record == (SyscallFailureAllowRaw { error, addr, len }),
    {
        SyscallFailureAllowRaw { error, addr, len }
    }
}

} // verus!
