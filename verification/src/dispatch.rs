//! Serving system calls, responding to faults, and the scheduler's pass
//! over the processes.

use vstd::prelude::*;
use crate::boundary::{MemoryProtection, SchedulerTimer, UserspaceKernelBoundary};
use crate::callback::CallbackId;
use crate::driver::{Driver, DriverTable};
use crate::mem::AppSlice;
use crate::process::{after_memop, allow_error, allowed, awaits_call, callback_valid, faulted, held,
    memop_result, runnable, started_over, subscribe_error, subscribed, terminated, with_sp,
    with_state, with_tasks, with_time, writable, FaultResponse, Process, ProcessView, State};
use crate::result::{low_word_of, word_of, AllowResult, CommandResult, SubscribeResult,
    SyscallFailure, SyscallFailureAllow, SyscallFailureAllowRaw, SyscallSuccessAllow};
use crate::returncode::ReturnCode;
use crate::syscall::{ContextSwitchReason, Syscall};

verus! {

/// What the kernel hands back to a process for a system call.
#[derive(Clone, Copy, Debug, PartialEq, Eq, Structural)]
pub enum SyscallReturn {
    /// Nothing: the process yielded and resumes with a callback.
    Yielded,
    /// The result of a command or of a memory operation.
    Command(CommandResult),
    /// The result of a subscribe.
    Subscribe(SubscribeResult),
    /// The result of an allow.
    Allow(AllowResult),
}

/// What the kernel did with a process that faulted.
#[derive(Clone, Copy, Debug, PartialEq, Eq, Structural)]
pub enum FaultAction {
    /// The process stays stopped and the kernel is to halt.
    Panic,
    /// The process was started over.
    Restarted,
    /// The process was terminated.
    Stopped,
}

/// How a pass over one process ended.
#[derive(Clone, Copy, Debug, PartialEq, Eq, Structural)]
pub enum StepOutcome {
    /// The process had nothing to do and was not switched to.
    Idle,
    /// The process made a system call, which has been served.
    Syscall(Syscall),
    /// The process used up its timeslice and is still running.
    TimesliceExpired,
    /// An interrupt took the processor from the process, which is still
    /// running.
    Interrupted,
    /// The process faulted.
    Fault(FaultAction),
}

/// The slot that a system call names.
pub open spec fn slot(driver_num: usize, sub: usize) -> CallbackId {
    CallbackId { driver_num, subscribe_num: sub }
}

/// The error, if any, with which a subscribe fails before the driver is
/// asked: the pointer is not valid for the process, no driver has the
/// number, or the process has no slot left for the registration.
pub open spec fn subscribe_refusal(
    v: ProcessView,
    has_driver: bool,
    id: CallbackId,
    callback_ptr: usize,
) -> Option<ReturnCode> {
    if !callback_valid(v, callback_ptr) {
        Some(ReturnCode::EINVAL)
    } else if !has_driver {
        Some(ReturnCode::ENODEVICE)
    } else {
        subscribe_error(v, id, callback_ptr)
    }
}

/// The error, if any, with which an allow fails before the driver is asked:
/// the process may not write all of the range, no driver has the number, or
/// the process has no slot left for the buffer.
pub open spec fn allow_refusal(
    v: ProcessView,
    has_driver: bool,
    id: CallbackId,
    address: usize,
    length: usize,
) -> Option<ReturnCode> {
    if !writable(v, address, length) {
        Some(ReturnCode::EINVAL)
    } else if !has_driver {
        Some(ReturnCode::ENODEVICE)
    } else {
        allow_error(v, id, address, length)
    }
}

/// What goes back to the process for an allow that failed with `error`
/// before the driver was asked: the error, and the range that was offered,
/// as two plain words where the range is not one that the process may
/// share.
pub open spec fn allow_refused(v: ProcessView, error: ReturnCode, address: usize, length: usize)
    -> AllowResult {
    if !writable(v, address, length) {
        AllowResult::FailureRaw(
            SyscallFailureAllowRaw { error, addr: word_of(address), len: word_of(length) },
        )
    } else {
        AllowResult::Failure(
            SyscallFailureAllow { error, buf: AppSlice { addr: address, size: length } },
        )
    }
}

/// Serves a subscribe. The pointer is checked against the memory of the
/// process before any driver hears of the call; a call for a driver that
/// does not exist fails with `ENODEVICE`; then the driver is asked; where
/// it accepts, the callback is registered and pending calls for the slot
/// are cancelled. Every failure leaves the process as it was.
pub fn serve_subscribe<D: Driver>(
    process: &mut Process,
    drivers: &mut DriverTable<D>,
    driver_num: usize,
    sub: usize,
    callback_ptr: usize,
    appdata: usize,
) -> (result: SubscribeResult)
    requires
        old(process).wf(),
    ensures
        final(process).wf(),
        final(drivers).numbers() == old(drivers).numbers(),
        final(drivers).limit() == old(drivers).limit(),
        subscribe_refusal(
            old(process)@,
            old(drivers).has_driver(driver_num),
            slot(driver_num, sub),
            callback_ptr,
        ) matches Some(error) ==> result == SubscribeResult::Failure(SyscallFailure { error }),
        result is Success ==> final(process)@ == subscribed(
            old(process)@,
            slot(driver_num, sub),
            callback_ptr,
            appdata,
        ),
        result is Failure ==> final(process)@ == old(process)@,
{
    let id = CallbackId { driver_num, subscribe_num: sub };
    let refusal = match process.check_subscribe(id, callback_ptr) {
        Some(ReturnCode::EINVAL) => Some(ReturnCode::EINVAL),
        other => {
            if drivers.lookup(driver_num).is_none() {
                Some(ReturnCode::ENODEVICE)
            } else {
                other
            }
        },
    };
    match refusal {
        Some(error) => SubscribeResult::Failure(SyscallFailure { error }),
        None => {
            let answer = drivers.subscribe(driver_num, process.id(), sub, callback_ptr, appdata);
            process.settle_subscribe(id, callback_ptr, appdata, answer)
        },
    }
}

/// Serves an allow. The range is checked against the memory of the process
/// before any driver hears of the call, and a range that fails the check
/// goes back as the two words that were offered; a call for a driver that
/// does not exist fails with `ENODEVICE`; then the driver is asked; where
/// it accepts, the range is shared and the range that the slot held before
/// goes back to the process. Every failure leaves the process as it was.
pub fn serve_allow<D: Driver>(
    process: &mut Process,
    drivers: &mut DriverTable<D>,
    driver_num: usize,
    sub: usize,
    address: usize,
    length: usize,
) -> (result: AllowResult)
    requires
        old(process).wf(),
    ensures
        final(process).wf(),
        final(drivers).numbers() == old(drivers).numbers(),
        final(drivers).limit() == old(drivers).limit(),
        allow_refusal(
            old(process)@,
            old(drivers).has_driver(driver_num),
            slot(driver_num, sub),
            address,
            length,
        ) matches Some(error) ==> result == allow_refused(old(process)@, error, address, length),
        result matches AllowResult::Success(success) ==> success.buf == held(
            old(process)@,
            slot(driver_num, sub),
        ) && final(process)@ == allowed(old(process)@, slot(driver_num, sub), address, length),
        !(result is Success) ==> final(process)@ == old(process)@,
{
    let id = CallbackId { driver_num, subscribe_num: sub };
    let offered = AppSlice::new(address, length);
    match process.check_allow(id, address, length) {
        Some(ReturnCode::EINVAL) => AllowResult::FailureRaw(
            SyscallFailureAllowRaw {
                error: ReturnCode::EINVAL,
                addr: low_word_of(address),
                len: low_word_of(length),
            },
        ),
        other => {
            if drivers.lookup(driver_num).is_none() {
                AllowResult::Failure(
                    SyscallFailureAllow { error: ReturnCode::ENODEVICE, buf: offered },
                )
            } else {
                match other {
                    Some(error) => AllowResult::Failure(
                        SyscallFailureAllow { error, buf: offered },
                    ),
                    None => {
                        let answer = drivers.allow(driver_num, process.id(), sub, address, length);
                        process.settle_allow(id, address, length, answer)
                    },
                }
            }
        },
    }
}

/// The record of a process after the kernel has served `syscall` for it,
/// as far as it does not depend on a driver: a yield makes a running
/// process a yielded one, a memory operation may move the break, a command
/// changes nothing.
pub open spec fn after_syscall(v: ProcessView, syscall: Syscall) -> ProcessView {
    match syscall {
        Syscall::YIELD => if v.state is Running {
            with_state(v, State::Yielded)
        } else {
            v
        },
        Syscall::MEMOP { operand, arg0 } => after_memop(v, operand, arg0),
        _ => v,
    }
}

/// Serves a system call of a process and says what goes back to it.
pub fn serve_syscall<D: Driver>(
    process: &mut Process,
    drivers: &mut DriverTable<D>,
    syscall: Syscall,
) -> (back: SyscallReturn)
    requires
        old(process).wf(),
    ensures
        final(process).wf(),
        final(drivers).numbers() == old(drivers).numbers(),
        final(drivers).limit() == old(drivers).limit(),
        final(process)@.id == old(process)@.id,
        final(process)@.layout == old(process)@.layout,
        match syscall {
            Syscall::YIELD => back is Yielded && final(process)@ == after_syscall(
                old(process)@,
                syscall,
            ),
            Syscall::MEMOP { operand, arg0 } => back == SyscallReturn::Command(
                memop_result(old(process)@, operand, arg0),
            ) && final(process)@ == after_syscall(old(process)@, syscall),
            Syscall::COMMAND { driver_number, .. } => back is Command
                && final(process)@ == old(process)@
                && (!old(drivers).has_driver(driver_number) ==> back == SyscallReturn::Command(
                CommandResult::Failure(SyscallFailure { error: ReturnCode::ENODEVICE }),
            )),
            Syscall::SUBSCRIBE { driver_number, subdriver_number, callback_ptr, appdata } => {
                &&& back matches SyscallReturn::Subscribe(result)
                &&& result is Success ==> final(process)@ == subscribed(
                    old(process)@,
                    slot(driver_number, subdriver_number),
                    callback_ptr,
                    appdata,
                )
                &&& result is Failure ==> final(process)@ == old(process)@
                &&& subscribe_refusal(
                    old(process)@,
                    old(drivers).has_driver(driver_number),
                    slot(driver_number, subdriver_number),
                    callback_ptr,
                ) matches Some(error) ==> result == SubscribeResult::Failure(
                    SyscallFailure { error },
                )
            },
            Syscall::ALLOW { driver_number, subdriver_number, allow_address, allow_size } => {
                &&& back matches SyscallReturn::Allow(result)
                &&& result matches AllowResult::Success(success) ==> success.buf == held(
                    old(process)@,
                    slot(driver_number, subdriver_number),
                ) && final(process)@ == allowed(
                    old(process)@,
                    slot(driver_number, subdriver_number),
                    allow_address,
                    allow_size,
                )
                &&& !(result is Success) ==> final(process)@ == old(process)@
                &&& allow_refusal(
                    old(process)@,
                    old(drivers).has_driver(driver_number),
                    slot(driver_number, subdriver_number),
                    allow_address,
                    allow_size,
                ) matches Some(error) ==> result == allow_refused(
                    old(process)@,
                    error,
                    allow_address,
                    allow_size,
                )
            },
        },
{
    match syscall {
        Syscall::YIELD => {
            process.yield_now();
            SyscallReturn::Yielded
        },
        Syscall::MEMOP { operand, arg0 } => SyscallReturn::Command(process.memop(operand, arg0)),
        Syscall::COMMAND { driver_number, subdriver_number, arg0, arg1 } => {
            SyscallReturn::Command(
                drivers.command(driver_number, process.id(), subdriver_number, arg0, arg1),
            )
        },
        Syscall::SUBSCRIBE { driver_number, subdriver_number, callback_ptr, appdata } => {
            SyscallReturn::Subscribe(
                serve_subscribe(
                    process,
                    drivers,
                    driver_number,
                    subdriver_number,
                    callback_ptr,
                    appdata,
                ),
            )
        },
        Syscall::ALLOW { driver_number, subdriver_number, allow_address, allow_size } => {
            SyscallReturn::Allow(
                serve_allow(
                    process,
                    drivers,
                    driver_number,
                    subdriver_number,
                    allow_address,
                    allow_size,
                ),
            )
        },
    }
}

/// The record of a process that is not terminated after a fault has been
/// counted against it; a terminated one stays as it is.
pub open spec fn after_fault(v: ProcessView) -> ProcessView {
    if v.state is Terminated {
        v
    } else {
        faulted(v)
    }
}

/// Whether the architecture's answer lets a process start over.
pub open spec fn restarts(v: ProcessView, answer: Result<usize, ()>) -> bool {
    answer matches Ok(sp) && v.layout.in_stack(sp)
}

/// Completes the restart of a process once the architecture has been asked
/// to set up its first frame again. With a stack pointer inside the stack
/// the process starts over; otherwise it is terminated.
pub fn finish_restart(process: &mut Process, answer: Result<usize, ()>) -> (action: FaultAction)
    requires
        old(process).wf(),
    ensures
        final(process).wf(),
        restarts(old(process)@, answer) ==> action == FaultAction::Restarted && final(process)@
            == started_over(old(process)@, answer->Ok_0),
        !restarts(old(process)@, answer) ==> action == FaultAction::Stopped && final(process)@
            == terminated(old(process)@),
{
    match answer {
        Ok(sp) => {
            if process.restart(sp) {
                FaultAction::Restarted
            } else {
                FaultAction::Stopped
            }
        },
        Err(_) => {
            process.terminate();
            FaultAction::Stopped
        },
    }
}

/// Responds to the fault of a process that has been marked as faulted, as
/// the kernel was configured to: by leaving the process stopped and asking
/// for the kernel to halt, by starting the process over, or by terminating
/// it. A process that cannot be started over is terminated.
pub fn respond_to_fault<A: UserspaceKernelBoundary>(
    arch: &A,
    process: &mut Process,
    state: &mut A::StoredState,
    response: FaultResponse,
) -> (action: FaultAction)
    requires
        old(process).wf(),
    ensures
        final(process).wf(),
        responded(old(process)@, final(process)@, action, response),
{
    match response {
        FaultResponse::Panic => FaultAction::Panic,
        FaultResponse::Stop => {
            process.terminate();
            FaultAction::Stopped
        },
        FaultResponse::Restart => {
            let layout = process.layout();
            let answer = arch.initialize_process(layout.stack_base(), layout.stack_size, state);
            finish_restart(process, answer)
        },
    }
}

/// Whether `after` is the record of a faulted process with record `marked`
/// once the kernel has responded with `action`, the response it was
/// configured with being `response`.
pub open spec fn responded(
    marked: ProcessView,
    after: ProcessView,
    action: FaultAction,
    response: FaultResponse,
) -> bool {
    match action {
        FaultAction::Panic => response is Panic && after == marked,
        FaultAction::Stopped => !(response is Panic) && after == terminated(marked),
        FaultAction::Restarted => response is Restart && after == started_over(
            marked,
            after.saved_sp,
        ),
    }
}

/// Marks a process as faulted, counts the fault, and responds to it as the
/// kernel was configured to.
pub fn handle_fault<A: UserspaceKernelBoundary>(
    arch: &A,
    process: &mut Process,
    state: &mut A::StoredState,
    response: FaultResponse,
) -> (action: FaultAction)
    requires
        old(process).wf(),
    ensures
        final(process).wf(),
        responded(after_fault(old(process)@), final(process)@, action, response),
        response is Panic ==> action is Panic,
        response is Stop ==> action is Stopped,
{
    process.set_fault_state();
    respond_to_fault(arch, process, state, response)
}

/// Hands what goes back to a process for a system call to the architecture,
/// which puts it where the process will find it when it resumes: a result
/// goes to the setter for its kind of call. For a yield nothing goes back,
/// and what the architecture keeps for the process is left as it is.
pub fn deliver<A: UserspaceKernelBoundary>(
    arch: &A,
    stack_pointer: usize,
    state: &mut A::StoredState,
    back: &SyscallReturn,
)
    ensures
        back is Yielded ==> *final(state) == *old(state),
{
    match back {
        SyscallReturn::Yielded => {},
        SyscallReturn::Command(result) => {
            arch.set_syscall_return_command(stack_pointer, state, result);
        },
        SyscallReturn::Subscribe(result) => {
            arch.set_syscall_return_subscribe(stack_pointer, state, result);
        },
        SyscallReturn::Allow(result) => {
            arch.set_syscall_return_allow(stack_pointer, state, result);
        },
    }
}

/// The record of a process once a call that it waited for has been taken
/// off its queue and it runs, wherever its stack pointer then stands; the
/// record itself for a process that waits for no call.
pub open spec fn entered(v: ProcessView) -> ProcessView {
    if awaits_call(v) {
        with_state(with_tasks(v, v.tasks.drop_first()), State::Running)
    } else {
        v
    }
}

/// Whether `after` can be the record of a process with record `before`
/// after a pass that ended with `outcome`. The process was resumed, with
/// its pending call if it waited for one, and came back with the saved
/// stack pointer of `after`, having used the time that `after` records of
/// its timeslice, unless it was started over. An expired
/// timeslice and an interrupt change nothing else; a system call changes
/// what serving it changes, a subscribe or an allow only where it succeeded;
/// a fault is counted and responded to.
pub open spec fn pass_result(
    before: ProcessView,
    after: ProcessView,
    outcome: StepOutcome,
    response: FaultResponse,
) -> bool {
    let resumed = with_time(with_sp(entered(before), after.saved_sp), after.timeslice_used);
    match outcome {
        StepOutcome::Idle => !runnable(before) && after == before,
        StepOutcome::TimesliceExpired => runnable(before) && after == resumed,
        StepOutcome::Interrupted => runnable(before) && after == resumed,
        StepOutcome::Syscall(syscall) => runnable(before) && match syscall {
            Syscall::SUBSCRIBE { driver_number, subdriver_number, callback_ptr, appdata } => {
                ||| after == resumed
                ||| subscribe_error(resumed, slot(driver_number, subdriver_number), callback_ptr)
                    is None && after == subscribed(
                    resumed,
                    slot(driver_number, subdriver_number),
                    callback_ptr,
                    appdata,
                )
            },
            Syscall::ALLOW { driver_number, subdriver_number, allow_address, allow_size } => {
                ||| after == resumed
                ||| allow_error(
                    resumed,
                    slot(driver_number, subdriver_number),
                    allow_address,
                    allow_size,
                ) is None && after == allowed(
                    resumed,
                    slot(driver_number, subdriver_number),
                    allow_address,
                    allow_size,
                )
            },
            _ => after == after_syscall(resumed, syscall),
        },
        StepOutcome::Fault(action) => runnable(before) && responded(
            faulted(resumed),
            after,
            action,
            response,
        ),
    }
}

/// One pass of the scheduler over one process. A pending call is handed to
/// the architecture if the process waits for one; a process that can then
/// run is switched to, with the memory-protection unit opened to its
/// regions and the timer armed with a fresh timeslice for as long as it
/// runs; the time it used is recorded, and what it comes back with is dealt
/// with: a system call is served and answered, a fault is responded to, and
/// an expired timeslice or an interrupt leaves the process running. A
/// process for which the architecture cannot make room for the pending
/// call, and one that comes back with a stack pointer outside its stack,
/// has faulted. Whatever the architecture and the drivers do, the record
/// stays well formed, so the saved stack pointer stays in the stack of the
/// process.
pub fn run_process<
    A: UserspaceKernelBoundary,
    M: MemoryProtection,
    T: SchedulerTimer,
    D: Driver,
>(
    arch: &A,
    mpu: &mut M,
    timer: &mut T,
    timeslice_us: u32,
    drivers: &mut DriverTable<D>,
    process: &mut Process,
    state: &mut A::StoredState,
    response: FaultResponse,
) -> (outcome: StepOutcome)
    requires
        old(process).wf(),
    ensures
        final(process).wf(),
        final(drivers).numbers() == old(drivers).numbers(),
        final(drivers).limit() == old(drivers).limit(),
        outcome is Idle <==> !runnable(old(process)@),
        pass_result(old(process)@, final(process)@, outcome, response),
{
    let ghost before = process@;
    match process.next_call() {
        Some(call) => {
            let sp = process.sp();
            let remaining = process.remaining_stack();
            let answer = arch.set_process_function(sp, remaining, state, call);
            if !process.function_installed(answer) {
                let ghost marked = process@;
                let action = respond_to_fault(arch, process, state, response);
                proof {
                    let resumed = with_time(
                        with_sp(entered(before), process@.saved_sp),
                        process@.timeslice_used,
                    );
                    assert(marked == faulted(with_sp(entered(before), before.saved_sp)));
                    if !(action is Restarted) {
                        assert(process@.saved_sp == before.saved_sp);
                        assert(process@.timeslice_used == before.timeslice_used);
                        assert(marked == faulted(resumed));
                    } else {
                        assert(started_over(marked, process@.saved_sp) == started_over(
                            faulted(resumed),
                            process@.saved_sp,
                        ));
                    }
                }
                return StepOutcome::Fault(action);
            }
        },
        None => {},
    }
    match process.state() {
        State::Running => {},
        _ => {
            return StepOutcome::Idle;
        },
    }
    let regions = process.regions();
    mpu.configure(&regions);
    process.start_timeslice();
    timer.arm(timeslice_us);
    let (new_sp, reason) = arch.switch_to_process(process.sp(), state);
    let used_us = timer.disarm();
    mpu.disable();
    process.charge(used_us);
    let effective = process.switched_out(new_sp, reason);
    let ghost stopped = process@;
    assert(stopped == with_time(with_sp(entered(before), stopped.saved_sp), used_us));
    match effective {
        ContextSwitchReason::SyscallFired { syscall } => {
            let back = serve_syscall(process, drivers, syscall);
            deliver(arch, process.sp(), state, &back);
            proof {
                assert(process@.saved_sp == stopped.saved_sp);
                assert(process@.timeslice_used == stopped.timeslice_used);
            }
            StepOutcome::Syscall(syscall)
        },
        ContextSwitchReason::Fault => {
            let action = handle_fault(arch, process, state, response);
            proof {
                let resumed = with_time(
                    with_sp(entered(before), process@.saved_sp),
                    process@.timeslice_used,
                );
                if !(action is Restarted) {
                    assert(process@.saved_sp == stopped.saved_sp);
                    assert(process@.timeslice_used == stopped.timeslice_used);
                    assert(resumed == stopped);
                } else {
                    assert(started_over(faulted(stopped), process@.saved_sp) == started_over(
                        faulted(resumed),
                        process@.saved_sp,
                    ));
                }
            }
            StepOutcome::Fault(action)
        },
        ContextSwitchReason::TimesliceExpired => StepOutcome::TimesliceExpired,
        ContextSwitchReason::Interrupted => StepOutcome::Interrupted,
    }
}

} // verus!
