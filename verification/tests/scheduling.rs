use std::collections::VecDeque;

use kernel::boundary::{MemoryProtection, SchedulerTimer, UserspaceKernelBoundary};
use kernel::callback::CallbackId;
use kernel::capabilities::Capabilities;
use kernel::driver::{Driver, DriverTable};
use kernel::sched::{next_action, Kernel, LoopAction, LoopEnd};
use kernel::mem::{Access, AppSlice, Region};
use kernel::process::{
    FaultResponse, FunctionCall, FunctionCallSource, LoadError, MemoryLayout, Process, State,
};
use kernel::result::{
    AllowResult, CommandResult, SrvFactory, SubscribeResult, SyscallResult,
};
use kernel::returncode::ReturnCode;
use kernel::dispatch::{
    finish_restart, handle_fault, respond_to_fault, run_process, serve_allow, serve_subscribe,
    serve_syscall,
    FaultAction, StepOutcome, SyscallReturn,
};
use kernel::syscall::{arguments_to_syscall, ContextSwitchReason, Syscall};

const FLASH: usize = 0x0004_0000;
const ENTRY: usize = 0x0004_0100;
const CB: usize = 0x0004_0200;
const RAM: usize = 0x2000_0000;
const STACK: usize = 0x400;
const HEAP: usize = 0x800;
const GRANT: usize = 0x400;
const RAM_SIZE: usize = 0x2000;
const FRAME: usize = 32;
const PANIC: FaultResponse = FaultResponse::Panic;

fn layout_at(ram_start: usize) -> MemoryLayout {
    MemoryLayout {
        flash_start: FLASH,
        flash_size: 0x1000,
        ram_start,
        ram_size: RAM_SIZE,
        stack_size: STACK,
        heap_size: HEAP,
        grant_size: GRANT,
        entry_point: ENTRY,
    }
}

fn layout() -> MemoryLayout {
    layout_at(RAM)
}

/// What a simulated process does when it is next given the processor.
#[derive(Clone, Copy, Debug, PartialEq)]
enum Act {
    Trap(u8, usize, usize, usize, usize),
    Return,
    Fault,
    Interrupt,
    Spin,
    TrapAt(usize),
}

type Words = (usize, usize, usize, usize);

/// The saved state of a simulated process: the function it executes, the
/// functions it will return to, its return registers, and its script.
#[derive(Debug, Default)]
struct Saved {
    initialized: usize,
    stacks: Vec<(usize, usize)>,
    pc: usize,
    args: Words,
    returns: Vec<(usize, Words)>,
    regs: (u32, u32, u32, u32),
    script: VecDeque<Act>,
    ran: Vec<(usize, Words)>,
    results: Vec<(u32, u32, u32, u32)>,
}

fn scripted(script: &[Act]) -> Saved {
    Saved { script: script.iter().copied().collect(), ..Saved::default() }
}

/// A simulated architecture whose call frames take `FRAME` bytes of stack.
struct Machine;

impl Machine {
    fn store<R: SyscallResult>(state: &mut Saved, result: &R) {
        let (mut r0, mut r1, mut r2, mut r3) = state.regs;
        result.into_registers(&mut r0, &mut r1, &mut r2, &mut r3);
        state.regs = (r0, r1, r2, r3);
        state.results.push(state.regs);
    }
}

impl UserspaceKernelBoundary for Machine {
    type StoredState = Saved;

    fn initialize_process(
        &self,
        stack_base: usize,
        stack_size: usize,
        state: &mut Saved,
    ) -> Result<usize, ()> {
        if stack_size < FRAME {
            return Err(());
        }
        state.stacks.push((stack_base, stack_size));
        state.initialized += 1;
        state.pc = 0;
        state.args = (0, 0, 0, 0);
        state.returns.clear();
        state.regs = (0, 0, 0, 0);
        Ok(stack_base + stack_size - FRAME)
    }

    fn set_syscall_return_command(&self, _sp: usize, state: &mut Saved, value: &CommandResult) {
        Machine::store(state, value);
    }

    fn set_syscall_return_subscribe(
        &self,
        _sp: usize,
        state: &mut Saved,
        value: &SubscribeResult,
    ) {
        Machine::store(state, value);
    }

    fn set_syscall_return_allow(&self, _sp: usize, state: &mut Saved, value: &AllowResult) {
        Machine::store(state, value);
    }

    fn set_process_function(
        &self,
        stack_pointer: usize,
        remaining_stack_memory: usize,
        state: &mut Saved,
        callback: FunctionCall,
    ) -> Result<usize, usize> {
        if remaining_stack_memory < FRAME {
            return Err(stack_pointer);
        }
        state.returns.push((state.pc, state.args));
        state.pc = callback.pc;
        state.args =
            (callback.argument0, callback.argument1, callback.argument2, callback.argument3);
        Ok(stack_pointer - FRAME)
    }

    fn switch_to_process(
        &self,
        stack_pointer: usize,
        state: &mut Saved,
    ) -> (usize, ContextSwitchReason) {
        let mut sp = stack_pointer;
        state.ran.push((state.pc, state.args));
        loop {
            match state.script.pop_front() {
                Some(Act::Return) => {
                    let (pc, args) = state.returns.pop().unwrap();
                    state.pc = pc;
                    state.args = args;
                    sp += FRAME;
                    state.ran.push((pc, args));
                }
                Some(Act::Trap(class, r0, r1, r2, r3)) => {
                    state.regs = (r0 as u32, r1 as u32, r2 as u32, r3 as u32);
                    let syscall = arguments_to_syscall(class, r0, r1, r2, r3).unwrap();
                    return (sp, ContextSwitchReason::SyscallFired { syscall });
                }
                Some(Act::Fault) => return (sp, ContextSwitchReason::Fault),
                Some(Act::Interrupt) => return (sp, ContextSwitchReason::Interrupted),
                Some(Act::TrapAt(wild)) => {
                    return (wild, ContextSwitchReason::SyscallFired { syscall: Syscall::YIELD })
                }
                Some(Act::Spin) | None => return (sp, ContextSwitchReason::TimesliceExpired),
            }
        }
    }

    fn print_context(&self, stack_pointer: usize, state: &Saved) -> String {
        format!("sp={:#x} pc={:#x}", stack_pointer, state.pc)
    }
}

/// A simulated memory-protection unit that keeps a log of what it was told.
#[derive(Debug)]
struct Mpu {
    slots: usize,
    open: Option<Vec<Region>>,
    log: Vec<Option<Vec<Region>>>,
}

fn mpu(slots: usize) -> Mpu {
    Mpu { slots, open: None, log: Vec::new() }
}

impl MemoryProtection for Mpu {
    fn region_slots(&self) -> usize {
        self.slots
    }

    fn configure(&mut self, regions: &Vec<Region>) {
        self.open = Some(regions.clone());
        self.log.push(self.open.clone());
    }

    fn disable(&mut self) {
        self.open = None;
        self.log.push(None);
    }
}

/// A simulated timer: every stretch that a process runs takes `USED`
/// microseconds.
#[derive(Debug, Default)]
struct Clock {
    armed: Vec<u32>,
    running: bool,
}

const TIMESLICE: u32 = 10_000;
const USED: u32 = 250;

impl SchedulerTimer for Clock {
    fn arm(&mut self, timeslice_us: u32) {
        self.armed.push(timeslice_us);
        self.running = true;
    }

    fn disarm(&mut self) -> u32 {
        self.running = false;
        USED
    }
}

/// A driver that answers as it was told to and keeps a log of its calls.
#[derive(Debug)]
struct Probe {
    command: CommandResult,
    subscribe: SubscribeResult,
    allow_error: Option<ReturnCode>,
    commands: Vec<(usize, usize, usize, usize)>,
    subscribes: Vec<(usize, usize, usize, usize)>,
    allows: Vec<(usize, usize, usize, usize)>,
}

fn probe() -> Probe {
    Probe {
        command: CommandResult::Success,
        subscribe: SubscribeResult::Success,
        allow_error: None,
        commands: Vec::new(),
        subscribes: Vec::new(),
        allows: Vec::new(),
    }
}

impl Driver for Probe {
    fn command(&mut self, process_id: usize, sub: usize, a0: usize, a1: usize) -> CommandResult {
        self.commands.push((process_id, sub, a0, a1));
        self.command
    }

    fn subscribe(
        &mut self,
        process_id: usize,
        sub: usize,
        callback_ptr: usize,
        appdata: usize,
    ) -> SubscribeResult {
        self.subscribes.push((process_id, sub, callback_ptr, appdata));
        self.subscribe
    }

    fn allow(&mut self, process_id: usize, sub: usize, address: usize, length: usize)
        -> AllowResult {
        self.allows.push((process_id, sub, address, length));
        match self.allow_error {
            None => AllowResult::Success(SrvFactory::success_allow(AppSlice::empty())),
            Some(error) => AllowResult::Failure(SrvFactory::failure_allow(
                error,
                AppSlice::new(address, length),
            )),
        }
    }
}

fn table(drivers: Vec<(usize, Probe)>) -> DriverTable<Probe> {
    let mut table = DriverTable::new(8);
    for (number, driver) in drivers {
        assert!(table.register(number, driver).is_ok());
    }
    table
}

type Board = Kernel<Machine, Mpu, Clock, Probe>;

fn kernel_with(
    drivers: Vec<(usize, Probe)>,
    response: FaultResponse,
    scripts: &[&[Act]],
) -> (Board, Capabilities) {
    let (mut kernel, caps) =
        Kernel::new(Machine, mpu(8), Clock::default(), TIMESLICE, table(drivers), 4, response);
    for (n, script) in scripts.iter().enumerate() {
        let loaded = kernel.load_process(
            layout_at(RAM + n * 0x1_0000),
            scripted(script),
            4,
            4,
            &caps.process_management,
        );
        assert_eq!(loaded, Ok(n));
    }
    (kernel, caps)
}

fn driver_of(kernel: &Board, number: usize) -> &Probe {
    let at = kernel.drivers().lookup(number).unwrap();
    kernel.drivers().driver(at)
}

fn slot(driver_num: usize, subscribe_num: usize) -> CallbackId {
    CallbackId { driver_num, subscribe_num }
}

#[test]
fn command_success_reaches_the_registers() {
    let mut driver = probe();
    driver.command = CommandResult::SuccessU32(SrvFactory::success_u32(7));
    let (mut kernel, caps) =
        kernel_with(vec![(1, driver)], FaultResponse::Panic, &[&[Act::Trap(2, 1, 0, 42, 0)]]);
    let ran = kernel.step(&caps.main_loop);
    assert_eq!(
        ran,
        Some((
            0,
            StepOutcome::Syscall(Syscall::COMMAND {
                driver_number: 1,
                subdriver_number: 0,
                arg0: 42,
                arg1: 0
            })
        ))
    );
    assert_eq!(kernel.stored_state(0).regs, (129, 7, 0, 0));
    assert_eq!(kernel.stored_state(0).results, vec![(129, 7, 0, 0)]);
    assert_eq!(driver_of(&kernel, 1).commands, vec![(0, 0, 42, 0)]);
    assert_eq!(kernel.process(0).state(), State::Running);
}

#[test]
fn command_failure_reaches_the_registers() {
    let mut driver = probe();
    driver.command = CommandResult::Failure(SrvFactory::failure(ReturnCode::EBUSY));
    let (mut kernel, caps) =
        kernel_with(vec![(1, driver)], FaultResponse::Panic, &[&[Act::Trap(2, 1, 0, 42, 0)]]);
    kernel.step(&caps.main_loop);
    let regs = kernel.stored_state(0).regs;
    assert_eq!((regs.0, regs.1), (0, 2));
}

#[test]
fn command_for_an_unknown_driver() {
    let (mut kernel, caps) =
        kernel_with(vec![(1, probe())], FaultResponse::Panic, &[&[Act::Trap(2, 9, 0, 42, 0)]]);
    kernel.step(&caps.main_loop);
    let regs = kernel.stored_state(0).regs;
    assert_eq!((regs.0, regs.1), (0, 11));
    assert!(driver_of(&kernel, 1).commands.is_empty());
}

#[test]
fn allow_swaps_buffers() {
    let first = RAM + STACK;
    let second = RAM + STACK + 0x100;
    let third = RAM + STACK + 0x200;
    let script = [
        Act::Trap(3, 2, 3, first, 32),
        Act::Trap(3, 2, 3, second, 64),
        Act::Trap(3, 2, 3, third, 16),
    ];
    let (mut kernel, caps) = kernel_with(vec![(2, probe())], FaultResponse::Panic, &[&script]);
    for _ in 0..3 {
        assert!(kernel.step(&caps.main_loop).is_some());
    }
    let results = &kernel.stored_state(0).results;
    assert_eq!(results[0], (130, 0, 0, 32));
    assert_eq!(results[1], (130, first as u32, 32, 64));
    assert_eq!(results[2], (130, second as u32, 64, 16));
    assert_eq!(kernel.process(0).shared(slot(2, 3)), AppSlice::new(third, 16));
    assert_eq!(
        driver_of(&kernel, 2).allows,
        vec![(0, 3, first, 32), (0, 3, second, 64), (0, 3, third, 16)]
    );
}

#[test]
fn allow_of_no_bytes_returns_the_prior_range() {
    let first = RAM + STACK;
    let script = [
        Act::Trap(3, 2, 3, first, 0),
        Act::Trap(3, 2, 3, 0, 0),
        Act::Trap(3, 2, 3, first, 8),
        Act::Trap(3, 2, 3, 0, 0),
    ];
    let (mut kernel, caps) = kernel_with(vec![(2, probe())], FaultResponse::Panic, &[&script]);
    for _ in 0..4 {
        assert!(kernel.step(&caps.main_loop).is_some());
    }
    let results = &kernel.stored_state(0).results;
    assert_eq!(results[0], (130, 0, 0, 0));
    assert_eq!(results[1], (130, first as u32, 0, 0));
    assert_eq!(results[2], (130, 0, 0, 8));
    assert_eq!(results[3], (130, first as u32, 8, 0));
}

#[test]
fn allow_across_the_end_of_ram_is_invalid() {
    let end = RAM + STACK + HEAP;
    let script = [
        Act::Trap(3, 2, 3, end - 63, 64),
        Act::Trap(3, 2, 3, RAM + RAM_SIZE - 63, 64),
        Act::Trap(3, 2, 3, end - 64, 64),
    ];
    let (mut kernel, caps) = kernel_with(vec![(2, probe())], FaultResponse::Panic, &[&script]);
    for _ in 0..3 {
        assert!(kernel.step(&caps.main_loop).is_some());
    }
    let results = &kernel.stored_state(0).results;
    assert_eq!(results[0], (2, 6, (end - 63) as u32, 64));
    assert_eq!(results[1], (2, 6, (RAM + RAM_SIZE - 63) as u32, 64));
    assert_eq!(results[2], (130, 0, 0, 64));
    assert_eq!(driver_of(&kernel, 2).allows, vec![(0, 3, end - 64, 64)]);
}

#[test]
fn allow_refused_by_the_driver_changes_nothing() {
    let first = RAM + STACK;
    let mut driver = probe();
    driver.allow_error = Some(ReturnCode::ENOSUPPORT);
    let script = [Act::Trap(3, 2, 3, first, 32)];
    let (mut kernel, caps) = kernel_with(vec![(2, driver)], FaultResponse::Panic, &[&script]);
    kernel.step(&caps.main_loop);
    assert_eq!(kernel.stored_state(0).regs, (2, 10, first as u32, 32));
    assert_eq!(kernel.process(0).shared(slot(2, 3)), AppSlice::empty());
}

#[test]
fn allow_for_an_unknown_driver() {
    let first = RAM + STACK;
    let script = [Act::Trap(3, 8, 3, first, 32)];
    let (mut kernel, caps) = kernel_with(vec![(2, probe())], FaultResponse::Panic, &[&script]);
    kernel.step(&caps.main_loop);
    assert_eq!(kernel.stored_state(0).regs, (2, 11, first as u32, 32));
    assert_eq!(kernel.process(0).shared(slot(8, 3)), AppSlice::empty());
}

#[test]
fn subscribe_then_yield_runs_the_callback() {
    let script = [
        Act::Trap(1, 5, 0, CB, 0xDEAD_BEEF),
        Act::Trap(0, 0, 0, 0, 0),
        Act::Return,
        Act::Spin,
    ];
    let (mut kernel, caps) = kernel_with(vec![(5, probe())], FaultResponse::Panic, &[&script]);
    assert!(matches!(kernel.step(&caps.main_loop), Some((0, StepOutcome::Syscall(_)))));
    assert_eq!(kernel.stored_state(0).regs.0, 128);
    assert_eq!(kernel.step(&caps.main_loop), Some((0, StepOutcome::Syscall(Syscall::YIELD))));
    assert_eq!(kernel.process(0).state(), State::Yielded);
    let sp_at_yield = kernel.process(0).sp();
    assert_eq!(kernel.step(&caps.main_loop), None);

    assert!(kernel.post_event(0, slot(5, 0), 1, 2, 3));
    assert_eq!(kernel.process(0).state(), State::Yielded);
    assert_eq!(kernel.step(&caps.main_loop), Some((0, StepOutcome::TimesliceExpired)));
    let ran = &kernel.stored_state(0).ran;
    let start = (ENTRY, (FLASH, RAM, RAM_SIZE, RAM + STACK + HEAP));
    assert_eq!(
        ran,
        &vec![start, start, (CB, (1, 2, 3, 0xDEAD_BEEF)), start]
    );
    assert_eq!(kernel.process(0).sp(), sp_at_yield);
    assert_eq!(kernel.process(0).state(), State::Running);
    assert_eq!(driver_of(&kernel, 5).subscribes, vec![(0, 0, CB, 0xDEAD_BEEF)]);
}

#[test]
fn a_callback_posted_inside_the_kernel_waits_for_the_next_pass() {
    let script = [Act::Trap(1, 5, 0, CB, 9), Act::Trap(0, 0, 0, 0, 0), Act::Spin];
    let (mut kernel, caps) = kernel_with(vec![(5, probe())], FaultResponse::Panic, &[&script]);
    kernel.step(&caps.main_loop);
    assert!(kernel.post_event(0, slot(5, 0), 1, 2, 3));
    assert_eq!(kernel.step(&caps.main_loop), Some((0, StepOutcome::Syscall(Syscall::YIELD))));
    assert_eq!(kernel.process(0).state(), State::Yielded);
    assert_eq!(kernel.process(0).pending(), 1);
    assert_eq!(kernel.stored_state(0).ran.len(), 2);
    assert_eq!(kernel.step(&caps.main_loop), Some((0, StepOutcome::TimesliceExpired)));
    assert_eq!(kernel.stored_state(0).ran.last(), Some(&(CB, (1, 2, 3, 9))));
}

#[test]
fn subscribe_with_a_pointer_outside_flash_never_reaches_the_driver() {
    let script = [Act::Trap(1, 5, 0, RAM + 8, 1)];
    let (mut kernel, caps) = kernel_with(vec![(5, probe())], FaultResponse::Panic, &[&script]);
    kernel.step(&caps.main_loop);
    let regs = kernel.stored_state(0).regs;
    assert_eq!((regs.0, regs.1), (0, 6));
    assert!(driver_of(&kernel, 5).subscribes.is_empty());
    assert!(!kernel.post_event(0, slot(5, 0), 1, 2, 3));
}

#[test]
fn subscribe_refused_by_the_driver_or_without_driver() {
    let mut driver = probe();
    driver.subscribe = SubscribeResult::Failure(SrvFactory::failure(ReturnCode::ERESERVE));
    let script = [Act::Trap(1, 5, 0, CB, 1), Act::Trap(1, 6, 0, CB, 1)];
    let (mut kernel, caps) = kernel_with(vec![(5, driver)], FaultResponse::Panic, &[&script]);
    kernel.step(&caps.main_loop);
    kernel.step(&caps.main_loop);
    let results = &kernel.stored_state(0).results;
    assert_eq!((results[0].0, results[0].1), (0, 5));
    assert_eq!((results[1].0, results[1].1), (0, 11));
    assert!(!kernel.post_event(0, slot(5, 0), 1, 2, 3));
    assert!(!kernel.post_event(0, slot(6, 0), 1, 2, 3));
}

#[test]
fn resubscribe_cancels_queued_callbacks() {
    let other = CB + 0x10;
    let script = [
        Act::Trap(1, 5, 0, CB, 1),
        Act::Trap(1, 5, 0, other, 2),
        Act::Trap(0, 0, 0, 0, 0),
        Act::Spin,
    ];
    let (mut kernel, caps) = kernel_with(vec![(5, probe())], FaultResponse::Panic, &[&script]);
    kernel.step(&caps.main_loop);
    assert!(kernel.post_event(0, slot(5, 0), 10, 0, 0));
    assert!(kernel.post_event(0, slot(5, 0), 11, 0, 0));
    assert_eq!(kernel.process(0).pending(), 2);
    kernel.step(&caps.main_loop);
    assert_eq!(kernel.process(0).pending(), 0);
    assert!(kernel.post_event(0, slot(5, 0), 12, 0, 0));
    kernel.step(&caps.main_loop);
    kernel.step(&caps.main_loop);
    let ran = &kernel.stored_state(0).ran;
    assert_eq!(ran.last(), Some(&(other, (12, 0, 0, 2))));
    assert!(ran.iter().all(|(pc, _)| *pc != CB));
}

#[test]
fn callbacks_come_in_the_order_of_their_events() {
    let script = [
        Act::Trap(1, 5, 0, CB, 1),
        Act::Trap(0, 0, 0, 0, 0),
        Act::Trap(0, 0, 0, 0, 0),
        Act::Trap(0, 0, 0, 0, 0),
    ];
    let (mut kernel, caps) = kernel_with(vec![(5, probe())], FaultResponse::Panic, &[&script]);
    kernel.step(&caps.main_loop);
    kernel.step(&caps.main_loop);
    for n in 0..3 {
        assert!(kernel.post_event(0, slot(5, 0), 100 + n, n, 0));
    }
    assert_eq!(kernel.kernel_loop(10, &caps.main_loop), LoopEnd::BudgetSpent);
    let ran: Vec<usize> = kernel
        .stored_state(0)
        .ran
        .iter()
        .filter(|(pc, _)| *pc == CB)
        .map(|(_, args)| args.0)
        .collect();
    assert_eq!(ran[..3], [100, 101, 102]);
}

#[test]
fn timeslice_expiry_requeues_without_a_result() {
    let (mut kernel, caps) = kernel_with(
        vec![(1, probe())],
        FaultResponse::Panic,
        &[&[Act::Spin, Act::Spin], &[Act::Spin], &[Act::Spin]],
    );
    assert_eq!(kernel.step(&caps.main_loop), Some((0, StepOutcome::TimesliceExpired)));
    assert_eq!(kernel.process(0).state(), State::Running);
    assert_eq!(kernel.step(&caps.main_loop), Some((1, StepOutcome::TimesliceExpired)));
    assert_eq!(kernel.step(&caps.main_loop), Some((2, StepOutcome::TimesliceExpired)));
    assert_eq!(kernel.step(&caps.main_loop), Some((0, StepOutcome::TimesliceExpired)));
    assert!(kernel.stored_state(0).results.is_empty());
    assert_eq!(kernel.stored_state(0).regs, (0, 0, 0, 0));
    assert_eq!(kernel.stored_state(0).ran.len(), 2);
}

#[test]
fn interrupts_leave_the_process_running() {
    let (mut kernel, caps) =
        kernel_with(vec![], FaultResponse::Panic, &[&[Act::Interrupt, Act::Interrupt]]);
    assert_eq!(kernel.step(&caps.main_loop), Some((0, StepOutcome::Interrupted)));
    assert_eq!(kernel.process(0).state(), State::Running);
    assert_eq!(kernel.step(&caps.main_loop), Some((0, StepOutcome::Interrupted)));
    assert!(kernel.stored_state(0).results.is_empty());
}

#[test]
fn round_robin_skips_processes_that_wait() {
    let yields = [Act::Trap(0, 0, 0, 0, 0)];
    let (mut kernel, caps) = kernel_with(
        vec![],
        FaultResponse::Panic,
        &[&[Act::Spin, Act::Spin, Act::Spin], &yields, &[Act::Spin, Act::Spin, Act::Spin]],
    );
    let mut order = Vec::new();
    for _ in 0..6 {
        order.push(kernel.step(&caps.main_loop).unwrap().0);
    }
    assert_eq!(order, vec![0, 1, 2, 0, 2, 0]);
    assert_eq!(kernel.next_runnable(), Some(2));
}

#[test]
fn the_loop_ends_idle_when_all_wait() {
    let yields = [Act::Trap(0, 0, 0, 0, 0)];
    let (mut kernel, caps) = kernel_with(vec![], FaultResponse::Panic, &[&yields, &yields]);
    assert_eq!(kernel.kernel_loop(100, &caps.main_loop), LoopEnd::Idle);
    assert_eq!(kernel.process(0).state(), State::Yielded);
    assert_eq!(kernel.process(1).state(), State::Yielded);
    assert_eq!(kernel.step(&caps.main_loop), None);
    assert_eq!(kernel.next_runnable(), None);
}

#[test]
fn the_loop_respects_its_budget() {
    let (mut kernel, caps) = kernel_with(vec![], FaultResponse::Panic, &[&[]]);
    assert_eq!(kernel.kernel_loop(0, &caps.main_loop), LoopEnd::BudgetSpent);
    assert!(kernel.stored_state(0).ran.is_empty());
    assert_eq!(kernel.kernel_loop(3, &caps.main_loop), LoopEnd::BudgetSpent);
    assert_eq!(kernel.stored_state(0).ran.len(), 3);
    let (mut empty, caps): (Board, Capabilities) =
        Kernel::new(Machine, mpu(8), Clock::default(), TIMESLICE, table(vec![]), 4, PANIC);
    assert_eq!(empty.kernel_loop(0, &caps.main_loop), LoopEnd::Idle);
    assert_eq!(empty.step(&caps.main_loop), None);
    assert_eq!(empty.process_count(), 0);
}

#[test]
fn fault_with_restart_starts_the_process_over() {
    let script = [
        Act::Trap(1, 5, 0, CB, 1),
        Act::Fault,
        Act::Spin,
    ];
    let (mut kernel, caps) = kernel_with(vec![(5, probe())], FaultResponse::Restart, &[&script]);
    kernel.step(&caps.main_loop);
    assert!(kernel.post_event(0, slot(5, 0), 1, 2, 3));
    assert!(kernel.post_event(0, slot(5, 0), 4, 5, 6));
    assert_eq!(kernel.step(&caps.main_loop), Some((0, StepOutcome::Fault(FaultAction::Restarted))));
    assert_eq!(kernel.process(0).state(), State::Unstarted);
    assert_eq!(kernel.process(0).pending(), 1);
    assert_eq!(kernel.process(0).fault_count(), 1);
    assert_eq!(kernel.process(0).sp(), RAM + STACK - FRAME);
    assert_eq!(kernel.stored_state(0).initialized, 2);
    assert_eq!(kernel.stored_state(0).stacks, vec![(RAM, STACK), (RAM, STACK)]);
    assert!(!kernel.post_event(0, slot(5, 0), 1, 2, 3));
    assert_eq!(kernel.step(&caps.main_loop), Some((0, StepOutcome::TimesliceExpired)));
    assert_eq!(kernel.process(0).state(), State::Running);
    let start = (ENTRY, (FLASH, RAM, RAM_SIZE, RAM + STACK + HEAP));
    assert_eq!(kernel.stored_state(0).ran.last(), Some(&start));
}

#[test]
fn fault_with_stop_terminates_the_process() {
    let (mut kernel, caps) = kernel_with(
        vec![],
        FaultResponse::Stop,
        &[&[Act::Fault], &[Act::Spin, Act::Spin]],
    );
    assert_eq!(kernel.step(&caps.main_loop), Some((0, StepOutcome::Fault(FaultAction::Stopped))));
    assert_eq!(kernel.process(0).state(), State::Terminated);
    assert_eq!(kernel.process(0).fault_count(), 1);
    assert_eq!(kernel.step(&caps.main_loop), Some((1, StepOutcome::TimesliceExpired)));
    assert_eq!(kernel.step(&caps.main_loop), Some((1, StepOutcome::TimesliceExpired)));
}

#[test]
fn fault_with_panic_stops_the_loop() {
    let (mut kernel, caps) = kernel_with(
        vec![],
        FaultResponse::Panic,
        &[&[Act::Spin, Act::Spin], &[Act::Fault]],
    );
    assert_eq!(kernel.kernel_loop(10, &caps.main_loop), LoopEnd::Panic(1));
    assert_eq!(kernel.process(1).state(), State::StoppedFaulted);
    assert_eq!(kernel.process(0).state(), State::Running);
}

#[test]
fn a_wild_stack_pointer_is_a_fault() {
    let (mut kernel, caps) =
        kernel_with(vec![], FaultResponse::Stop, &[&[Act::TrapAt(RAM + STACK + 4)]]);
    assert_eq!(kernel.step(&caps.main_loop), Some((0, StepOutcome::Fault(FaultAction::Stopped))));
    assert_eq!(kernel.process(0).sp(), RAM + STACK - 2 * FRAME);
    assert_eq!(kernel.process(0).state(), State::Terminated);
}

#[test]
fn the_saved_stack_pointer_stays_in_the_stack() {
    let script = [
        Act::Trap(1, 5, 0, CB, 1),
        Act::Trap(0, 0, 0, 0, 0),
        Act::TrapAt(RAM),
        Act::TrapAt(RAM - 1),
    ];
    let (mut kernel, caps) = kernel_with(vec![(5, probe())], FaultResponse::Restart, &[&script]);
    for round in 0..8 {
        if round % 2 == 0 {
            kernel.post_event(0, slot(5, 0), round, 0, 0);
        }
        kernel.step(&caps.main_loop);
        let sp = kernel.process(0).sp();
        assert!(RAM <= sp && sp < RAM + STACK);
    }
}

#[test]
fn no_stack_left_for_a_callback_is_a_fault() {
    let script = [Act::Trap(1, 5, 0, CB, 1), Act::TrapAt(RAM)];
    let (mut kernel, caps) = kernel_with(vec![(5, probe())], FaultResponse::Stop, &[&script]);
    kernel.step(&caps.main_loop);
    assert_eq!(kernel.step(&caps.main_loop), Some((0, StepOutcome::Syscall(Syscall::YIELD))));
    assert_eq!(kernel.process(0).sp(), RAM);
    assert_eq!(kernel.process(0).remaining_stack(), 0);
    assert!(kernel.post_event(0, slot(5, 0), 1, 2, 3));
    assert_eq!(kernel.step(&caps.main_loop), Some((0, StepOutcome::Fault(FaultAction::Stopped))));
    assert_eq!(kernel.stored_state(0).ran.len(), 2);
    assert_eq!(kernel.process(0).fault_count(), 1);
    assert_eq!(kernel.process(0).state(), State::Terminated);
}

#[test]
fn set_process_function_without_stack_refuses_and_keeps_the_state() {
    let mut state = scripted(&[Act::Spin]);
    state.pc = 0x44;
    state.args = (1, 2, 3, 4);
    let call = FunctionCall {
        source: FunctionCallSource::Kernel,
        argument0: 5,
        argument1: 6,
        argument2: 7,
        argument3: 8,
        pc: CB,
    };
    let outcome = Machine.set_process_function(RAM, 0, &mut state, call);
    assert_eq!(outcome, Err(RAM));
    assert_eq!(state.pc, 0x44);
    assert_eq!(state.args, (1, 2, 3, 4));
    assert!(state.returns.is_empty());
    assert_eq!(Machine.set_process_function(RAM + 31, 31, &mut state, call), Err(RAM + 31));
    assert_eq!(Machine.set_process_function(RAM + 32, 32, &mut state, call), Ok(RAM));
    assert_eq!(state.pc, CB);
    assert_eq!(Machine.print_context(RAM, &state), "sp=0x20000000 pc=0x40200");
}

#[test]
fn memop_is_served_by_the_kernel() {
    let script = [Act::Trap(4, 0, RAM + STACK + HEAP + 0x40, 0, 0), Act::Trap(4, 2, 0, 0, 0)];
    let (mut kernel, caps) = kernel_with(vec![], FaultResponse::Panic, &[&script]);
    kernel.step(&caps.main_loop);
    assert_eq!(kernel.stored_state(0).regs.0, 128);
    assert_eq!(kernel.process(0).app_break(), RAM + STACK + HEAP + 0x40);
    kernel.step(&caps.main_loop);
    assert_eq!(kernel.stored_state(0).regs, (129, RAM as u32, 0, 0));
}

#[test]
fn loading_processes() {
    let (mut kernel, caps): (Board, Capabilities) =
        Kernel::new(Machine, mpu(2), Clock::default(), TIMESLICE, table(vec![]), 2, PANIC);
    assert_eq!(kernel.mpu_slots(), 2);
    let mut bad = layout();
    bad.stack_size = 0;
    assert_eq!(
        kernel.load_process(bad, Saved::default(), 4, 4, &caps.process_management),
        Err(LoadError::EmptyStack)
    );
    let mut small = layout();
    small.stack_size = FRAME - 1;
    assert_eq!(
        kernel.load_process(small, Saved::default(), 4, 4, &caps.process_management),
        Err(LoadError::InitializationFailed)
    );
    assert_eq!(
        kernel.load_process(layout(), Saved::default(), 0, 4, &caps.process_management),
        Err(LoadError::NoTaskRoom)
    );
    assert_eq!(kernel.process_count(), 0);
    assert_eq!(
        kernel.load_process(layout(), Saved::default(), 4, 4, &caps.process_management),
        Ok(0)
    );
    assert_eq!(
        kernel.load_process(layout(), Saved::default(), 4, 4, &caps.process_management),
        Ok(1)
    );
    assert_eq!(
        kernel.load_process(layout(), Saved::default(), 4, 4, &caps.process_management),
        Err(LoadError::NoProcessSlot)
    );
    assert_eq!(kernel.process_count(), 2);
    assert_eq!(kernel.process(1).id(), 1);
    assert_eq!(kernel.process(1).sp(), RAM + STACK - FRAME);
    assert_eq!(kernel.process(1).state(), State::Unstarted);
    assert_eq!(kernel.stored_state(1).initialized, 1);
    assert_eq!(kernel.stored_state(1).stacks, vec![(RAM, STACK)]);
}

#[test]
fn an_architecture_that_answers_with_a_bad_stack_pointer() {
    struct Off;
    impl UserspaceKernelBoundary for Off {
        type StoredState = ();
        fn initialize_process(&self, base: usize, size: usize, _s: &mut ()) -> Result<usize, ()> {
            Ok(base + size)
        }
        fn set_syscall_return_command(&self, _sp: usize, _s: &mut (), _v: &CommandResult) {}
        fn set_syscall_return_subscribe(&self, _sp: usize, _s: &mut (), _v: &SubscribeResult) {}
        fn set_syscall_return_allow(&self, _sp: usize, _s: &mut (), _v: &AllowResult) {}
        fn set_process_function(
            &self,
            sp: usize,
            _remaining: usize,
            _s: &mut (),
            _call: FunctionCall,
        ) -> Result<usize, usize> {
            Err(sp)
        }
        fn switch_to_process(&self, sp: usize, _s: &mut ()) -> (usize, ContextSwitchReason) {
            (sp, ContextSwitchReason::Fault)
        }
        fn print_context(&self, _sp: usize, _s: &()) -> String {
            String::new()
        }
    }
    let (mut kernel, caps): (Kernel<Off, Mpu, Clock, Probe>, Capabilities) =
        Kernel::new(Off, mpu(8), Clock::default(), TIMESLICE, table(vec![]), 2, PANIC);
    assert_eq!(
        kernel.load_process(layout(), (), 4, 4, &caps.process_management),
        Err(LoadError::BadStackPointer)
    );
    assert_eq!(kernel.process_count(), 0);
}

#[test]
fn events_for_a_process_that_is_not_there() {
    let (mut kernel, caps) = kernel_with(vec![], FaultResponse::Panic, &[&[]]);
    assert!(!kernel.post_event(1, slot(5, 0), 1, 2, 3));
    assert!(!kernel.post_event(usize::MAX, slot(5, 0), 1, 2, 3));
}

#[test]
fn driver_numbers_are_registered_once() {
    let mut table: DriverTable<Probe> = DriverTable::new(2);
    assert_eq!(table.len(), 0);
    assert_eq!(table.lookup(1), None);
    assert!(table.register(1, probe()).is_ok());
    assert!(table.register(1, probe()).is_err());
    assert!(table.register(7, probe()).is_ok());
    assert!(table.register(8, probe()).is_err());
    assert_eq!(table.len(), 2);
    assert_eq!(table.lookup(1), Some(0));
    assert_eq!(table.lookup(7), Some(1));
    assert_eq!(table.lookup(8), None);
}

#[test]
fn the_table_routes_by_driver_number() {
    let mut first = probe();
    first.command = CommandResult::SuccessU32(SrvFactory::success_u32(1));
    let mut second = probe();
    second.command = CommandResult::SuccessU32(SrvFactory::success_u32(2));
    let mut table = table(vec![(10, first), (20, second)]);
    assert_eq!(
        table.command(20, 3, 4, 5, 6),
        CommandResult::SuccessU32(SrvFactory::success_u32(2))
    );
    assert_eq!(
        table.command(10, 3, 4, 5, 6),
        CommandResult::SuccessU32(SrvFactory::success_u32(1))
    );
    assert_eq!(
        table.command(30, 3, 4, 5, 6),
        CommandResult::Failure(SrvFactory::failure(ReturnCode::ENODEVICE))
    );
    assert_eq!(
        table.subscribe(30, 3, 4, 5, 6),
        SubscribeResult::Failure(SrvFactory::failure(ReturnCode::ENODEVICE))
    );
    assert_eq!(
        table.allow(30, 3, 4, 5, 6),
        AllowResult::FailureRaw(SrvFactory::failure_allow_raw(ReturnCode::ENODEVICE, 5, 6))
    );
    assert_eq!(table.subscribe(10, 3, 4, 5, 6), SubscribeResult::Success);
    assert_eq!(table.driver(0).commands, vec![(3, 4, 5, 6)]);
    assert_eq!(table.driver(0).subscribes, vec![(3, 4, 5, 6)]);
    assert_eq!(table.driver(1).commands, vec![(3, 4, 5, 6)]);
}

#[test]
fn serving_calls_on_a_single_process() {
    let mut process = Process::create(4, layout(), RAM + STACK - FRAME, 4, 4).unwrap();
    process.next_call();
    process.function_installed(Ok(RAM + STACK - 2 * FRAME));
    let mut drivers = table(vec![(5, probe())]);
    assert_eq!(
        serve_subscribe(&mut process, &mut drivers, 5, 1, CB, 7),
        SubscribeResult::Success
    );
    assert_eq!(
        serve_subscribe(&mut process, &mut drivers, 5, 1, 4, 7),
        SubscribeResult::Failure(SrvFactory::failure(ReturnCode::EINVAL))
    );
    assert_eq!(
        serve_allow(&mut process, &mut drivers, 5, 1, RAM, 8),
        AllowResult::Success(SrvFactory::success_allow(AppSlice::empty()))
    );
    assert_eq!(
        serve_allow(&mut process, &mut drivers, 5, 1, RAM - 1, 8),
        AllowResult::FailureRaw(SrvFactory::failure_allow_raw(
            ReturnCode::EINVAL,
            (RAM - 1) as u32,
            8
        ))
    );
    assert_eq!(
        serve_allow(&mut process, &mut drivers, 6, 1, RAM, 8),
        AllowResult::Failure(SrvFactory::failure_allow(
            ReturnCode::ENODEVICE,
            AppSlice::new(RAM, 8)
        ))
    );
    assert_eq!(
        serve_syscall(&mut process, &mut drivers, Syscall::MEMOP { operand: 4, arg0: 0 }),
        SyscallReturn::Command(CommandResult::SuccessU32(SrvFactory::success_u32(FLASH as u32)))
    );
    assert_eq!(
        serve_syscall(&mut process, &mut drivers, Syscall::YIELD),
        SyscallReturn::Yielded
    );
    assert_eq!(process.state(), State::Yielded);
    assert_eq!(drivers.driver(0).subscribes, vec![(4, 1, CB, 7)]);
    assert_eq!(drivers.driver(0).allows, vec![(4, 1, RAM, 8)]);
}

#[test]
fn fault_responses_on_a_single_process() {
    let make = || {
        let mut process = Process::create(0, layout(), RAM + STACK - FRAME, 4, 4).unwrap();
        process.next_call();
        process.function_installed(Ok(RAM + STACK - 2 * FRAME));
        process
    };
    let mut state = Saved::default();
    let mut process = make();
    assert_eq!(
        handle_fault(&Machine, &mut process, &mut state, FaultResponse::Panic),
        FaultAction::Panic
    );
    assert_eq!(process.state(), State::StoppedFaulted);
    let mut process = make();
    assert_eq!(
        handle_fault(&Machine, &mut process, &mut state, FaultResponse::Stop),
        FaultAction::Stopped
    );
    assert_eq!(process.state(), State::Terminated);
    let mut process = make();
    assert_eq!(
        handle_fault(&Machine, &mut process, &mut state, FaultResponse::Restart),
        FaultAction::Restarted
    );
    assert_eq!(process.state(), State::Unstarted);
    assert_eq!(process.fault_count(), 1);
    let mut process = make();
    process.set_fault_state();
    assert_eq!(
        respond_to_fault(&Machine, &mut process, &mut state, FaultResponse::Restart),
        FaultAction::Restarted
    );
    assert_eq!(process.fault_count(), 1);
    let mut process = make();
    assert_eq!(finish_restart(&mut process, Err(())), FaultAction::Stopped);
    assert_eq!(process.state(), State::Terminated);
    let mut process = make();
    assert_eq!(finish_restart(&mut process, Ok(RAM + STACK)), FaultAction::Stopped);
    let mut process = make();
    assert_eq!(finish_restart(&mut process, Ok(RAM)), FaultAction::Restarted);
    assert_eq!(process.sp(), RAM);
}

#[test]
fn a_pass_over_a_process_that_waits_is_idle() {
    let mut process = Process::create(0, layout(), RAM + STACK - FRAME, 4, 4).unwrap();
    let mut drivers = table(vec![]);
    let mut unit = mpu(8);
    let mut clock = Clock::default();
    let mut state = scripted(&[Act::Trap(0, 0, 0, 0, 0)]);
    let response = FaultResponse::Panic;
    let first = run_process(
        &Machine,
        &mut unit,
        &mut clock,
        TIMESLICE,
        &mut drivers,
        &mut process,
        &mut state,
        response,
    );
    assert_eq!(first, StepOutcome::Syscall(Syscall::YIELD));
    assert_eq!(process.timeslice_used(), USED);
    let second = run_process(
        &Machine,
        &mut unit,
        &mut clock,
        TIMESLICE,
        &mut drivers,
        &mut process,
        &mut state,
        response,
    );
    assert_eq!(second, StepOutcome::Idle);
    assert_eq!(state.ran.len(), 1);
    assert_eq!(unit.log.len(), 2);
    assert_eq!(clock.armed, vec![TIMESLICE]);
}

#[test]
fn the_memory_protection_unit_is_open_only_while_a_process_runs() {
    let script = [Act::Trap(4, 0, RAM + STACK + HEAP + 0x40, 0, 0), Act::Spin];
    let (mut kernel, caps) = kernel_with(vec![], FaultResponse::Panic, &[&script]);
    kernel.step(&caps.main_loop);
    kernel.step(&caps.main_loop);
    let flash = Region { start: FLASH, size: 0x1000, access: Access::ReadExecute };
    let ram = |size: usize| Region { start: RAM, size, access: Access::ReadWrite };
    assert_eq!(
        kernel.mpu().log,
        vec![
            Some(vec![flash, ram(STACK + HEAP)]),
            None,
            Some(vec![flash, ram(STACK + HEAP + 0x40)]),
            None,
        ]
    );
    assert_eq!(kernel.mpu().open, None);
    assert_eq!(kernel.process(0).regions(), vec![flash, ram(STACK + HEAP + 0x40)]);
    assert_eq!(kernel.arch().print_context(0x10, kernel.stored_state(0)), "sp=0x10 pc=0x40100");
}

#[test]
fn a_unit_with_too_few_regions_is_found_at_load() {
    let (mut kernel, caps): (Board, Capabilities) =
        Kernel::new(Machine, mpu(1), Clock::default(), TIMESLICE, table(vec![]), 2, PANIC);
    assert_eq!(
        kernel.load_process(layout(), Saved::default(), 4, 4, &caps.process_management),
        Err(LoadError::TooManyRegions)
    );
    let mut bad = layout();
    bad.stack_size = 0;
    assert_eq!(
        kernel.load_process(bad, Saved::default(), 4, 4, &caps.process_management),
        Err(LoadError::EmptyStack)
    );
    assert_eq!(kernel.process_count(), 0);
}

#[test]
fn an_unknown_driver_is_reported_before_a_full_table() {
    let mut process = Process::create(4, layout(), RAM + STACK - FRAME, 4, 1).unwrap();
    process.next_call();
    process.function_installed(Ok(RAM + STACK - 2 * FRAME));
    let mut drivers = table(vec![(5, probe())]);
    assert_eq!(serve_subscribe(&mut process, &mut drivers, 5, 0, CB, 7), SubscribeResult::Success);
    assert_eq!(
        serve_subscribe(&mut process, &mut drivers, 6, 0, CB, 7),
        SubscribeResult::Failure(SrvFactory::failure(ReturnCode::ENODEVICE))
    );
    assert_eq!(
        serve_subscribe(&mut process, &mut drivers, 5, 1, CB, 7),
        SubscribeResult::Failure(SrvFactory::failure(ReturnCode::ENOMEM))
    );
    assert_eq!(
        serve_subscribe(&mut process, &mut drivers, 6, 0, RAM, 7),
        SubscribeResult::Failure(SrvFactory::failure(ReturnCode::EINVAL))
    );
    assert_eq!(
        serve_allow(&mut process, &mut drivers, 5, 0, RAM, 8),
        AllowResult::Success(SrvFactory::success_allow(AppSlice::empty()))
    );
    assert_eq!(
        serve_allow(&mut process, &mut drivers, 6, 0, RAM, 8),
        AllowResult::Failure(SrvFactory::failure_allow(
            ReturnCode::ENODEVICE,
            AppSlice::new(RAM, 8)
        ))
    );
    assert_eq!(
        serve_allow(&mut process, &mut drivers, 5, 1, RAM, 8),
        AllowResult::Failure(SrvFactory::failure_allow(ReturnCode::ENOMEM, AppSlice::new(RAM, 8)))
    );
    assert_eq!(
        serve_allow(&mut process, &mut drivers, 6, 0, RAM - 8, 8),
        AllowResult::FailureRaw(SrvFactory::failure_allow_raw(
            ReturnCode::EINVAL,
            (RAM - 8) as u32,
            8
        ))
    );
    assert_eq!(drivers.driver(0).subscribes.len(), 1);
    assert_eq!(drivers.driver(0).allows.len(), 1);
}

#[test]
fn the_time_used_of_a_timeslice_is_recorded_at_each_switch() {
    let (mut kernel, caps) =
        kernel_with(vec![], FaultResponse::Restart, &[&[Act::Spin, Act::Fault, Act::Spin]]);
    assert_eq!(kernel.timeslice_us(), TIMESLICE);
    assert_eq!(kernel.process(0).timeslice_used(), 0);
    kernel.step(&caps.main_loop);
    assert_eq!(kernel.process(0).timeslice_used(), USED);
    assert_eq!(kernel.timer().armed, vec![TIMESLICE]);
    assert!(!kernel.timer().running);
    assert_eq!(kernel.step(&caps.main_loop), Some((0, StepOutcome::Fault(FaultAction::Restarted))));
    assert_eq!(kernel.process(0).timeslice_used(), 0);
    kernel.step(&caps.main_loop);
    assert_eq!(kernel.process(0).timeslice_used(), USED);
    assert_eq!(kernel.timer().armed, vec![TIMESLICE, TIMESLICE, TIMESLICE]);
}

#[test]
fn the_main_loop_decides_what_comes_next() {
    assert_eq!(next_action(LoopEnd::Panic(3), false), LoopAction::Halt(3));
    assert_eq!(next_action(LoopEnd::Panic(3), true), LoopAction::Halt(3));
    assert_eq!(next_action(LoopEnd::Idle, true), LoopAction::ServeDeferred);
    assert_eq!(next_action(LoopEnd::Idle, false), LoopAction::Sleep);
    assert_eq!(next_action(LoopEnd::BudgetSpent, true), LoopAction::ServeDeferred);
    assert_eq!(next_action(LoopEnd::BudgetSpent, false), LoopAction::Schedule);
}

#[test]
fn the_loop_makes_as_many_passes_as_its_budget_allows() {
    let (mut kernel, caps) = kernel_with(
        vec![],
        FaultResponse::Panic,
        &[&[Act::Spin, Act::Spin, Act::Spin], &[Act::Spin, Act::Trap(0, 0, 0, 0, 0)]],
    );
    assert_eq!(kernel.kernel_loop(3, &caps.main_loop), LoopEnd::BudgetSpent);
    assert_eq!(kernel.stored_state(0).ran.len(), 2);
    assert_eq!(kernel.stored_state(1).ran.len(), 1);
    assert_eq!(kernel.next_runnable(), Some(1));
    assert_eq!(kernel.kernel_loop(1, &caps.main_loop), LoopEnd::BudgetSpent);
    assert_eq!(kernel.stored_state(1).ran.len(), 2);
    assert_eq!(kernel.process(1).state(), State::Yielded);
    assert_eq!(kernel.kernel_loop(2, &caps.main_loop), LoopEnd::BudgetSpent);
    assert_eq!(kernel.stored_state(0).ran.len(), 4);
}

#[test]
fn the_driver_found_under_a_number_is_the_one_registered_under_it() {
    let mut table: DriverTable<Probe> = DriverTable::new(3);
    for number in [30usize, 10, 20] {
        let mut driver = probe();
        driver.command = CommandResult::SuccessU32(SrvFactory::success_u32(number as u32));
        assert!(table.register(number, driver).is_ok());
    }
    for number in [10usize, 20, 30] {
        let at = table.lookup(number).unwrap();
        assert_eq!(
            table.driver(at).command,
            CommandResult::SuccessU32(SrvFactory::success_u32(number as u32))
        );
        assert_eq!(
            table.command(number, 0, 0, 0, 0),
            CommandResult::SuccessU32(SrvFactory::success_u32(number as u32))
        );
    }
    assert_eq!(table.driver(0).commands.len(), 1);
    assert_eq!(table.driver(1).commands.len(), 1);
    assert_eq!(table.driver(2).commands.len(), 1);
}
