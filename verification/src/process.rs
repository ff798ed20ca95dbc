//! The kernel's record of one process: where its memory lies, where it
//! stopped, what it waits for and what it has registered with drivers.

use vstd::prelude::*;
use crate::callback::{CallbackId, SlotTable};
use crate::capabilities::MemoryAllocationCapability;
use crate::mem::{Access, AppSlice, Region};
use crate::result::{low_word_of, word_of, AllowResult, CommandResult, Registers, SubscribeResult,
    SyscallFailure, SyscallFailureAllow, SyscallResult, SyscallSuccessAllow, SyscallSuccessU32};
use crate::returncode::ReturnCode;
use crate::syscall::ContextSwitchReason;

verus! {

/// Where a function call that the kernel injects into a process comes from.
#[derive(Clone, Copy, Debug, PartialEq, Eq, Structural)]
pub enum FunctionCallSource {
    /// The kernel itself, as for the first entry into the process.
    Kernel,
    /// A driver's event for the named slot.
    Driver(CallbackId),
}

/// A function that a process is to execute when it next runs: its address
/// and its four argument words.
#[derive(Clone, Copy, Debug, PartialEq, Eq, Structural)]
pub struct FunctionCall {
    pub source: FunctionCallSource,
    pub argument0: usize,
    pub argument1: usize,
    pub argument2: usize,
    pub argument3: usize,
    pub pc: usize,
}

/// The lifecycle of a process.
#[derive(Clone, Copy, Debug, PartialEq, Eq, Structural)]
pub enum State {
    /// Loaded, its first function call queued, never run.
    Unstarted,
    /// Has work to do and may be switched to.
    Running,
    /// Waits for a callback.
    Yielded,
    /// Stopped by a fault.
    StoppedFaulted,
    /// Gone for good.
    Terminated,
}

/// What the kernel does with a process that faulted. Chosen once, at boot.
#[derive(Clone, Copy, Debug, PartialEq, Eq, Structural)]
pub enum FaultResponse {
    /// Halt the kernel.
    Panic,
    /// Start the process again from its entry point.
    Restart,
    /// Terminate the process and free what it held.
    Stop,
}

/// A callback that a process has registered: the function's address (zero
/// for none) and the word that is handed back with every event.
#[derive(Clone, Copy, Debug, PartialEq, Eq, Structural)]
pub struct Callback {
    pub fn_ptr: usize,
    pub appdata: usize,
}

/// The memory of a process, as declared when it is loaded. Its RAM holds,
/// from the bottom: the stack, the data and heap up to the break, free
/// space, and at the top the grant area that belongs to the kernel.
#[derive(Clone, Copy, Debug, PartialEq, Eq, Structural)]
pub struct MemoryLayout {
    pub flash_start: usize,
    pub flash_size: usize,
    pub ram_start: usize,
    pub ram_size: usize,
    pub stack_size: usize,
    pub heap_size: usize,
    pub grant_size: usize,
    pub entry_point: usize,
}

/// Why a process could not be loaded.
#[derive(Clone, Copy, Debug, PartialEq, Eq, Structural)]
pub enum LoadError {
    /// A region reaches beyond the end of the address space.
    AddressOverflow,
    /// The stack has no bytes.
    EmptyStack,
    /// Stack, heap and grant area do not fit into the RAM.
    OutOfMemory,
    /// The entry point lies outside the flash region.
    BadEntryPoint,
    /// The initial stack pointer lies outside the stack.
    BadStackPointer,
    /// The queue of pending calls cannot hold even the first call.
    NoTaskRoom,
    /// The architecture could not set up the first stack frame.
    InitializationFailed,
    /// The kernel has no room for another process.
    NoProcessSlot,
    /// The memory-protection unit cannot hold the regions of a process.
    TooManyRegions,
}

impl MemoryLayout {
    /// One past the last address of the flash region.
    pub open spec fn flash_end(&self) -> int {
        self.flash_start + self.flash_size
    }

    /// One past the last address of the RAM.
    pub open spec fn ram_end(&self) -> int {
        self.ram_start + self.ram_size
    }

    /// One past the last address of the stack.
    pub open spec fn stack_end(&self) -> int {
        self.ram_start + self.stack_size
    }

    /// The break of a freshly loaded process.
    pub open spec fn initial_break(&self) -> int {
        self.ram_start + self.stack_size + self.heap_size
    }

    /// The first address of the grant area.
    pub open spec fn grant_start(&self) -> int {
        self.ram_start + self.ram_size - self.grant_size
    }

    /// Whether `addr` lies in the flash region.
    pub open spec fn in_flash(&self, addr: usize) -> bool {
        self.flash_start <= addr < self.flash_end()
    }

    /// Whether `sp` lies in the stack.
    pub open spec fn in_stack(&self, sp: usize) -> bool {
        self.ram_start <= sp < self.stack_end()
    }

    /// The first reason, if any, for which the layout itself is unusable.
    pub open spec fn layout_error(&self) -> Option<LoadError> {
        if self.flash_end() > usize::MAX || self.ram_end() > usize::MAX {
            Some(LoadError::AddressOverflow)
        } else if self.stack_size == 0 {
            Some(LoadError::EmptyStack)
        } else if self.stack_size + self.heap_size + self.grant_size > self.ram_size {
            Some(LoadError::OutOfMemory)
        } else if !self.in_flash(self.entry_point) {
            Some(LoadError::BadEntryPoint)
        } else {
            None
        }
    }

    /// The first reason, if any, for which a process with this layout and
    /// this initial stack pointer cannot be loaded.
    pub open spec fn load_error(&self, initial_sp: usize, task_capacity: usize) -> Option<
        LoadError,
    > {
        if self.layout_error() is Some {
            self.layout_error()
        } else if !self.in_stack(initial_sp) {
            Some(LoadError::BadStackPointer)
        } else if task_capacity == 0 {
            Some(LoadError::NoTaskRoom)
        } else {
            None
        }
    }

    /// The regions are consistent: they end within the address space, the
    /// stack is not empty, the parts of the RAM fit, and the entry point is
    /// code of the process.
    pub open spec fn wf(&self) -> bool {
        &&& self.flash_end() <= usize::MAX
        &&& self.ram_end() <= usize::MAX
        &&& self.stack_size > 0
        &&& self.stack_size + self.heap_size + self.grant_size <= self.ram_size
        &&& self.in_flash(self.entry_point)
    }

    /// Computes `layout_error`.
    pub fn check_layout(&self) -> (error: Option<LoadError>)
        ensures
            error == self.layout_error(),
            error is None <==> self.wf(),
    {
        if self.flash_size > usize::MAX - self.flash_start || self.ram_size > usize::MAX
            - self.ram_start {
            return Some(LoadError::AddressOverflow);
        }
        if self.stack_size == 0 {
            return Some(LoadError::EmptyStack);
        }
        if self.stack_size > self.ram_size || self.heap_size > self.ram_size - self.stack_size
            || self.grant_size > self.ram_size - self.stack_size - self.heap_size {
            return Some(LoadError::OutOfMemory);
        }
        if self.entry_point < self.flash_start || self.entry_point - self.flash_start
            >= self.flash_size {
            return Some(LoadError::BadEntryPoint);
        }
        None
    }

    /// Computes `load_error`.
    pub fn check(&self, initial_sp: usize, task_capacity: usize) -> (error: Option<LoadError>)
        ensures
            error == self.load_error(initial_sp, task_capacity),
            error is None ==> self.wf() && self.in_stack(initial_sp) && task_capacity > 0,
    {
        match self.check_layout() {
            Some(error) => {
                return Some(error);
            },
            None => {},
        }
        if initial_sp < self.ram_start || initial_sp - self.ram_start >= self.stack_size {
            return Some(LoadError::BadStackPointer);
        }
        if task_capacity == 0 {
            return Some(LoadError::NoTaskRoom);
        }
        None
    }

    /// The lowest address of the stack, which is the lowest address of the
    /// RAM. With the size of the stack it is what the architecture is told
    /// when it sets up the first frame of the process.
    pub fn stack_base(&self) -> (base: usize)
        ensures
            base == self.ram_start,
    {
        self.ram_start
    }

    /// The call with which a freshly loaded process starts: its entry point,
    /// told where its flash and RAM begin, how large the RAM is and where
    /// its break stands.
    pub open spec fn start_call(&self) -> FunctionCall {
        FunctionCall {
            source: FunctionCallSource::Kernel,
            argument0: self.flash_start,
            argument1: self.ram_start,
            argument2: self.ram_size,
            argument3: self.initial_break() as usize,
            pc: self.entry_point,
        }
    }

    /// Computes `start_call`.
    pub fn first_call(&self) -> (call: FunctionCall)
        requires
            self.wf(),
        ensures
            call == self.start_call(),
    {
        FunctionCall {
            source: FunctionCallSource::Kernel,
            argument0: self.flash_start,
            argument1: self.ram_start,
            argument2: self.ram_size,
            argument3: self.ram_start + self.stack_size + self.heap_size,
            pc: self.entry_point,
        }
    }
}

/// An application image as its header describes it, once the header has
/// been read: where the image lies in flash, where in it the process
/// starts, and how much RAM the process asks for.
#[derive(Clone, Copy, Debug, PartialEq, Eq, Structural)]
pub struct Image {
    pub flash_start: usize,
    pub flash_size: usize,
    pub entry_offset: usize,
    pub stack_size: usize,
    pub heap_size: usize,
    pub grant_size: usize,
}

impl Image {
    /// The RAM that the process asks for: stack, heap and grant area.
    pub open spec fn ram_needed(&self) -> int {
        self.stack_size + self.heap_size + self.grant_size
    }

    /// The layout of the process when its RAM begins at `ram_start`.
    pub open spec fn placed(&self, ram_start: usize) -> MemoryLayout {
        MemoryLayout {
            flash_start: self.flash_start,
            flash_size: self.flash_size,
            ram_start,
            ram_size: self.ram_needed() as usize,
            stack_size: self.stack_size,
            heap_size: self.heap_size,
            grant_size: self.grant_size,
            entry_point: (self.flash_start + self.entry_offset) as usize,
        }
    }

    /// Whether the process can be placed at `ram_start` in RAM that ends at
    /// `ram_end`: what it asks for lies within that RAM, its entry point
    /// lies within its image, its stack is not empty, and its flash ends
    /// within the address space.
    pub open spec fn fits(&self, ram_start: usize, ram_end: usize) -> bool {
        &&& ram_start + self.ram_needed() <= ram_end
        &&& self.entry_offset < self.flash_size
        &&& self.flash_start + self.flash_size <= usize::MAX
        &&& self.stack_size > 0
    }

    /// Places the process at `ram_start`, with exactly the RAM it asks for.
    /// Gives its layout, or `None` where it does not fit. The next process
    /// can be placed where the RAM of this one ends.
    pub fn place(&self, ram_start: usize, ram_end: usize) -> (layout: Option<MemoryLayout>)
        ensures
            layout == (if self.fits(ram_start, ram_end) {
                Some(self.placed(ram_start))
            } else {
                None
            }),
            layout matches Some(l) ==> l.wf() && l.ram_end() <= ram_end,
    {
        if ram_start > ram_end {
            return None;
        }
        let room = ram_end - ram_start;
        if self.stack_size == 0 || self.stack_size > room || self.heap_size > room
            - self.stack_size || self.grant_size > room - self.stack_size - self.heap_size {
            return None;
        }
        if self.entry_offset >= self.flash_size || self.flash_size > usize::MAX
            - self.flash_start {
            return None;
        }
        Some(
            MemoryLayout {
                flash_start: self.flash_start,
                flash_size: self.flash_size,
                ram_start,
                ram_size: self.stack_size + self.heap_size + self.grant_size,
                stack_size: self.stack_size,
                heap_size: self.heap_size,
                grant_size: self.grant_size,
                entry_point: self.flash_start + self.entry_offset,
            },
        )
    }
}

/// What the kernel knows of a process, as plain mathematical values.
pub struct ProcessView {
    /// The stable identity of the process.
    pub id: usize,
    /// Its memory regions.
    pub layout: MemoryLayout,
    /// One past the last address of its data and heap.
    pub app_break: usize,
    /// How many bytes of the grant area have been handed out.
    pub grant_used: usize,
    /// Where it stands in its lifecycle.
    pub state: State,
    /// Its stack pointer when it last stopped.
    pub saved_sp: usize,
    /// How often it has faulted.
    pub fault_count: usize,
    /// The microseconds that it has used of its current timeslice.
    pub timeslice_used: u32,
    /// The calls that wait to be executed, oldest first.
    pub tasks: Seq<FunctionCall>,
    /// The most calls that may wait at once.
    pub task_capacity: nat,
    /// The callback registered for each slot.
    pub subscriptions: Map<CallbackId, Callback>,
    /// The buffer shared for each slot.
    pub allows: Map<CallbackId, AppSlice>,
    /// The part of the grant area given to each driver, by driver number.
    pub grants: Map<usize, AppSlice>,
    /// How many slots have a callback.
    pub subscription_count: nat,
    /// How many slots have a buffer.
    pub allow_count: nat,
    /// How many drivers have a grant.
    pub grant_count: nat,
    /// The most slots of each kind.
    pub slot_capacity: nat,
}

/// The slot under which the grant of a driver is filed.
pub open spec fn grant_key(driver_num: usize) -> CallbackId {
    CallbackId { driver_num, subscribe_num: 0 }
}

/// The grants of a table, by driver number.
pub open spec fn grants_of(table: Map<CallbackId, AppSlice>) -> Map<usize, AppSlice> {
    Map::new(
        |d: usize| table.contains_key(grant_key(d)),
        |d: usize| table[grant_key(d)],
    )
}

/// Whether a queued call is what the process's registration says it should
/// be: code of the process, and, for a driver's event, the function and the
/// word currently registered for that slot.
pub open spec fn call_is_current(v: ProcessView, call: FunctionCall) -> bool {
    &&& v.layout.in_flash(call.pc)
    &&& call.source matches FunctionCallSource::Driver(id) ==> {
        &&& v.subscriptions.contains_key(id)
        &&& v.subscriptions[id].fn_ptr == call.pc
        &&& v.subscriptions[id].appdata == call.argument3
    }
}

/// Whether two ranges share no byte.
pub open spec fn disjoint(a: AppSlice, b: AppSlice) -> bool {
    a.end() <= b.addr || b.end() <= a.addr
}

/// What holds of every process record at all times.
pub open spec fn coherent(v: ProcessView) -> bool {
    &&& v.layout.wf()
    &&& v.layout.in_stack(v.saved_sp)
    &&& v.layout.stack_end() <= v.app_break <= v.layout.grant_start()
    &&& v.grant_used <= v.layout.grant_size
    &&& v.tasks.len() <= v.task_capacity
    &&& v.task_capacity > 0
    &&& forall|i: int| 0 <= i < v.tasks.len() ==> call_is_current(v, #[trigger] v.tasks[i])
    &&& forall|id: CallbackId| #[trigger]
        v.subscriptions.contains_key(id) ==> v.subscriptions[id].fn_ptr == 0 || v.layout.in_flash(
            v.subscriptions[id].fn_ptr,
        )
    &&& forall|d: usize| #[trigger]
        v.grants.contains_key(d) ==> v.layout.grant_start() <= v.grants[d].addr
            && v.grants[d].end() <= v.layout.grant_start() + v.grant_used
    &&& forall|d: usize, e: usize|
        d != e && #[trigger] v.grants.contains_key(d) && #[trigger] v.grants.contains_key(e)
            ==> disjoint(v.grants[d], v.grants[e])
    &&& v.subscription_count <= v.slot_capacity
    &&& v.allow_count <= v.slot_capacity
    &&& v.grant_count <= v.slot_capacity
    &&& v.state is Terminated ==> v.tasks.len() == 0
}

/// Whether the scheduler may pick the process: it is running, or it waits
/// and a call is pending for it.
pub open spec fn runnable(v: ProcessView) -> bool {
    v.state is Running || ((v.state is Unstarted || v.state is Yielded) && v.tasks.len() > 0)
}

/// Whether the process can still run at some time.
pub open spec fn alive(v: ProcessView) -> bool {
    v.state is Unstarted || v.state is Running || v.state is Yielded
}

/// The record of a process with layout `layout` that has just been loaded
/// and whose first stack frame leaves the stack pointer at `initial_sp`.
pub open spec fn loaded(
    id: usize,
    layout: MemoryLayout,
    initial_sp: usize,
    task_capacity: usize,
    slot_capacity: usize,
) -> ProcessView {
    ProcessView {
        id,
        layout,
        app_break: layout.initial_break() as usize,
        grant_used: 0,
        state: State::Unstarted,
        saved_sp: initial_sp,
        fault_count: 0,
        timeslice_used: 0,
        tasks: seq![layout.start_call()],
        task_capacity: task_capacity as nat,
        subscriptions: Map::empty(),
        allows: Map::empty(),
        grants: Map::empty(),
        subscription_count: 0,
        allow_count: 0,
        grant_count: 0,
        slot_capacity: slot_capacity as nat,
    }
}

/// The record `v` with another queue of pending calls.
pub open spec fn with_tasks(v: ProcessView, tasks: Seq<FunctionCall>) -> ProcessView {
    ProcessView { tasks, ..v }
}

/// The record `v` in another state of the lifecycle.
pub open spec fn with_state(v: ProcessView, state: State) -> ProcessView {
    ProcessView { state, ..v }
}

/// The record `v` with another saved stack pointer.
pub open spec fn with_sp(v: ProcessView, saved_sp: usize) -> ProcessView {
    ProcessView { saved_sp, ..v }
}

/// The record `v` with another amount of time used of the timeslice.
pub open spec fn with_time(v: ProcessView, timeslice_used: u32) -> ProcessView {
    ProcessView { timeslice_used, ..v }
}

/// Whether an event for slot `id` is queued rather than dropped.
pub open spec fn accepts_event(v: ProcessView, id: CallbackId) -> bool {
    &&& alive(v)
    &&& v.tasks.len() < v.task_capacity
    &&& v.subscriptions.contains_key(id)
    &&& v.subscriptions[id].fn_ptr != 0
}

/// The call that delivers the event `(a0, a1, a2)` of slot `id`: the
/// registered function, with the event's words and the registered word.
pub open spec fn event_call(v: ProcessView, id: CallbackId, a0: usize, a1: usize, a2: usize)
    -> FunctionCall {
    FunctionCall {
        source: FunctionCallSource::Driver(id),
        argument0: a0,
        argument1: a1,
        argument2: a2,
        argument3: v.subscriptions[id].appdata,
        pc: v.subscriptions[id].fn_ptr,
    }
}

/// Whether the process waits for a call and one is pending.
pub open spec fn awaits_call(v: ProcessView) -> bool {
    (v.state is Unstarted || v.state is Yielded) && v.tasks.len() > 0
}

/// Whether the architecture's answer lets the process run the call.
pub open spec fn installs(v: ProcessView, outcome: Result<usize, usize>) -> bool {
    &&& alive(v)
    &&& outcome matches Ok(sp)
    &&& v.layout.in_stack(sp)
}

/// The record `v` after a fault.
pub open spec fn faulted(v: ProcessView) -> ProcessView {
    ProcessView {
        state: State::StoppedFaulted,
        fault_count: if v.fault_count < usize::MAX {
            (v.fault_count + 1) as usize
        } else {
            v.fault_count
        },
        ..v
    }
}

/// The record `v` after the process has been terminated.
pub open spec fn terminated(v: ProcessView) -> ProcessView {
    ProcessView {
        state: State::Terminated,
        tasks: Seq::empty(),
        subscriptions: Map::empty(),
        allows: Map::empty(),
        grants: Map::empty(),
        subscription_count: 0,
        allow_count: 0,
        grant_count: 0,
        grant_used: 0,
        ..v
    }
}

/// The record `v` after the process has been started over with the stack
/// pointer at `initial_sp`. Only its identity, its layout, its capacities
/// and its count of faults remain.
pub open spec fn started_over(v: ProcessView, initial_sp: usize) -> ProcessView {
    ProcessView {
        state: State::Unstarted,
        tasks: seq![v.layout.start_call()],
        subscriptions: Map::empty(),
        allows: Map::empty(),
        grants: Map::empty(),
        subscription_count: 0,
        allow_count: 0,
        grant_count: 0,
        grant_used: 0,
        app_break: v.layout.initial_break() as usize,
        saved_sp: initial_sp,
        timeslice_used: 0,
        ..v
    }
}

/// What a subscribe for slot `id` returns to the process, given the driver's
/// answer.
pub open spec fn subscribe_result(
    v: ProcessView,
    id: CallbackId,
    callback_ptr: usize,
    answer: SubscribeResult,
) -> SubscribeResult {
    match answer {
        SubscribeResult::Success => match subscribe_error(v, id, callback_ptr) {
            None => SubscribeResult::Success,
            Some(error) => SubscribeResult::Failure(SyscallFailure { error }),
        },
        SubscribeResult::Failure(failure) => SubscribeResult::Failure(failure),
    }
}

/// The error that an answer of a driver to an allow carries, if it is a
/// refusal.
pub open spec fn refusal(answer: AllowResult) -> Option<ReturnCode> {
    match answer {
        AllowResult::Success(_) => None,
        AllowResult::Failure(failure) => Some(failure.error),
        AllowResult::FailureRaw(failure) => Some(failure.error),
    }
}

/// What an allow for slot `id` returns to the process, given the driver's
/// answer: on success the range that the slot held before, on failure the
/// error and the range that was offered.
pub open spec fn allow_result(
    v: ProcessView,
    id: CallbackId,
    address: usize,
    length: usize,
    answer: AllowResult,
) -> AllowResult {
    let offered = AppSlice { addr: address, size: length };
    match refusal(answer) {
        Some(error) => AllowResult::Failure(SyscallFailureAllow { error, buf: offered }),
        None => match allow_error(v, id, address, length) {
            None => AllowResult::Success(SyscallSuccessAllow { buf: held(v, id) }),
            Some(error) => AllowResult::Failure(SyscallFailureAllow { error, buf: offered }),
        },
    }
}

/// The number of regions that the memory-protection unit has to hold for a
/// process.
pub const REGIONS_PER_PROCESS: usize = 2;

/// The regions that are open to a process: its flash, and its RAM from the
/// start to the break.
pub open spec fn regions_of(v: ProcessView) -> Seq<Region> {
    seq![
        Region {
            start: v.layout.flash_start,
            size: v.layout.flash_size,
            access: Access::ReadExecute,
        },
        Region {
            start: v.layout.ram_start,
            size: (v.app_break - v.layout.ram_start) as usize,
            access: Access::ReadWrite,
        },
    ]
}

/// The calls that do not deliver an event of slot `id`.
pub open spec fn not_from(id: CallbackId) -> spec_fn(FunctionCall) -> bool {
    |call: FunctionCall| call.source != FunctionCallSource::Driver(id)
}

/// Whether a process may register `callback_ptr`: it is null, or code of the
/// process.
pub open spec fn callback_valid(v: ProcessView, callback_ptr: usize) -> bool {
    callback_ptr == 0 || v.layout.in_flash(callback_ptr)
}

/// The reason, if any, for which a registration for slot `id` is refused:
/// the pointer is not valid, or the slot is new and no slot is free.
pub open spec fn subscribe_error(v: ProcessView, id: CallbackId, callback_ptr: usize) -> Option<
    ReturnCode,
> {
    if !callback_valid(v, callback_ptr) {
        Some(ReturnCode::EINVAL)
    } else if !v.subscriptions.contains_key(id) && v.subscription_count >= v.slot_capacity {
        Some(ReturnCode::ENOMEM)
    } else {
        None
    }
}

/// The record `v` after `callback_ptr` and `appdata` have been registered for
/// slot `id`: the slot holds them, and no call for the slot is pending.
pub open spec fn subscribed(v: ProcessView, id: CallbackId, callback_ptr: usize, appdata: usize)
    -> ProcessView {
    ProcessView {
        subscriptions: v.subscriptions.insert(id, Callback { fn_ptr: callback_ptr, appdata }),
        subscription_count: if v.subscriptions.contains_key(id) {
            v.subscription_count
        } else {
            v.subscription_count + 1
        },
        tasks: v.tasks.filter(not_from(id)),
        ..v
    }
}

/// Whether the process may write every byte of `[address, address + length)`:
/// the range is empty, or lies between the start of its RAM and its break.
pub open spec fn writable(v: ProcessView, address: usize, length: usize) -> bool {
    length == 0 || (v.layout.ram_start <= address && address + length <= v.app_break)
}

/// The reason, if any, for which a range is refused for slot `id`: the
/// process may not write all of it, or the slot is new and no slot is free.
pub open spec fn allow_error(v: ProcessView, id: CallbackId, address: usize, length: usize)
    -> Option<ReturnCode> {
    if !writable(v, address, length) {
        Some(ReturnCode::EINVAL)
    } else if !v.allows.contains_key(id) && v.allow_count >= v.slot_capacity {
        Some(ReturnCode::ENOMEM)
    } else {
        None
    }
}

/// The range shared for slot `id`; the empty range at zero if there is none.
pub open spec fn held(v: ProcessView, id: CallbackId) -> AppSlice {
    if v.allows.contains_key(id) {
        v.allows[id]
    } else {
        AppSlice { addr: 0, size: 0 }
    }
}

/// The record `v` after `[address, address + length)` has been shared for
/// slot `id`.
pub open spec fn allowed(v: ProcessView, id: CallbackId, address: usize, length: usize)
    -> ProcessView {
    ProcessView {
        allows: v.allows.insert(id, AppSlice { addr: address, size: length }),
        allow_count: if v.allows.contains_key(id) {
            v.allow_count
        } else {
            v.allow_count + 1
        },
        ..v
    }
}

/// Whether a first request of `size` bytes by a driver can be served.
pub open spec fn grant_fits(v: ProcessView, size: usize) -> bool {
    size <= v.layout.grant_size - v.grant_used && v.grant_count < v.slot_capacity
}

/// The part of the grant area that a request by driver `driver_num` for
/// `size` bytes yields.
pub open spec fn grant_outcome(v: ProcessView, driver_num: usize, size: usize) -> Option<
    AppSlice,
> {
    if !alive(v) {
        None
    } else if v.grants.contains_key(driver_num) {
        Some(v.grants[driver_num])
    } else if grant_fits(v, size) {
        Some(AppSlice { addr: (v.layout.grant_start() + v.grant_used) as usize, size })
    } else {
        None
    }
}

/// The record `v` after a request by driver `driver_num` for `size` bytes.
pub open spec fn granted(v: ProcessView, driver_num: usize, size: usize) -> ProcessView {
    if alive(v) && !v.grants.contains_key(driver_num) && grant_fits(v, size) {
        ProcessView {
            grants: v.grants.insert(
                driver_num,
                AppSlice { addr: (v.layout.grant_start() + v.grant_used) as usize, size },
            ),
            grant_used: (v.grant_used + size) as usize,
            grant_count: v.grant_count + 1,
            ..v
        }
    } else {
        v
    }
}

/// The sum of two words, wrapped around at the end of the address space.
pub open spec fn wrapped_sum(a: usize, b: usize) -> usize {
    if a + b > usize::MAX {
        (a + b - usize::MAX - 1) as usize
    } else {
        (a + b) as usize
    }
}

/// Whether the break may stand at `target`.
pub open spec fn break_allowed(v: ProcessView, target: usize) -> bool {
    v.layout.stack_end() <= target <= v.layout.grant_start()
}

/// A successful result that carries the low 32 bits of `value`.
pub open spec fn success_word(value: int) -> CommandResult {
    CommandResult::SuccessU32(SyscallSuccessU32 { rval0: word_of(value as usize) })
}

/// What a memory operation answers.
pub open spec fn memop_result(v: ProcessView, operand: usize, arg0: usize) -> CommandResult {
    if operand == 0 {
        if break_allowed(v, arg0) {
            CommandResult::Success
        } else {
            CommandResult::Failure(SyscallFailure { error: ReturnCode::ENOMEM })
        }
    } else if operand == 1 {
        if break_allowed(v, wrapped_sum(v.app_break, arg0)) {
            success_word(v.app_break as int)
        } else {
            CommandResult::Failure(SyscallFailure { error: ReturnCode::ENOMEM })
        }
    } else if operand == 2 {
        success_word(v.layout.ram_start as int)
    } else if operand == 3 {
        success_word(v.layout.ram_end())
    } else if operand == 4 {
        success_word(v.layout.flash_start as int)
    } else if operand == 5 {
        success_word(v.layout.flash_end())
    } else if operand == 6 {
        success_word(v.layout.grant_start())
    } else {
        CommandResult::Failure(SyscallFailure { error: ReturnCode::ENOSUPPORT })
    }
}

/// The record `v` after a memory operation: only the break can have moved.
pub open spec fn after_memop(v: ProcessView, operand: usize, arg0: usize) -> ProcessView {
    if operand == 0 && break_allowed(v, arg0) {
        ProcessView { app_break: arg0, ..v }
    } else if operand == 1 && break_allowed(v, wrapped_sum(v.app_break, arg0)) {
        ProcessView { app_break: wrapped_sum(v.app_break, arg0), ..v }
    } else {
        v
    }
}

/// The kernel's record of one process.
pub struct Process {
    id: usize,
    layout: MemoryLayout,
    app_break: usize,
    grant_used: usize,
    state: State,
    saved_sp: usize,
    fault_count: usize,
    timeslice_used: u32,
    tasks: Vec<FunctionCall>,
    task_capacity: usize,
    subscriptions: SlotTable<Callback>,
    allows: SlotTable<AppSlice>,
    grants: SlotTable<AppSlice>,
}

impl Process {
    /// The record as plain values.
    pub closed spec fn view(&self) -> ProcessView {
        ProcessView {
            id: self.id,
            layout: self.layout,
            app_break: self.app_break,
            grant_used: self.grant_used,
            state: self.state,
            saved_sp: self.saved_sp,
            fault_count: self.fault_count,
            timeslice_used: self.timeslice_used,
            tasks: self.tasks@,
            task_capacity: self.task_capacity as nat,
            subscriptions: self.subscriptions@,
            allows: self.allows@,
            grants: grants_of(self.grants@),
            subscription_count: self.subscriptions.count(),
            allow_count: self.allows.count(),
            grant_count: self.grants.count(),
            slot_capacity: self.subscriptions.limit(),
        }
    }

    /// The tables of the record are in order.
    pub closed spec fn tables_wf(&self) -> bool {
        &&& self.subscriptions.wf()
        &&& self.allows.wf()
        &&& self.grants.wf()
        &&& self.allows.limit() == self.subscriptions.limit()
        &&& self.grants.limit() == self.subscriptions.limit()
    }

    /// The record is well formed.
    pub open spec fn wf(&self) -> bool {
        self.tables_wf() && coherent(self@)
    }

    /// Loads a process: checks its layout and the stack pointer that the
    /// architecture's first frame left, and queues the call of its entry
    /// point.
    pub fn create(
        id: usize,
        layout: MemoryLayout,
        initial_sp: usize,
        task_capacity: usize,
        slot_capacity: usize,
    ) -> (outcome: Result<Process, LoadError>)
        ensures
            match outcome {
                Ok(process) => layout.load_error(initial_sp, task_capacity) is None
                    && process.wf() && process@ == loaded(
                    id,
                    layout,
                    initial_sp,
                    task_capacity,
                    slot_capacity,
                ),
                Err(error) => layout.load_error(initial_sp, task_capacity) == Some(error),
            },
    {
        match layout.check(initial_sp, task_capacity) {
            Some(error) => Err(error),
            None => {
                let mut tasks: Vec<FunctionCall> = Vec::new();
                tasks.push(layout.first_call());
                let process = Process {
                    id,
                    layout,
                    app_break: layout.ram_start + layout.stack_size + layout.heap_size,
                    grant_used: 0,
                    state: State::Unstarted,
                    saved_sp: initial_sp,
                    fault_count: 0,
                    timeslice_used: 0,
                    tasks,
                    task_capacity,
                    subscriptions: SlotTable::new(slot_capacity),
                    allows: SlotTable::new(slot_capacity),
                    grants: SlotTable::new(slot_capacity),
                };
                proof {
                    assert(process@.tasks =~= seq![layout.start_call()]);
                    assert(process@.grants =~= Map::<usize, AppSlice>::empty());
                }
                Ok(process)
            },
        }
    }

    /// The stable identity of the process.
    pub fn id(&self) -> (id: usize)
        ensures
            id == self@.id,
    {
        self.id
    }

    /// Where the process stands in its lifecycle.
    pub fn state(&self) -> (state: State)
        ensures
            state == self@.state,
    {
        self.state
    }

    /// The stack pointer of the process when it last stopped.
    pub fn sp(&self) -> (sp: usize)
        ensures
            sp == self@.saved_sp,
    {
        self.saved_sp
    }

    /// The memory regions of the process.
    pub fn layout(&self) -> (layout: MemoryLayout)
        ensures
            layout == self@.layout,
    {
        self.layout
    }

    /// One past the last address of the data and heap of the process.
    pub fn app_break(&self) -> (app_break: usize)
        ensures
            app_break == self@.app_break,
    {
        self.app_break
    }

    /// How often the process has faulted.
    pub fn fault_count(&self) -> (count: usize)
        ensures
            count == self@.fault_count,
    {
        self.fault_count
    }

    /// The microseconds that the process has used of its current
    /// timeslice.
    pub fn timeslice_used(&self) -> (used_us: u32)
        ensures
            used_us == self@.timeslice_used,
    {
        self.timeslice_used
    }

    /// The process is switched to: a new timeslice begins, of which nothing
    /// has been used.
    pub fn start_timeslice(&mut self)
        requires
            old(self).wf(),
        ensures
            final(self).wf(),
            final(self)@ == with_time(old(self)@, 0),
    {
        self.timeslice_used = 0;
    }

    /// Takes note of the microseconds that the process has used of its
    /// timeslice when it came back from a switch.
    pub fn charge(&mut self, used_us: u32)
        requires
            old(self).wf(),
        ensures
            final(self).wf(),
            final(self)@ == with_time(old(self)@, used_us),
    {
        self.timeslice_used = used_us;
    }

    /// How many calls wait to be executed.
    pub fn pending(&self) -> (count: usize)
        ensures
            count == self@.tasks.len(),
    {
        self.tasks.len()
    }

    /// The bytes of stack below the saved stack pointer.
    pub fn remaining_stack(&self) -> (bytes: usize)
        requires
            self.wf(),
        ensures
            bytes == self@.saved_sp - self@.layout.ram_start,
            bytes < self@.layout.stack_size,
    {
        self.saved_sp - self.layout.ram_start
    }

    /// Whether the scheduler may pick the process.
    pub fn ready(&self) -> (yes: bool)
        ensures
            yes == runnable(self@),
    {
        match self.state {
            State::Running => true,
            State::Unstarted => self.tasks.len() > 0,
            State::Yielded => self.tasks.len() > 0,
            _ => false,
        }
    }

    /// Whether `sp` lies in the stack of the process.
    pub fn in_stack(&self, sp: usize) -> (yes: bool)
        requires
            self.wf(),
        ensures
            yes == self@.layout.in_stack(sp),
    {
        sp >= self.layout.ram_start && sp - self.layout.ram_start < self.layout.stack_size
    }

    /// Queues the event `(a0, a1, a2)` of slot `id` as a call of the callback
    /// registered for that slot. The event is dropped when the process is
    /// not alive, has registered no callback for the slot, or has no room
    /// for another pending call.
    pub fn post_event(&mut self, id: CallbackId, a0: usize, a1: usize, a2: usize) -> (posted:
        bool)
        requires
            old(self).wf(),
        ensures
            final(self).wf(),
            posted == accepts_event(old(self)@, id),
            posted ==> final(self)@ == with_tasks(
                old(self)@,
                old(self)@.tasks.push(event_call(old(self)@, id, a0, a1, a2)),
            ),
            !posted ==> final(self)@ == old(self)@,
    {
        let live = match self.state {
            State::Unstarted => true,
            State::Running => true,
            State::Yielded => true,
            _ => false,
        };
        if !live || self.tasks.len() >= self.task_capacity {
            return false;
        }
        match self.subscriptions.get(id) {
            Some(callback) => {
                if callback.fn_ptr == 0 {
                    return false;
                }
                self.tasks.push(
                    FunctionCall {
                        source: FunctionCallSource::Driver(id),
                        argument0: a0,
                        argument1: a1,
                        argument2: a2,
                        argument3: callback.appdata,
                        pc: callback.fn_ptr,
                    },
                );
                true
            },
            None => false,
        }
    }

    /// Takes the oldest pending call off the queue, if the process waits for
    /// one: it has not started yet or has yielded.
    pub fn next_call(&mut self) -> (call: Option<FunctionCall>)
        requires
            old(self).wf(),
        ensures
            final(self).wf(),
            awaits_call(old(self)@) ==> call == Some(old(self)@.tasks[0]) && final(self)@
                == with_tasks(old(self)@, old(self)@.tasks.drop_first()),
            !awaits_call(old(self)@) ==> call is None && final(self)@ == old(self)@,
    {
        let waits = match self.state {
            State::Unstarted => true,
            State::Yielded => true,
            _ => false,
        };
        if waits && self.tasks.len() > 0 {
            let ghost before = self.tasks@;
            let call = self.tasks.remove(0);
            assert(self.tasks@ =~= before.drop_first());
            Some(call)
        } else {
            None
        }
    }

    /// Takes note of what the architecture answered when it was asked to
    /// make the process execute a call. With a new stack pointer inside the
    /// stack the process runs; with a refusal, or a stack pointer outside
    /// the stack, it has faulted. A process that is not alive stays as it
    /// is.
    pub fn function_installed(&mut self, outcome: Result<usize, usize>) -> (installed: bool)
        requires
            old(self).wf(),
        ensures
            final(self).wf(),
            installed == installs(old(self)@, outcome),
            installed ==> final(self)@ == with_state(
                with_sp(old(self)@, outcome->Ok_0),
                State::Running,
            ),
            !installed && alive(old(self)@) ==> final(self)@ == faulted(old(self)@),
            !alive(old(self)@) ==> final(self)@ == old(self)@,
    {
        let live = match self.state {
            State::Unstarted => true,
            State::Running => true,
            State::Yielded => true,
            _ => false,
        };
        if !live {
            return false;
        }
        match outcome {
            Ok(sp) => {
                if self.in_stack(sp) {
                    self.saved_sp = sp;
                    self.state = State::Running;
                    true
                } else {
                    self.set_fault_state();
                    false
                }
            },
            Err(_) => {
                self.set_fault_state();
                false
            },
        }
    }

    /// Takes note of the stack pointer with which the process came back
    /// from a switch, and says for which reason it is taken to have come
    /// back. A stack pointer outside the stack is not recorded and counts as
    /// a fault, whatever reason was given.
    pub fn switched_out(&mut self, new_sp: usize, reason: ContextSwitchReason) -> (effective:
        ContextSwitchReason)
        requires
            old(self).wf(),
        ensures
            final(self).wf(),
            old(self)@.layout.in_stack(new_sp) ==> effective == reason && final(self)@ == with_sp(
                old(self)@,
                new_sp,
            ),
            !old(self)@.layout.in_stack(new_sp) ==> effective == ContextSwitchReason::Fault
                && final(self)@ == old(self)@,
    {
        if self.in_stack(new_sp) {
            self.saved_sp = new_sp;
            reason
        } else {
            ContextSwitchReason::Fault
        }
    }

    /// The process gives up the processor until a callback is pending: a
    /// running process becomes a yielded one.
    pub fn yield_now(&mut self)
        requires
            old(self).wf(),
        ensures
            final(self).wf(),
            old(self)@.state is Running ==> final(self)@ == with_state(
                old(self)@,
                State::Yielded,
            ),
            !(old(self)@.state is Running) ==> final(self)@ == old(self)@,
    {
        match self.state {
            State::Running => {
                self.state = State::Yielded;
            },
            _ => {},
        }
    }

    /// Marks the process as stopped by a fault and counts the fault. A
    /// terminated process stays terminated.
    pub fn set_fault_state(&mut self)
        requires
            old(self).wf(),
        ensures
            final(self).wf(),
            !(old(self)@.state is Terminated) ==> final(self)@ == faulted(old(self)@),
            old(self)@.state is Terminated ==> final(self)@ == old(self)@,
    {
        match self.state {
            State::Terminated => {},
            _ => {
                self.state = State::StoppedFaulted;
                if self.fault_count < usize::MAX {
                    self.fault_count = self.fault_count + 1;
                }
            },
        }
    }

    /// Ends the process for good: nothing is pending for it any more, and
    /// its callbacks, buffers and grants are given up.
    pub fn terminate(&mut self)
        requires
            old(self).wf(),
        ensures
            final(self).wf(),
            final(self)@ == terminated(old(self)@),
    {
        self.state = State::Terminated;
        self.tasks.clear();
        self.subscriptions.clear();
        self.allows.clear();
        self.grants.clear();
        self.grant_used = 0;
        proof {
            assert(self@.grants =~= Map::<usize, AppSlice>::empty());
        }
    }

    /// Starts the process over after the architecture has set up a first
    /// frame again and left the stack pointer at `initial_sp`: what was
    /// pending or registered is forgotten and the call of the entry point is
    /// queued. With a stack pointer outside the stack the process is
    /// terminated instead.
    pub fn restart(&mut self, initial_sp: usize) -> (restarted: bool)
        requires
            old(self).wf(),
        ensures
            final(self).wf(),
            restarted == old(self)@.layout.in_stack(initial_sp),
            restarted ==> final(self)@ == started_over(old(self)@, initial_sp),
            !restarted ==> final(self)@ == terminated(old(self)@),
    {
        if !self.in_stack(initial_sp) {
            self.terminate();
            return false;
        }
        self.tasks.clear();
        self.tasks.push(self.layout.first_call());
        self.subscriptions.clear();
        self.allows.clear();
        self.grants.clear();
        self.grant_used = 0;
        self.app_break = self.layout.ram_start + self.layout.stack_size + self.layout.heap_size;
        self.saved_sp = initial_sp;
        self.timeslice_used = 0;
        self.state = State::Unstarted;
        proof {
            assert(self@.tasks =~= seq![self.layout.start_call()]);
            assert(self@.grants =~= Map::<usize, AppSlice>::empty());
        }
        true
    }

    /// Drops every pending call that delivers an event of slot `id`.
    fn remove_pending(&mut self, id: CallbackId)
        requires
            old(self).wf(),
        ensures
            final(self).wf(),
            final(self)@ == with_tasks(old(self)@, old(self)@.tasks.filter(not_from(id))),
    {
        let mut kept: Vec<FunctionCall> = Vec::new();
        let mut i: usize = 0;
        proof {
            reveal(Seq::filter);
            assert(self.tasks@.subrange(0, 0).filter(not_from(id)) =~= Seq::<
                FunctionCall,
            >::empty());
        }
        while i < self.tasks.len()
            invariant
                self.wf(),
                i <= self.tasks@.len(),
                kept@ == self.tasks@.subrange(0, i as int).filter(not_from(id)),
                kept@.len() <= i,
                forall|j: int| 0 <= j < kept@.len() ==> call_is_current(self@, #[trigger] kept@[j]),
            decreases self.tasks@.len() - i,
        {
            let call = self.tasks[i];
            proof {
                reveal(Seq::filter);
                let next = self.tasks@.subrange(0, i + 1);
                assert(next.drop_last() =~= self.tasks@.subrange(0, i as int));
                assert(next.last() == call);
                assert(call_is_current(self@, self@.tasks[i as int]));
            }
            let keep = match call.source {
                FunctionCallSource::Driver(other) => !(other == id),
                FunctionCallSource::Kernel => true,
            };
            if keep {
                kept.push(call);
            }
            i += 1;
        }
        proof {
            assert(self.tasks@.subrange(0, self.tasks@.len() as int) =~= self.tasks@);
        }
        self.tasks = kept;
    }

    /// The regions that the memory-protection unit is to open while the
    /// process runs: its flash to read and execute, and its RAM up to the
    /// break to read and write. The grant area stays closed to it.
    pub fn regions(&self) -> (regions: Vec<Region>)
        requires
            self.wf(),
        ensures
            regions@ == regions_of(self@),
    {
        let mut regions: Vec<Region> = Vec::new();
        regions.push(
            Region {
                start: self.layout.flash_start,
                size: self.layout.flash_size,
                access: Access::ReadExecute,
            },
        );
        regions.push(
            Region {
                start: self.layout.ram_start,
                size: self.app_break - self.layout.ram_start,
                access: Access::ReadWrite,
            },
        );
        proof {
            assert(regions@ =~= regions_of(self@));
        }
        regions
    }

    /// Says for which reason, if any, the process may not register the
    /// function at `callback_ptr` for slot `id`.
    pub fn check_subscribe(&self, id: CallbackId, callback_ptr: usize) -> (error: Option<
        ReturnCode,
    >)
        requires
            self.wf(),
        ensures
            error == subscribe_error(self@, id, callback_ptr),
    {
        let in_flash = callback_ptr >= self.layout.flash_start && callback_ptr
            - self.layout.flash_start < self.layout.flash_size;
        if callback_ptr != 0 && !in_flash {
            return Some(ReturnCode::EINVAL);
        }
        if self.subscriptions.get(id).is_none() && self.subscriptions.len()
            >= self.subscriptions.capacity() {
            return Some(ReturnCode::ENOMEM);
        }
        None
    }

    /// Registers the function at `callback_ptr`, with the word `appdata`,
    /// for the events of slot `id`; a null pointer withdraws the
    /// registration. Calls that were pending for the slot are cancelled.
    /// Where the registration is refused nothing changes.
    pub fn subscribe(&mut self, id: CallbackId, callback_ptr: usize, appdata: usize) -> (outcome:
        Result<(), ReturnCode>)
        requires
            old(self).wf(),
        ensures
            final(self).wf(),
            match subscribe_error(old(self)@, id, callback_ptr) {
                Some(error) => outcome == Err::<(), ReturnCode>(error)
                    && final(self)@ == old(self)@,
                None => outcome == Ok::<(), ReturnCode>(()) && final(self)@ == subscribed(
                    old(self)@,
                    id,
                    callback_ptr,
                    appdata,
                ),
            },
    {
        match self.check_subscribe(id, callback_ptr) {
            Some(error) => Err(error),
            None => {
                let ghost before = self@;
                self.remove_pending(id);
                proof {
                    before.tasks.lemma_filter_len(not_from(id));
                    assert forall|j: int| 0 <= j < self@.tasks.len() implies (
                    #[trigger] self@.tasks[j]).source != FunctionCallSource::Driver(id) by {
                        before.tasks.lemma_filter_pred(not_from(id), j);
                    }
                }
                let _ = self.subscriptions.set(id, Callback { fn_ptr: callback_ptr, appdata });
                Ok(())
            },
        }
    }

    /// Says for which reason, if any, the process may not share the range
    /// `[address, address + length)` for slot `id`.
    pub fn check_allow(&self, id: CallbackId, address: usize, length: usize) -> (error: Option<
        ReturnCode,
    >)
        requires
            self.wf(),
        ensures
            error == allow_error(self@, id, address, length),
    {
        let inside = address >= self.layout.ram_start && length <= self.app_break && address
            <= self.app_break - length;
        if length != 0 && !inside {
            return Some(ReturnCode::EINVAL);
        }
        if self.allows.get(id).is_none() && self.allows.len() >= self.allows.capacity() {
            return Some(ReturnCode::ENOMEM);
        }
        None
    }

    /// The range that the process currently shares for slot `id`; the empty
    /// range at zero if it shares none.
    pub fn shared(&self, id: CallbackId) -> (buffer: AppSlice)
        requires
            self.wf(),
        ensures
            buffer == held(self@, id),
    {
        match self.allows.get(id) {
            Some(buffer) => buffer,
            None => AppSlice::empty(),
        }
    }

    /// Shares the range `[address, address + length)` for slot `id` and
    /// hands back the range that was shared for the slot until now. Where
    /// the range is refused nothing changes.
    pub fn allow(&mut self, id: CallbackId, address: usize, length: usize) -> (outcome: Result<
        AppSlice,
        ReturnCode,
    >)
        requires
            old(self).wf(),
        ensures
            final(self).wf(),
            match allow_error(old(self)@, id, address, length) {
                Some(error) => outcome == Err::<AppSlice, ReturnCode>(error) && final(self)@
                    == old(self)@,
                None => outcome == Ok::<AppSlice, ReturnCode>(held(old(self)@, id))
                    && final(self)@ == allowed(old(self)@, id, address, length),
            },
    {
        match self.check_allow(id, address, length) {
            Some(error) => Err(error),
            None => {
                let previous = self.shared(id);
                let _ = self.allows.set(id, AppSlice::new(address, length));
                Ok(previous)
            },
        }
    }

    /// The part of the grant area that belongs to driver `driver_num`. On
    /// the driver's first request it is carved out with `size` bytes; from
    /// then on the same part is handed out whatever size is asked for.
    /// There is none for a process that is not alive, nor where the grant
    /// area or the table of grants has no room left.
    pub fn grant(
        &mut self,
        driver_num: usize,
        size: usize,
        _capability: &MemoryAllocationCapability,
    ) -> (region: Option<AppSlice>)
        requires
            old(self).wf(),
        ensures
            final(self).wf(),
            region == grant_outcome(old(self)@, driver_num, size),
            final(self)@ == granted(old(self)@, driver_num, size),
    {
        let live = match self.state {
            State::Unstarted => true,
            State::Running => true,
            State::Yielded => true,
            _ => false,
        };
        if !live {
            return None;
        }
        let key = CallbackId { driver_num, subscribe_num: 0 };
        match self.grants.get(key) {
            Some(region) => Some(region),
            None => {
                if size > self.layout.grant_size - self.grant_used || self.grants.len()
                    >= self.grants.capacity() {
                    return None;
                }
                let start = self.layout.ram_start + (self.layout.ram_size
                    - self.layout.grant_size) + self.grant_used;
                let region = AppSlice::new(start, size);
                let ghost before = self@;
                let _ = self.grants.set(key, region);
                self.grant_used = self.grant_used + size;
                proof {
                    assert(self@.grants =~= before.grants.insert(driver_num, region));
                }
                Some(region)
            },
        }
    }

    /// Serves a memory operation of the process: operand 0 sets the break
    /// to `arg0`, operand 1 moves it by `arg0` (which wraps, so that a
    /// negative amount lowers it) and reports where it stood, operands 2 to
    /// 6 report where the RAM begins and ends, where the flash begins and
    /// ends, and where the grant area begins. The break stays between the
    /// end of the stack and the grant area.
    pub fn memop(&mut self, operand: usize, arg0: usize) -> (result: CommandResult)
        requires
            old(self).wf(),
        ensures
            final(self).wf(),
            result == memop_result(old(self)@, operand, arg0),
            final(self)@ == after_memop(old(self)@, operand, arg0),
    {
        let stack_end = self.layout.ram_start + self.layout.stack_size;
        let grant_start = self.layout.ram_start + (self.layout.ram_size - self.layout.grant_size);
        if operand == 0 {
            if stack_end <= arg0 && arg0 <= grant_start {
                self.app_break = arg0;
                CommandResult::Success
            } else {
                CommandResult::Failure(SyscallFailure { error: ReturnCode::ENOMEM })
            }
        } else if operand == 1 {
            let target = if arg0 <= usize::MAX - self.app_break {
                self.app_break + arg0
            } else {
                self.app_break - (usize::MAX - arg0) - 1
            };
            if stack_end <= target && target <= grant_start {
                let before = self.app_break;
                self.app_break = target;
                CommandResult::SuccessU32(SyscallSuccessU32 { rval0: low_word_of(before) })
            } else {
                CommandResult::Failure(SyscallFailure { error: ReturnCode::ENOMEM })
            }
        } else if operand == 2 {
            CommandResult::SuccessU32(
                SyscallSuccessU32 { rval0: low_word_of(self.layout.ram_start) },
            )
        } else if operand == 3 {
            CommandResult::SuccessU32(
                SyscallSuccessU32 {
                    rval0: low_word_of(self.layout.ram_start + self.layout.ram_size),
                },
            )
        } else if operand == 4 {
            CommandResult::SuccessU32(
                SyscallSuccessU32 { rval0: low_word_of(self.layout.flash_start) },
            )
        } else if operand == 5 {
            CommandResult::SuccessU32(
                SyscallSuccessU32 {
                    rval0: low_word_of(self.layout.flash_start + self.layout.flash_size),
                },
            )
        } else if operand == 6 {
            CommandResult::SuccessU32(SyscallSuccessU32 { rval0: low_word_of(grant_start) })
        } else {
            CommandResult::Failure(SyscallFailure { error: ReturnCode::ENOSUPPORT })
        }
    }

    /// Completes a subscribe once the driver has answered. Where the driver
    /// accepted, the registration is made, and the call succeeds unless the
    /// registration is refused; where the driver refused, its error is
    /// passed on and nothing changes.
    pub fn settle_subscribe(
        &mut self,
        id: CallbackId,
        callback_ptr: usize,
        appdata: usize,
        answer: SubscribeResult,
    ) -> (result: SubscribeResult)
        requires
            old(self).wf(),
        ensures
            final(self).wf(),
            result == subscribe_result(old(self)@, id, callback_ptr, answer),
            result is Success ==> final(self)@ == subscribed(
                old(self)@,
                id,
                callback_ptr,
                appdata,
            ),
            result is Failure ==> final(self)@ == old(self)@,
    {
        match answer {
            SubscribeResult::Success => match self.subscribe(id, callback_ptr, appdata) {
                Ok(()) => SubscribeResult::Success,
                Err(error) => SubscribeResult::Failure(SyscallFailure { error }),
            },
            SubscribeResult::Failure(failure) => SubscribeResult::Failure(failure),
        }
    }

    /// Completes an allow once the driver has answered. Where the driver
    /// accepted, the range is shared, and the call succeeds with the range
    /// that the slot held before, unless the range is refused; where the
    /// driver refused, its error is passed on and nothing changes. Every
    /// failure hands the offered range back to the process.
    pub fn settle_allow(
        &mut self,
        id: CallbackId,
        address: usize,
        length: usize,
        answer: AllowResult,
    ) -> (result: AllowResult)
        requires
            old(self).wf(),
        ensures
            final(self).wf(),
            result == allow_result(old(self)@, id, address, length, answer),
            result is Success ==> final(self)@ == allowed(old(self)@, id, address, length),
            !(result is Success) ==> final(self)@ == old(self)@,
    {
        let offered = AppSlice::new(address, length);
        match answer {
            AllowResult::Success(_) => match self.allow(id, address, length) {
                Ok(previous) => AllowResult::Success(SyscallSuccessAllow { buf: previous }),
                Err(error) => AllowResult::Failure(SyscallFailureAllow { error, buf: offered }),
            },
            AllowResult::Failure(failure) => AllowResult::Failure(
                SyscallFailureAllow { error: failure.error, buf: offered },
            ),
            AllowResult::FailureRaw(failure) => AllowResult::Failure(
                SyscallFailureAllow { error: failure.error, buf: offered },
            ),
        }
    }
}

/// The saved stack pointer of a well-formed record lies in the stack of the
/// process: at or above its base and below its end.
pub proof fn lemma_saved_sp_in_stack(process: Process)
    requires
        process.wf(),
    ensures
        process@.layout.ram_start <= process@.saved_sp,
        process@.saved_sp < process@.layout.ram_start + process@.layout.stack_size,
{
}

/// A range that has been shared for a slot is the range that the slot
/// holds, and it is what the next sharing for that slot hands back: sharing
/// a second range is refused for no other reason than the range itself, and
/// leaves the second range in the slot.
pub proof fn lemma_allow_swaps(
    v: ProcessView,
    id: CallbackId,
    first: AppSlice,
    second: AppSlice,
)
    requires
        coherent(v),
        allow_error(v, id, first.addr, first.size) is None,
        writable(v, second.addr, second.size),
    ensures
        held(allowed(v, id, first.addr, first.size), id) == first,
        allow_error(allowed(v, id, first.addr, first.size), id, second.addr, second.size) is None,
        held(
            allowed(allowed(v, id, first.addr, first.size), id, second.addr, second.size),
            id,
        ) == second,
{
}

/// Sharing a range for one slot leaves what every other slot holds.
pub proof fn lemma_allow_keeps_other_slots(
    v: ProcessView,
    id: CallbackId,
    other: CallbackId,
    address: usize,
    length: usize,
)
    requires
        other != id,
    ensures
        held(allowed(v, id, address, length), other) == held(v, other),
{
}

/// An empty range is never refused for what it is: with a slot to put it in,
/// sharing it succeeds wherever it is said to start.
pub proof fn lemma_empty_allow_accepted(v: ProcessView, id: CallbackId, address: usize)
    requires
        v.allows.contains_key(id) || v.allow_count < v.slot_capacity,
    ensures
        allow_error(v, id, address, 0) is None,
{
}

/// A range with at least one byte that starts below the RAM of the process
/// or ends beyond its break, be it by a single byte, is refused as invalid.
/// So is every range that ends beyond the RAM.
pub proof fn lemma_allow_outside_refused(
    v: ProcessView,
    id: CallbackId,
    address: usize,
    length: usize,
)
    requires
        coherent(v),
        length > 0,
        address < v.layout.ram_start || address + length > v.app_break || address + length
            > v.layout.ram_end(),
    ensures
        allow_error(v, id, address, length) == Some(ReturnCode::EINVAL),
{
}

/// The queue that is left after `count` calls have been taken off `tasks`.
pub open spec fn after_deliveries(tasks: Seq<FunctionCall>, count: nat) -> Seq<FunctionCall>
    decreases count,
{
    if count == 0 {
        tasks
    } else {
        after_deliveries(tasks.drop_first(), (count - 1) as nat)
    }
}

/// Taking `count` calls off a queue leaves the calls from position `count`
/// on, so the call that is taken next is the one at that position.
pub proof fn lemma_deliveries_in_order(tasks: Seq<FunctionCall>, count: nat)
    requires
        count <= tasks.len(),
    ensures
        after_deliveries(tasks, count) == tasks.subrange(count as int, tasks.len() as int),
        count < tasks.len() ==> after_deliveries(tasks, count)[0] == tasks[count as int],
    decreases count,
{
    if count == 0 {
        assert(tasks.subrange(0, tasks.len() as int) =~= tasks);
    } else {
        lemma_deliveries_in_order(tasks.drop_first(), (count - 1) as nat);
        assert(tasks.drop_first().subrange(count - 1, tasks.len() - 1) =~= tasks.subrange(
            count as int,
            tasks.len() as int,
        ));
    }
}

/// Calls are delivered in the order in which they were queued: if `first`
/// is queued behind `tasks`, then the calls of `between`, then `second`,
/// `first` is the call taken off after those of `tasks`, and `second` is
/// taken off only after `first` and all of `between`.
pub proof fn lemma_fifo(
    tasks: Seq<FunctionCall>,
    first: FunctionCall,
    between: Seq<FunctionCall>,
    second: FunctionCall,
)
    ensures
        ({
            let queued = (tasks.push(first) + between).push(second);
            &&& after_deliveries(queued, tasks.len())[0] == first
            &&& after_deliveries(queued, tasks.len() + 1 + between.len())[0] == second
        }),
{
    let queued = (tasks.push(first) + between).push(second);
    lemma_deliveries_in_order(queued, tasks.len());
    lemma_deliveries_in_order(queued, tasks.len() + 1 + between.len());
}

/// Cancelling the pending calls of one slot keeps the others in their
/// order: two calls that are not cancelled are queued in the same order
/// afterwards, with what is left of the calls before and between them.
pub proof fn lemma_cancel_keeps_order(
    tasks: Seq<FunctionCall>,
    first: FunctionCall,
    between: Seq<FunctionCall>,
    second: FunctionCall,
    id: CallbackId,
)
    requires
        first.source != FunctionCallSource::Driver(id),
        second.source != FunctionCallSource::Driver(id),
    ensures
        (tasks.push(first) + between).push(second).filter(not_from(id)) == (tasks.filter(
            not_from(id),
        ).push(first) + between.filter(not_from(id))).push(second),
{
    let keep = not_from(id);
    reveal(Seq::filter);
    let head = tasks.push(first);
    assert(head.drop_last() =~= tasks);
    assert(head.filter(keep) == tasks.filter(keep).push(first));
    Seq::filter_distributes_over_add(head, between, keep);
    let body = head + between;
    let queued = body.push(second);
    assert(queued.drop_last() =~= body);
    assert(queued.filter(keep) == body.filter(keep).push(second));
}

/// After a registration for a slot has succeeded no call is pending for that
/// slot, so none is pending that would run the function registered before.
/// From then on an event of the slot is delivered by a call of the newly
/// registered function with the newly registered word, and is dropped if the
/// registration was withdrawn.
pub proof fn lemma_resubscribe_cancels(
    v: ProcessView,
    id: CallbackId,
    callback_ptr: usize,
    appdata: usize,
    a0: usize,
    a1: usize,
    a2: usize,
)
    requires
        subscribe_error(v, id, callback_ptr) is None,
    ensures
        ({
            let w = subscribed(v, id, callback_ptr, appdata);
            &&& forall|i: int|
                0 <= i < w.tasks.len() ==> (#[trigger] w.tasks[i]).source
                    != FunctionCallSource::Driver(id)
            &&& event_call(w, id, a0, a1, a2).pc == callback_ptr
            &&& event_call(w, id, a0, a1, a2).argument3 == appdata
            &&& callback_ptr == 0 ==> !accepts_event(w, id)
        }),
{
    let w = subscribed(v, id, callback_ptr, appdata);
    assert forall|i: int| 0 <= i < w.tasks.len() implies (#[trigger] w.tasks[i]).source
        != FunctionCallSource::Driver(id) by {
        v.tasks.lemma_filter_pred(not_from(id), i);
    }
}

/// Every pending call that delivers a driver's event runs the function that
/// is registered for its slot, with the word registered for it.
pub proof fn lemma_pending_calls_are_current(process: Process, i: int, id: CallbackId)
    requires
        process.wf(),
        0 <= i < process@.tasks.len(),
        process@.tasks[i].source == FunctionCallSource::Driver(id),
    ensures
        process@.subscriptions.contains_key(id),
        process@.tasks[i].pc == process@.subscriptions[id].fn_ptr,
        process@.tasks[i].argument3 == process@.subscriptions[id].appdata,
{
    assert(call_is_current(process@, process@.tasks[i]));
}

/// An allow of no bytes that the driver accepts succeeds wherever the range
/// is said to start, provided the slot exists or a slot is free: the
/// process gets back the range that the slot held before, and finds the tag
/// of a success with two words, the address of that range and its length in
/// its first three registers.
pub proof fn lemma_empty_allow_returns_prior(
    v: ProcessView,
    id: CallbackId,
    address: usize,
    answer: AllowResult,
    prior: Registers,
)
    requires
        answer is Success,
        v.allows.contains_key(id) || v.allow_count < v.slot_capacity,
    ensures
        allow_result(v, id, address, 0, answer) == AllowResult::Success(
            SyscallSuccessAllow { buf: held(v, id) },
        ),
        allow_result(v, id, address, 0, answer).registers(prior) == (
            130u32,
            word_of(held(v, id).addr),
            word_of(held(v, id).size),
            prior.3,
        ),
        held(allowed(v, id, address, 0), id) == (AppSlice { addr: address, size: 0 }),
{
}

/// A running process that registers the function `callback_ptr` with the
/// word `appdata` for a slot and then yields waits for a call. An event
/// `(a0, a1, a2)` that a driver then posts for the slot is accepted as long
/// as there is room in the queue; it becomes the call of `callback_ptr` with
/// the words `(a0, a1, a2, appdata)`, which is taken off the queue after the
/// calls that were pending before it, and next if there were none.
pub proof fn lemma_subscribe_then_yield(
    v: ProcessView,
    id: CallbackId,
    callback_ptr: usize,
    appdata: usize,
    a0: usize,
    a1: usize,
    a2: usize,
)
    requires
        v.state is Running,
        callback_ptr != 0,
        subscribe_error(v, id, callback_ptr) is None,
        subscribed(v, id, callback_ptr, appdata).tasks.len() < v.task_capacity,
    ensures
        ({
            let yielded = with_state(subscribed(v, id, callback_ptr, appdata), State::Yielded);
            let call = FunctionCall {
                source: FunctionCallSource::Driver(id),
                argument0: a0,
                argument1: a1,
                argument2: a2,
                argument3: appdata,
                pc: callback_ptr,
            };
            let posted = with_tasks(yielded, yielded.tasks.push(call));
            &&& accepts_event(yielded, id)
            &&& event_call(yielded, id, a0, a1, a2) == call
            &&& awaits_call(posted)
            &&& after_deliveries(posted.tasks, yielded.tasks.len())[0] == call
            &&& yielded.tasks.len() == 0 ==> posted.tasks[0] == call
        }),
{
    let yielded = with_state(subscribed(v, id, callback_ptr, appdata), State::Yielded);
    let call = event_call(yielded, id, a0, a1, a2);
    let posted = with_tasks(yielded, yielded.tasks.push(call));
    lemma_deliveries_in_order(posted.tasks, yielded.tasks.len());
}

} // verus!
