//! The kernel proper: the processes of a board, its drivers, and the
//! round-robin scheduler that runs the one with the other.

use vstd::prelude::*;
use crate::boundary::{MemoryProtection, SchedulerTimer, UserspaceKernelBoundary};
use crate::callback::CallbackId;
use crate::capabilities::{Capabilities, MainLoopCapability, ProcessManagementCapability};
use crate::dispatch::{pass_result, run_process, FaultAction, StepOutcome};
use crate::driver::{Driver, DriverTable};
use crate::process::{accepts_event, coherent, event_call, loaded, runnable, with_tasks,
    FaultResponse, LoadError, MemoryLayout, Process, ProcessView, REGIONS_PER_PROCESS};
use crate::round_robin::{lemma_round_visits_all, origin_of, slot_at};

verus! {

/// Whether the `k`-th candidate of the round that starts at the cursor is
/// the first that can run.
pub open spec fn first_runnable(views: Seq<ProcessView>, cursor: usize, k: int) -> bool {
    let n = views.len();
    let origin = origin_of(cursor, n);
    &&& 0 <= k < n
    &&& runnable(views[slot_at(origin, k, n as int)])
    &&& forall|j: int| 0 <= j < k ==> !runnable(#[trigger] views[slot_at(origin, j, n as int)])
}

/// Whether no process can run.
pub open spec fn all_idle(views: Seq<ProcessView>) -> bool {
    forall|i: int| 0 <= i < views.len() ==> !runnable(#[trigger] views[i])
}

/// Why a run of the scheduler ended.
#[derive(Clone, Copy, Debug, PartialEq, Eq, Structural)]
pub enum LoopEnd {
    /// No process can run: the processor may sleep until an interrupt.
    Idle,
    /// The allowed number of passes has been made.
    BudgetSpent,
    /// The process at this position faulted and the kernel is to halt.
    Panic(usize),
}

/// The chip of a board, its processes, what the architecture keeps for each
/// of them, the board's drivers, and the scheduler's cursor.
pub struct Kernel<
    A: UserspaceKernelBoundary,
    M: MemoryProtection,
    T: SchedulerTimer,
    D: Driver,
> {
    arch: A,
    mpu: M,
    timer: T,
    timeslice_us: u32,
    region_slots: usize,
    processes: Vec<Process>,
    states: Vec<A::StoredState>,
    drivers: DriverTable<D>,
    capacity: usize,
    cursor: usize,
    fault_response: FaultResponse,
}

impl<A: UserspaceKernelBoundary, M: MemoryProtection, T: SchedulerTimer, D: Driver> Kernel<
    A,
    M,
    T,
    D,
> {
    /// The records of the processes, in the order in which they were loaded.
    pub closed spec fn views(&self) -> Seq<ProcessView> {
        Seq::new(self.processes@.len(), |i: int| self.processes@[i]@)
    }

    /// The position at which the next round of the scheduler starts.
    pub closed spec fn cursor(&self) -> usize {
        self.cursor
    }

    /// The most processes the kernel may hold.
    pub closed spec fn limit(&self) -> nat {
        self.capacity as nat
    }

    /// How the kernel responds to a fault of a process.
    pub closed spec fn response(&self) -> FaultResponse {
        self.fault_response
    }

    /// The length of a timeslice, in microseconds.
    pub closed spec fn timeslice(&self) -> u32 {
        self.timeslice_us
    }

    /// How many regions the memory-protection unit said it can open at once
    /// when the kernel was made.
    pub closed spec fn region_slots(&self) -> usize {
        self.region_slots
    }

    /// The error of the board's configuration, if there is one, for which a
    /// process with the given layout cannot be loaded: the layout is
    /// unusable, the memory-protection unit cannot hold the regions of a
    /// process, or the kernel is full.
    pub open spec fn configuration_error(&self, layout: MemoryLayout) -> Option<LoadError> {
        if layout.layout_error() is Some {
            layout.layout_error()
        } else if self.region_slots() < REGIONS_PER_PROCESS {
            Some(LoadError::TooManyRegions)
        } else if self.views().len() >= self.limit() {
            Some(LoadError::NoProcessSlot)
        } else {
            None
        }
    }

    /// The architecture of the chip. It is given to the kernel when the
    /// kernel is made and stays the same from then on.
    pub closed spec fn architecture(&self) -> A {
        self.arch
    }

    /// The memory-protection unit of the chip, as the last pass of the
    /// scheduler left it.
    pub closed spec fn protection(&self) -> M {
        self.mpu
    }

    /// What the architecture keeps for each process, in the order of the
    /// processes.
    pub closed spec fn states(&self) -> Seq<A::StoredState> {
        self.states@
    }

    /// The timer of the chip, as the last pass of the scheduler left it.
    pub closed spec fn clock(&self) -> T {
        self.timer
    }

    /// The numbers of the registered drivers.
    pub closed spec fn driver_numbers(&self) -> Seq<usize> {
        self.drivers.numbers()
    }

    /// The kernel is well formed: every record is, and the architecture
    /// keeps a state for each process.
    pub closed spec fn wf(&self) -> bool {
        &&& self.processes@.len() == self.states@.len()
        &&& self.processes@.len() <= self.capacity
        &&& forall|i: int| 0 <= i < self.processes@.len() ==> (#[trigger] self.processes@[i]).wf()
        &&& forall|i: int|
            0 <= i < self.processes@.len() ==> (#[trigger] self.processes@[i])@.id == i
    }

    /// In a well-formed kernel every process record is coherent, its
    /// identity is its position, and so its saved stack pointer lies in its
    /// stack; and the architecture keeps one state for each process.
    pub proof fn lemma_records_coherent(&self, i: int)
        requires
            self.wf(),
            0 <= i < self.views().len(),
        ensures
            coherent(self.views()[i]),
            self.views()[i].id == i,
            self.views()[i].layout.in_stack(self.views()[i].saved_sp),
            self.views().len() <= self.limit(),
            self.states().len() == self.views().len(),
    {
        assert(self.processes@[i].wf());
    }

    /// A kernel for the chip made of `arch`, `mpu` and `timer`, without
    /// processes, that will hold up to `capacity` of them, serve them with
    /// `drivers`, let each run for `timeslice_us` microseconds at a stretch,
    /// and respond to their faults as `fault_response` says. With it come
    /// the capabilities that its privileged entry points ask for.
    pub fn new(
        arch: A,
        mpu: M,
        timer: T,
        timeslice_us: u32,
        drivers: DriverTable<D>,
        capacity: usize,
        fault_response: FaultResponse,
    ) -> (made: (Self, Capabilities))
        ensures
            made.0.wf(),
            made.0.views() == Seq::<ProcessView>::empty(),
            made.0.cursor() == 0,
            made.0.limit() == capacity,
            made.0.response() == fault_response,
            made.0.timeslice() == timeslice_us,
            made.0.driver_numbers() == drivers.numbers(),
            made.0.architecture() == arch,
            made.0.protection() == mpu,
            made.0.clock() == timer,
            made.0.states() == Seq::<A::StoredState>::empty(),
    {
        let region_slots = mpu.region_slots();
        let kernel = Kernel {
            arch,
            mpu,
            timer,
            timeslice_us,
            region_slots,
            processes: Vec::new(),
            states: Vec::new(),
            drivers,
            capacity,
            cursor: 0,
            fault_response,
        };
        assert(kernel.views() =~= Seq::<ProcessView>::empty());
        (kernel, Capabilities::issue())
    }

    /// The architecture of the chip.
    pub fn arch(&self) -> (arch: &A)
        ensures
            *arch == self.architecture(),
    {
        &self.arch
    }

    /// The memory-protection unit of the chip.
    pub fn mpu(&self) -> (mpu: &M)
        ensures
            *mpu == self.protection(),
    {
        &self.mpu
    }

    /// The timer of the chip.
    pub fn timer(&self) -> (timer: &T)
        ensures
            *timer == self.clock(),
    {
        &self.timer
    }

    /// The length of a timeslice, in microseconds.
    pub fn timeslice_us(&self) -> (timeslice_us: u32)
        ensures
            timeslice_us == self.timeslice(),
    {
        self.timeslice_us
    }

    /// How many regions the memory-protection unit can open at once.
    pub fn mpu_slots(&self) -> (slots: usize)
        ensures
            slots == self.region_slots(),
    {
        self.region_slots
    }

    /// The number of processes.
    pub fn process_count(&self) -> (count: usize)
        ensures
            count == self.views().len(),
    {
        self.processes.len()
    }

    /// The record of the process at position `index`.
    pub fn process(&self, index: usize) -> (process: &Process)
        requires
            self.wf(),
            index < self.views().len(),
        ensures
            process@ == self.views()[index as int],
            process.wf(),
    {
        &self.processes[index]
    }

    /// What the architecture keeps for the process at position `index`.
    pub fn stored_state(&self, index: usize) -> (state: &A::StoredState)
        requires
            self.wf(),
            index < self.views().len(),
        ensures
            index < self.states().len(),
            *state == self.states()[index as int],
    {
        &self.states[index]
    }

    /// The drivers of the board.
    pub fn drivers(&self) -> (drivers: &DriverTable<D>)
        ensures
            drivers.numbers() == self.driver_numbers(),
    {
        &self.drivers
    }

    /// Loads a process with the given layout: the architecture sets up its
    /// first stack frame in `state`, and the record is made from what it
    /// answers. The process gets the next free position as its identity.
    /// A layout that is unusable, a memory-protection unit that cannot hold
    /// the regions of a process, and a kernel that is full are errors of
    /// the board's configuration; they are found here, before the process
    /// exists. Where loading fails the kernel is left as it was.
    pub fn load_process(
        &mut self,
        layout: MemoryLayout,
        state: A::StoredState,
        task_capacity: usize,
        slot_capacity: usize,
        _capability: &ProcessManagementCapability,
    ) -> (outcome: Result<usize, LoadError>)
        requires
            old(self).wf(),
        ensures
            final(self).wf(),
            final(self).cursor() == old(self).cursor(),
            final(self).limit() == old(self).limit(),
            final(self).response() == old(self).response(),
            final(self).timeslice() == old(self).timeslice(),
            final(self).driver_numbers() == old(self).driver_numbers(),
            final(self).region_slots() == old(self).region_slots(),
            old(self).configuration_error(layout) matches Some(error) ==> outcome == Err::<
                usize,
                LoadError,
            >(error),
            old(self).configuration_error(layout) is None ==> (outcome matches Err(error)
                ==> error is InitializationFailed || error is BadStackPointer
                || error is NoTaskRoom),
            task_capacity == 0 ==> outcome is Err,
            outcome matches Ok(index) ==> index == old(self).views().len() && final(self).views()
                == old(self).views().push(
                loaded(
                    index,
                    layout,
                    final(self).views()[index as int].saved_sp,
                    task_capacity,
                    slot_capacity,
                ),
            ),
            outcome is Err ==> final(self).views() == old(self).views() && final(self).states()
                == old(self).states(),
            outcome matches Ok(index) ==> final(self).states() == old(self).states().push(
                final(self).states()[index as int],
            ),
            final(self).architecture() == old(self).architecture(),
            final(self).protection() == old(self).protection(),
    {
        match layout.check_layout() {
            Some(error) => {
                return Err(error);
            },
            None => {},
        }
        if self.region_slots < REGIONS_PER_PROCESS {
            return Err(LoadError::TooManyRegions);
        }
        if self.processes.len() >= self.capacity {
            return Err(LoadError::NoProcessSlot);
        }
        let mut state = state;
        let index = self.processes.len();
        match self.arch.initialize_process(layout.stack_base(), layout.stack_size, &mut state) {
            Err(_) => Err(LoadError::InitializationFailed),
            Ok(sp) => match Process::create(index, layout, sp, task_capacity, slot_capacity) {
                Err(error) => Err(error),
                Ok(process) => {
                    let ghost before = self.views();
                    let ghost kept = self.states();
                    self.processes.push(process);
                    self.states.push(state);
                    proof {
                        assert(self.views() =~= before.push(process@));
                        assert(self.states() =~= kept.push(self.states()[index as int]));
                    }
                    Ok(index)
                },
            },
        }
    }

    /// Queues an event of slot `id` for the process at position `index`, as
    /// a driver does when something has happened that the process
    /// subscribed to. The event is dropped where there is no such process
    /// and where the process does not accept it.
    pub fn post_event(&mut self, index: usize, id: CallbackId, a0: usize, a1: usize, a2: usize)
        -> (posted: bool)
        requires
            old(self).wf(),
        ensures
            final(self).wf(),
            final(self).cursor() == old(self).cursor(),
            final(self).limit() == old(self).limit(),
            final(self).response() == old(self).response(),
            final(self).timeslice() == old(self).timeslice(),
            final(self).driver_numbers() == old(self).driver_numbers(),
            final(self).region_slots() == old(self).region_slots(),
            posted == (index < old(self).views().len() && accepts_event(
                old(self).views()[index as int],
                id,
            )),
            posted ==> final(self).views() == old(self).views().update(
                index as int,
                with_tasks(
                    old(self).views()[index as int],
                    old(self).views()[index as int].tasks.push(
                        event_call(old(self).views()[index as int], id, a0, a1, a2),
                    ),
                ),
            ),
            !posted ==> final(self).views() == old(self).views(),
            final(self).states() == old(self).states(),
            final(self).architecture() == old(self).architecture(),
            final(self).protection() == old(self).protection(),
    {
        if index >= self.processes.len() {
            return false;
        }
        let ghost before = self.views();
        let process = &mut self.processes[index];
        let posted = process.post_event(id, a0, a1, a2);
        proof {
            if posted {
                assert(self.views() =~= before.update(
                    index as int,
                    with_tasks(
                        before[index as int],
                        before[index as int].tasks.push(
                            event_call(before[index as int], id, a0, a1, a2),
                        ),
                    ),
                ));
            } else {
                assert(self.views() =~= before);
            }
        }
        posted
    }

    /// The process that the scheduler runs next: the first that can run,
    /// going round from the cursor. `None` when no process can run.
    pub fn next_runnable(&self) -> (chosen: Option<usize>)
        requires
            self.wf(),
        ensures
            chosen matches Some(i) ==> i < self.views().len() && exists|k: int|
                first_runnable(self.views(), self.cursor(), k) && i == slot_at(
                    origin_of(self.cursor(), self.views().len()),
                    k,
                    self.views().len() as int,
                ),
            chosen is None ==> all_idle(self.views()),
    {
        let n = self.processes.len();
        let origin = if self.cursor < n {
            self.cursor
        } else {
            0
        };
        let mut k: usize = 0;
        while k < n
            invariant
                n == self.processes@.len(),
                n == self.views().len(),
                origin == origin_of(self.cursor(), self.views().len()),
                origin < n || n == 0,
                k <= n,
                forall|j: int|
                    0 <= j < k ==> !runnable(
                        #[trigger] self.views()[slot_at(origin as int, j, n as int)],
                    ),
            decreases n - k,
        {
            let at = if k < n - origin {
                origin + k
            } else {
                k - (n - origin)
            };
            assert(at == slot_at(origin as int, k as int, n as int));
            if self.processes[at].ready() {
                assert(first_runnable(self.views(), self.cursor(), k as int));
                return Some(at);
            }
            k += 1;
        }
        proof {
            assert forall|i: int| 0 <= i < self.views().len() implies !runnable(
                #[trigger] self.views()[i],
            ) by {
                lemma_round_visits_all(origin as int, n as int, i);
                let j = if i >= origin {
                    i - origin
                } else {
                    i + n - origin
                };
                assert(slot_at(origin as int, j, n as int) == i);
            }
        }
        None
    }

    /// One pass of the scheduler: the next process that can run is run once,
    /// and the cursor moves behind it. Says which process it was and how
    /// its pass ended, or `None`, with nothing changed, when no process can
    /// run.
    pub fn step(&mut self, _capability: &MainLoopCapability) -> (ran: Option<(
        usize,
        StepOutcome,
    )>)
        requires
            old(self).wf(),
        ensures
            final(self).wf(),
            final(self).views().len() == old(self).views().len(),
            final(self).limit() == old(self).limit(),
            final(self).response() == old(self).response(),
            final(self).timeslice() == old(self).timeslice(),
            final(self).driver_numbers() == old(self).driver_numbers(),
            final(self).region_slots() == old(self).region_slots(),
            ran is None <==> all_idle(old(self).views()),
            ran is None ==> final(self).views() == old(self).views() && final(self).cursor()
                == old(self).cursor() && final(self).states() == old(self).states()
                && final(self).protection() == old(self).protection(),
            final(self).architecture() == old(self).architecture(),
            final(self).states().len() == old(self).states().len(),
            ran matches Some((i, outcome)) ==> {
                &&& i < old(self).views().len()
                &&& exists|k: int|
                    first_runnable(old(self).views(), old(self).cursor(), k) && i == slot_at(
                        origin_of(old(self).cursor(), old(self).views().len()),
                        k,
                        old(self).views().len() as int,
                    )
                &&& final(self).cursor() == slot_at(i as int, 1, old(self).views().len() as int)
                &&& pass_result(
                    old(self).views()[i as int],
                    final(self).views()[i as int],
                    outcome,
                    old(self).response(),
                )
                &&& forall|j: int|
                    0 <= j < old(self).views().len() && j != i
                        ==> #[trigger] final(self).views()[j] == old(self).views()[j]
                &&& forall|j: int|
                    0 <= j < old(self).states().len() && j != i
                        ==> #[trigger] final(self).states()[j] == old(self).states()[j]
            },
    {
        match self.next_runnable() {
            None => None,
            Some(i) => {
                let response = self.fault_response;
                let ghost before = self.processes@;
                let process = &mut self.processes[i];
                let state = &mut self.states[i];
                let outcome = run_process(
                    &self.arch,
                    &mut self.mpu,
                    &mut self.timer,
                    self.timeslice_us,
                    &mut self.drivers,
                    process,
                    state,
                    response,
                );
                self.cursor = if i + 1 < self.processes.len() {
                    i + 1
                } else {
                    0
                };
                proof {
                    assert(runnable(before[i as int]@));
                    assert forall|j: int| 0 <= j < before.len() && j != i implies self.views()[j]
                        == old(self).views()[j] by {
                        assert(self.processes@[j] == before[j]);
                    }
                }
                Some((i, outcome))
            },
        }
    }

    /// Runs the scheduler for at most `budget` passes. It stops before that
    /// when no process can run, and when a process has faulted and the
    /// kernel is to halt. What it leaves behind is what its passes, one after
    /// the other, have made of the records and of the cursor: with nothing
    /// to run, and with no budget, that is what it found.
    pub fn kernel_loop(&mut self, budget: usize, capability: &MainLoopCapability) -> (end:
        LoopEnd)
        requires
            old(self).wf(),
        ensures
            final(self).wf(),
            final(self).views().len() == old(self).views().len(),
            final(self).limit() == old(self).limit(),
            final(self).response() == old(self).response(),
            final(self).timeslice() == old(self).timeslice(),
            final(self).driver_numbers() == old(self).driver_numbers(),
            final(self).region_slots() == old(self).region_slots(),
            final(self).architecture() == old(self).architecture(),
            final(self).states().len() == old(self).states().len(),
            end is Idle ==> all_idle(final(self).views()),
            end is BudgetSpent ==> !all_idle(final(self).views()),
            end matches LoopEnd::Panic(i) ==> i < final(self).views().len()
                && final(self).response() is Panic
                && final(self).views()[i as int].state is StoppedFaulted,
            all_idle(old(self).views()) ==> end is Idle,
            all_idle(old(self).views()) || budget == 0 ==> final(self).views() == old(self).views()
                && final(self).cursor() == old(self).cursor(),
            budget == 0 && !all_idle(old(self).views()) ==> end is BudgetSpent,
            exists|picks: Seq<int>|
                {
                    &&& #[trigger] passes_made(
                        old(self).views(),
                        old(self).cursor(),
                        final(self).views(),
                        final(self).cursor(),
                        old(self).response(),
                        picks,
                    )
                    &&& picks.len() <= budget
                    &&& end is BudgetSpent ==> picks.len() == budget
                    &&& budget > 0 && !all_idle(old(self).views()) ==> picks.len() >= 1
                    &&& end matches LoopEnd::Panic(i) ==> picks.len() >= 1 && picks.last() == i
                },
    {
        let mut passes: usize = 0;
        let ghost mut picks: Seq<int> = Seq::empty();
        loop
            invariant
                self.wf(),
                self.views().len() == old(self).views().len(),
                self.limit() == old(self).limit(),
                self.response() == old(self).response(),
                self.timeslice() == old(self).timeslice(),
                self.driver_numbers() == old(self).driver_numbers(),
                self.region_slots() == old(self).region_slots(),
                self.architecture() == old(self).architecture(),
                self.states().len() == old(self).states().len(),
                passes <= budget,
                passes == 0 ==> self.views() == old(self).views()
                    && self.cursor() == old(self).cursor(),
                passes > 0 ==> !all_idle(old(self).views()),
                picks.len() == passes,
                passes_made(
                    old(self).views(),
                    old(self).cursor(),
                    self.views(),
                    self.cursor(),
                    old(self).response(),
                    picks,
                ),
            decreases budget - passes,
        {
            let ghost mid = self.views();
            let ghost at = self.cursor();
            let chosen = self.next_runnable();
            if chosen.is_none() {
                return LoopEnd::Idle;
            }
            proof {
                let k = choose|k: int| first_runnable(mid, at, k);
                assert(runnable(mid[slot_at(origin_of(at, mid.len()), k, mid.len() as int)]));
                assert(!all_idle(mid));
            }
            if passes >= budget {
                return LoopEnd::BudgetSpent;
            }
            match self.step(capability) {
                None => {
                    return LoopEnd::Idle;
                },
                Some((i, outcome)) => {
                    proof {
                        let ghost longer = picks.push(i as int);
                        assert(longer.drop_last() =~= picks);
                        assert(longer.last() == i);
                        assert(pass_made(
                            mid,
                            at,
                            self.views(),
                            self.cursor(),
                            old(self).response(),
                            i as int,
                            outcome,
                        ));
                        assert(passes_made(
                            old(self).views(),
                            old(self).cursor(),
                            self.views(),
                            self.cursor(),
                            old(self).response(),
                            longer,
                        ));
                        picks = longer;
                    }
                    match outcome {
                        StepOutcome::Fault(FaultAction::Panic) => {
                            return LoopEnd::Panic(i);
                        },
                        _ => {},
                    }
                },
            }
            passes += 1;
        }
    }
}

/// Whether one pass of the scheduler leads from the records `before`, with
/// the cursor at `cursor`, to the records `after`, with the cursor at
/// `next`: the process at position `i` is the first that could run, going
/// round from the cursor; its pass ended with `outcome` and made of its
/// record what such a pass may make of it; every other record is as it
/// was; and the cursor stands behind the process.
pub open spec fn pass_made(
    before: Seq<ProcessView>,
    cursor: usize,
    after: Seq<ProcessView>,
    next: usize,
    response: FaultResponse,
    i: int,
    outcome: StepOutcome,
) -> bool {
    let n = before.len();
    &&& after.len() == n
    &&& 0 <= i < n
    &&& exists|k: int|
        first_runnable(before, cursor, k) && i == slot_at(origin_of(cursor, n), k, n as int)
    &&& next == slot_at(i, 1, n as int)
    &&& pass_result(before[i], after[i], outcome, response)
    &&& forall|j: int| 0 <= j < n && j != i ==> #[trigger] after[j] == before[j]
}

/// Whether passes of the scheduler over the processes at the positions
/// `picks`, one after the other and in that order, lead from the records
/// `before`, with the cursor at `cursor`, to the records `after`, with the
/// cursor at `next`.
pub open spec fn passes_made(
    before: Seq<ProcessView>,
    cursor: usize,
    after: Seq<ProcessView>,
    next: usize,
    response: FaultResponse,
    picks: Seq<int>,
) -> bool
    decreases picks.len(),
{
    if picks.len() == 0 {
        after == before && next == cursor
    } else {
        exists|mid: Seq<ProcessView>, at: usize, outcome: StepOutcome|
            passes_made(before, cursor, mid, at, response, picks.drop_last())
                && #[trigger] pass_made(
                mid,
                at,
                after,
                next,
                response,
                picks.last(),
                outcome,
            )
    }
}

/// What the main loop does once a run of the scheduler has ended.
#[derive(Clone, Copy, Debug, PartialEq, Eq, Structural)]
pub enum LoopAction {
    /// Halt the kernel: the process at this position faulted.
    Halt(usize),
    /// Let the clients of the pending deferred calls do their work.
    ServeDeferred,
    /// Run the scheduler again.
    Schedule,
    /// Sleep until an interrupt: there is nothing to do.
    Sleep,
}

/// What the main loop is to do next, given how the last run of the
/// scheduler ended and whether a deferred call is pending.
pub open spec fn action_after(end: LoopEnd, deferred_pending: bool) -> LoopAction {
    match end {
        LoopEnd::Panic(process) => LoopAction::Halt(process),
        LoopEnd::Idle => if deferred_pending {
            LoopAction::ServeDeferred
        } else {
            LoopAction::Sleep
        },
        LoopEnd::BudgetSpent => if deferred_pending {
            LoopAction::ServeDeferred
        } else {
            LoopAction::Schedule
        },
    }
}

/// Decides what the main loop does next. A fault that halts the kernel
/// comes first; then deferred calls, which are served between passes over
/// processes; the processor sleeps only when no process can run and no
/// deferred call is pending.
pub fn next_action(end: LoopEnd, deferred_pending: bool) -> (action: LoopAction)
    ensures
        action == action_after(end, deferred_pending),
        action is Sleep <==> end is Idle && !deferred_pending,
{
    match end {
        LoopEnd::Panic(process) => LoopAction::Halt(process),
        LoopEnd::Idle => if deferred_pending {
            LoopAction::ServeDeferred
        } else {
            LoopAction::Sleep
        },
        LoopEnd::BudgetSpent => if deferred_pending {
            LoopAction::ServeDeferred
        } else {
            LoopAction::Schedule
        },
    }
}

/// How many positions lie between the start of the round that begins at
/// the cursor and position `p`, going round.
pub open spec fn distance(cursor: usize, p: int, n: nat) -> int {
    let origin = origin_of(cursor, n);
    if p >= origin {
        p - origin
    } else {
        p + n - origin
    }
}

/// A pass over another process brings the turn of a process that can run
/// nearer, and leaves its record as it is.
pub proof fn lemma_pass_approaches(
    before: Seq<ProcessView>,
    cursor: usize,
    after: Seq<ProcessView>,
    next: usize,
    response: FaultResponse,
    i: int,
    outcome: StepOutcome,
    p: int,
)
    requires
        pass_made(before, cursor, after, next, response, i, outcome),
        0 <= p < before.len(),
        runnable(before[p]),
        i != p,
    ensures
        after[p] == before[p],
        after.len() == before.len(),
        distance(next, p, before.len()) < distance(cursor, p, before.len()),
{
    let n = before.len();
    let origin = origin_of(cursor, n);
    let k = choose|k: int|
        first_runnable(before, cursor, k) && i == slot_at(origin_of(cursor, n), k, n as int);
    let turn = distance(cursor, p, n);
    lemma_round_visits_all(origin, n as int, p);
    assert(slot_at(origin, turn, n as int) == p);
    if turn < k {
        assert(!runnable(before[slot_at(origin, turn, n as int)]));
    }
    assert(turn > k);
}

/// Passes over other processes leave the record of a process that can run
/// as it is, and there are fewer of them than positions lie between the
/// cursor and the process: the scheduler reaches the process before it has
/// gone round once.
pub proof fn lemma_turn_comes(
    before: Seq<ProcessView>,
    cursor: usize,
    after: Seq<ProcessView>,
    next: usize,
    response: FaultResponse,
    picks: Seq<int>,
    p: int,
)
    requires
        passes_made(before, cursor, after, next, response, picks),
        0 <= p < before.len(),
        runnable(before[p]),
        forall|t: int| 0 <= t < picks.len() ==> picks[t] != p,
    ensures
        after.len() == before.len(),
        after[p] == before[p],
        picks.len() + distance(next, p, before.len()) <= distance(cursor, p, before.len()),
        picks.len() < before.len(),
    decreases picks.len(),
{
    if picks.len() > 0 {
        let (mid, at, outcome) = choose|mid: Seq<ProcessView>, at: usize, outcome: StepOutcome|
            passes_made(before, cursor, mid, at, response, picks.drop_last())
                && #[trigger] pass_made(
                mid,
                at,
                after,
                next,
                response,
                picks.last(),
                outcome,
            );
        assert forall|t: int| 0 <= t < picks.drop_last().len() implies picks.drop_last()[t]
            != p by {
            assert(picks.drop_last()[t] == picks[t]);
        }
        lemma_turn_comes(before, cursor, mid, at, response, picks.drop_last(), p);
        assert(picks.last() == picks[picks.len() - 1]);
        lemma_pass_approaches(mid, at, after, next, response, picks.last(), outcome, p);
    }
}

/// Going from the cursor to a position and from there on to another adds
/// up, as long as the way does not go round.
pub proof fn lemma_distance_adds(cursor: usize, through: usize, q: int, n: nat)
    requires
        through < n,
        0 <= q < n,
        distance(cursor, through as int, n) + distance(through, q, n) < n,
    ensures
        distance(cursor, q, n) == distance(cursor, through as int, n) + distance(through, q, n),
{
}

/// While a process that can run waits for its turn, the scheduler goes
/// forward only: every pass takes a process that lies further from where
/// the first round began than the one before, and nearer than the waiting
/// process. So no process is passed over twice before the waiting process
/// has its turn.
pub proof fn lemma_picks_in_order(
    before: Seq<ProcessView>,
    cursor: usize,
    after: Seq<ProcessView>,
    next: usize,
    response: FaultResponse,
    picks: Seq<int>,
    p: int,
)
    requires
        passes_made(before, cursor, after, next, response, picks),
        0 <= p < before.len(),
        runnable(before[p]),
        forall|t: int| 0 <= t < picks.len() ==> picks[t] != p,
    ensures
        distance(cursor, origin_of(next, before.len()), before.len()) + distance(
            next,
            p,
            before.len(),
        ) == distance(cursor, p, before.len()),
        forall|t: int|
            0 <= t < picks.len() ==> 0 <= #[trigger] picks[t] < before.len() && distance(
                cursor,
                picks[t],
                before.len(),
            ) < distance(cursor, origin_of(next, before.len()), before.len()),
        forall|s: int, t: int|
            0 <= s < t < picks.len() ==> distance(cursor, #[trigger] picks[s], before.len())
                < distance(cursor, #[trigger] picks[t], before.len()),
        picks.no_duplicates(),
    decreases picks.len(),
{
    let n = before.len();
    if picks.len() > 0 {
        let (mid, at, outcome) = choose|mid: Seq<ProcessView>, at: usize, outcome: StepOutcome|
            passes_made(before, cursor, mid, at, response, picks.drop_last())
                && #[trigger] pass_made(mid, at, after, next, response, picks.last(), outcome);
        let earlier = picks.drop_last();
        let i = picks.last();
        assert forall|t: int| 0 <= t < earlier.len() implies earlier[t] != p by {
            assert(earlier[t] == picks[t]);
        }
        lemma_picks_in_order(before, cursor, mid, at, response, earlier, p);
        lemma_turn_comes(before, cursor, mid, at, response, earlier, p);
        lemma_pass_approaches(mid, at, after, next, response, i, outcome, p);
        let through = origin_of(at, n) as usize;
        let k = choose|k: int|
            first_runnable(mid, at, k) && i == slot_at(origin_of(at, n), k, n as int);
        let turn = distance(at, p, n);
        lemma_round_visits_all(through as int, n as int, p);
        if turn < k {
            assert(!runnable(mid[slot_at(through as int, turn, n as int)]));
        }
        assert(k < turn);
        assert(distance(through, i, n) == k);
        lemma_distance_adds(cursor, through, i, n);
        assert(distance(cursor, i, n) == distance(cursor, through as int, n) + k);
        assert(origin_of(next, n) == next);
        assert(distance(cursor, next as int, n) == distance(cursor, i, n) + 1);
        assert forall|t: int| 0 <= t < picks.len() implies 0 <= #[trigger] picks[t] < n
            && distance(cursor, picks[t], n) < distance(cursor, origin_of(next, n), n) by {
            if t < earlier.len() {
                assert(picks[t] == earlier[t]);
            }
        }
        assert forall|s: int, t: int| 0 <= s < t < picks.len() implies distance(
            cursor,
            #[trigger] picks[s],
            n,
        ) < distance(cursor, #[trigger] picks[t], n) by {
            assert(picks[s] == earlier[s]);
            if t < earlier.len() {
                assert(picks[t] == earlier[t]);
            }
        }
    }
}

/// A process whose timeslice has expired is still running, and the
/// scheduler comes back to it after one rotation at most: whatever passes
/// follow over other processes, there are fewer of them than there are
/// processes, and they leave the process able to run.
pub proof fn lemma_expired_timeslice_runs_again(
    before: Seq<ProcessView>,
    cursor: usize,
    mid: Seq<ProcessView>,
    at: usize,
    after: Seq<ProcessView>,
    next: usize,
    response: FaultResponse,
    picks: Seq<int>,
    p: int,
)
    requires
        pass_made(before, cursor, mid, at, response, p, StepOutcome::TimesliceExpired),
        passes_made(mid, at, after, next, response, picks),
        forall|t: int| 0 <= t < picks.len() ==> picks[t] != p,
    ensures
        mid[p].state is Running,
        after[p] == mid[p],
        runnable(after[p]),
        picks.len() <= before.len() - 1,
{
    lemma_turn_comes(mid, at, after, next, response, picks, p);
}

} // verus!
