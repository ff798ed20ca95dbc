//! Drivers and the table through which system calls reach them.

use vstd::prelude::*;
use crate::result::{low_word_of, word_of, AllowResult, CommandResult, SubscribeResult,
    SyscallFailure, SyscallFailureAllowRaw};
use crate::returncode::ReturnCode;

verus! {

/// What an in-kernel driver offers to processes. Every method answers
/// promptly and with a typed result; what a driver does with a call is its
/// own business, so nothing is promised here about its answers.
pub trait Driver {
    /// Performs the operation `sub` for a process.
    fn command(&mut self, process_id: usize, sub: usize, a0: usize, a1: usize) -> CommandResult;

    /// Is told that a process registers (or, with a null pointer, withdraws)
    /// a callback for the events of slot `sub`.
    fn subscribe(&mut self, process_id: usize, sub: usize, callback_ptr: usize, appdata: usize)
        -> SubscribeResult;

    /// Is offered the memory range `[address, address + length)` of a
    /// process for slot `sub`.
    fn allow(&mut self, process_id: usize, sub: usize, address: usize, length: usize)
        -> AllowResult;
}

/// One registered driver with the number under which processes name it.
pub struct DriverEntry<D> {
    pub number: usize,
    pub driver: D,
}

/// The drivers of a board, each under its own number. The table is filled at
/// boot and holds no more drivers than the capacity it was made with.
pub struct DriverTable<D> {
    entries: Vec<DriverEntry<D>>,
    capacity: usize,
}

impl<D: Driver> DriverTable<D> {
    /// The registered drivers in the order of their registration.
    pub closed spec fn entries(&self) -> Seq<DriverEntry<D>> {
        self.entries@
    }

    /// The most drivers the table may hold.
    pub closed spec fn limit(&self) -> nat {
        self.capacity as nat
    }

    /// The driver numbers in the order of their registration.
    pub open spec fn numbers(&self) -> Seq<usize> {
        self.entries().map_values(|e: DriverEntry<D>| e.number)
    }

    /// Whether a driver is registered under `number`.
    pub open spec fn has_driver(&self, number: usize) -> bool {
        self.numbers().contains(number)
    }

    /// No number is registered twice and the capacity is respected.
    pub open spec fn wf(&self) -> bool {
        &&& self.numbers().len() <= self.limit()
        &&& self.numbers().no_duplicates()
    }

    /// A table without drivers that will hold up to `capacity` of them.
    pub fn new(capacity: usize) -> (table: Self)
        ensures
            table.wf(),
            table.limit() == capacity,
            table.numbers() == Seq::<usize>::empty(),
    {
        let table = DriverTable { entries: Vec::new(), capacity };
        assert(table.numbers() =~= Seq::<usize>::empty());
        table
    }

    /// The position of the driver registered under `number`, if there is one.
    pub fn lookup(&self, number: usize) -> (at: Option<usize>)
        ensures
            at is Some <==> self.has_driver(number),
            at matches Some(i) ==> i < self.numbers().len() && self.numbers()[i as int] == number
                && self.entries()[i as int].number == number,
            at is None ==> forall|j: int|
                0 <= j < self.numbers().len() ==> #[trigger] self.numbers()[j] != number,
    {
        let mut i: usize = 0;
        while i < self.entries.len()
            invariant
                i <= self.entries@.len(),
                forall|j: int| 0 <= j < i ==> self.numbers()[j] != number,
            decreases self.entries@.len() - i,
        {
            if self.entries[i].number == number {
                assert(self.numbers()[i as int] == number);
                return Some(i);
            }
            i += 1;
        }
        None
    }

    /// Registers `driver` under `number`. A number that is taken, or a full
    /// table, is a configuration error: the driver comes back and the table
    /// is unchanged.
    pub fn register(&mut self, number: usize, driver: D) -> (outcome: Result<(), D>)
        requires
            old(self).wf(),
        ensures
            final(self).wf(),
            final(self).limit() == old(self).limit(),
            outcome is Ok <==> !old(self).has_driver(number)
                && old(self).numbers().len() < old(self).limit(),
            outcome is Ok ==> final(self).numbers() == old(self).numbers().push(number),
            outcome is Ok ==> final(self).entries() == old(self).entries().push(
                DriverEntry { number, driver },
            ),
            outcome matches Err(d) ==> d == driver && final(self).entries() == old(self).entries(),
    {
        if self.entries.len() >= self.capacity {
            return Err(driver);
        }
        if self.lookup(number).is_some() {
            return Err(driver);
        }
        let ghost before = self.numbers();
        self.entries.push(DriverEntry { number, driver });
        assert(self.numbers() =~= before.push(number));
        Ok(())
    }

    /// Routes a command to the driver named `driver_num`. Without such a
    /// driver the call fails with `ENODEVICE`.
    pub fn command(
        &mut self,
        driver_num: usize,
        process_id: usize,
        sub: usize,
        a0: usize,
        a1: usize,
    ) -> (result: CommandResult)
        ensures
            final(self).numbers() == old(self).numbers(),
            final(self).limit() == old(self).limit(),
            final(self).entries().len() == old(self).entries().len(),
            forall|j: int|
                0 <= j < old(self).entries().len() && old(self).entries()[j].number != driver_num
                    ==> #[trigger] final(self).entries()[j] == old(self).entries()[j],
            !old(self).has_driver(driver_num) ==> result == CommandResult::Failure(
                SyscallFailure { error: ReturnCode::ENODEVICE },
            ),
    {
        match self.lookup(driver_num) {
            Some(i) => {
                let ghost before = self.numbers();
                let entry = &mut self.entries[i];
                let result = entry.driver.command(process_id, sub, a0, a1);
                assert(self.numbers() =~= before);
                result
            },
            None => CommandResult::Failure(SyscallFailure { error: ReturnCode::ENODEVICE }),
        }
    }

    /// Routes a subscribe to the driver named `driver_num`. Without such a
    /// driver the call fails with `ENODEVICE`.
    pub fn subscribe(
        &mut self,
        driver_num: usize,
        process_id: usize,
        sub: usize,
        callback_ptr: usize,
        appdata: usize,
    ) -> (result: SubscribeResult)
        ensures
            final(self).numbers() == old(self).numbers(),
            final(self).limit() == old(self).limit(),
            final(self).entries().len() == old(self).entries().len(),
            forall|j: int|
                0 <= j < old(self).entries().len() && old(self).entries()[j].number != driver_num
                    ==> #[trigger] final(self).entries()[j] == old(self).entries()[j],
            !old(self).has_driver(driver_num) ==> result == SubscribeResult::Failure(
                SyscallFailure { error: ReturnCode::ENODEVICE },
            ),
    {
        match self.lookup(driver_num) {
            Some(i) => {
                let ghost before = self.numbers();
                let entry = &mut self.entries[i];
                let result = entry.driver.subscribe(process_id, sub, callback_ptr, appdata);
                assert(self.numbers() =~= before);
                result
            },
            None => SubscribeResult::Failure(SyscallFailure { error: ReturnCode::ENODEVICE }),
        }
    }

    /// Routes an allow to the driver named `driver_num`. Without such a
    /// driver the call fails with `ENODEVICE` and hands back the two words
    /// that were offered.
    pub fn allow(
        &mut self,
        driver_num: usize,
        process_id: usize,
        sub: usize,
        address: usize,
        length: usize,
    ) -> (result: AllowResult)
        ensures
            final(self).numbers() == old(self).numbers(),
            final(self).limit() == old(self).limit(),
            final(self).entries().len() == old(self).entries().len(),
            forall|j: int|
                0 <= j < old(self).entries().len() && old(self).entries()[j].number != driver_num
                    ==> #[trigger] final(self).entries()[j] == old(self).entries()[j],
            !old(self).has_driver(driver_num) ==> result == AllowResult::FailureRaw(
                SyscallFailureAllowRaw {
                    error: ReturnCode::ENODEVICE,
                    addr: word_of(address),
                    len: word_of(length),
                },
            ),
    {
        match self.lookup(driver_num) {
            Some(i) => {
                let ghost before = self.numbers();
                let entry = &mut self.entries[i];
                let result = entry.driver.allow(process_id, sub, address, length);
                assert(self.numbers() =~= before);
                result
            },
            None => AllowResult::FailureRaw(
                SyscallFailureAllowRaw {
                    error: ReturnCode::ENODEVICE,
                    addr: low_word_of(address),
                    len: low_word_of(length),
                },
            ),
        }
    }

    /// The number of registered drivers.
    pub fn len(&self) -> (count: usize)
        ensures
            count == self.numbers().len(),
    {
        self.entries.len()
    }

    /// The driver at position `at`, as `lookup` gives it.
    pub fn driver(&self, at: usize) -> (driver: &D)
        requires
            at < self.numbers().len(),
        ensures
            *driver == self.entries()[at as int].driver,
    {
        &self.entries[at].driver
    }

    /// In a well-formed table a number is filed once. So the entry that
    /// `lookup` finds under a number is the only one with that number, and
    /// the driver in it is the driver that was registered under it.
    pub proof fn lemma_number_filed_once(&self, i: int, j: int)
        requires
            self.wf(),
            0 <= i < self.entries().len(),
            0 <= j < self.entries().len(),
            self.entries()[i].number == self.entries()[j].number,
        ensures
            i == j,
    {
        assert(self.numbers()[i] == self.entries()[i].number);
        assert(self.numbers()[j] == self.entries()[j].number);
    }
}

} // verus!
