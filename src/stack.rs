use vstd::prelude::*;
use crate::fill::{FillError, same_direction};
use crate::growth::{Growth, distance};
use crate::memory::{AccessFault, StackMemory, access, filled_from, stored, within};
use crate::space::{AddressSpace, AllocError, GUARD_SIZE};

verus! {

/// Direction in which the fixed-capacity stacks grow.
pub const STACK_GROWTH: Growth = Growth::Downward;

/// Usable bytes of a `OneMbStack`.
pub const ONE_MB: usize = 1048576;

/// Usable bytes of an `EightMbStack`.
pub const EIGHT_MB: usize = 8388608;

/// Memory laid out and backed, with `nominal` usable bytes.
pub open spec fn sized(m: StackMemory, nominal: int) -> bool {
    &&& m.wf()
    &&& m.region_spec().capacity_spec() == nominal
}

/// A memory region that a coroutine can run on. Each kind has one nominal capacity; its
/// `bottom` and `top` delimit exactly that many usable bytes, with a guard beyond `top`.
pub trait Stack: Sized {
    /// Usable bytes of every stack of this kind.
    spec fn nominal() -> int;

    /// The stack's laid-out, backed bytes.
    spec fn memory_spec(&self) -> StackMemory;

    /// Reserves a new stack and its guard in `space`. Fails, leaving `space` as it was,
    /// exactly when the rest of `space` cannot hold them.
    fn new(space: &mut AddressSpace) -> (r: Result<Self, AllocError>)
        requires
            old(space).wf(),
        ensures
            final(space).wf(),
            final(space).limit_spec() == old(space).limit_spec(),
            (r is Ok) <==> Self::nominal() + GUARD_SIZE <= old(space).limit_spec() - old(
                space,
            ).next_spec(),
            match r {
                Ok(s) => {
                    &&& sized(s.memory_spec(), Self::nominal())
                    &&& s.memory_spec().region_spec().base_spec() == old(space).next_spec()
                    &&& s.memory_spec().region_spec().guard_spec() == GUARD_SIZE
                    &&& s.memory_spec().region_spec().growth_spec() == STACK_GROWTH
                    &&& final(space).next_spec() == s.memory_spec().region_spec().reserved_hi()
                    &&& final(space).issued() == old(space).issued().push(
                        s.memory_spec().region_spec(),
                    )
                },
                Err(e) => {
                    &&& e == AllocError::AllocationFailure
                    &&& *final(space) == *old(space)
                },
            };

    /// The stack's memory, for reading and as the source of a migration.
    fn memory(&self) -> (r: &StackMemory)
        ensures
            *r == self.memory_spec();

    /// The end of the usable range where execution begins.
    fn bottom(&self) -> (r: usize)
        requires
            sized(self.memory_spec(), Self::nominal()),
        ensures
            r == self.memory_spec().region_spec().bottom_spec();

    /// The end of the usable range towards which the stack grows.
    fn top(&self) -> (r: usize)
        requires
            sized(self.memory_spec(), Self::nominal()),
        ensures
            r == self.memory_spec().region_spec().top_spec();

    /// Where the reservation is released from, on the platform that keeps room for an
    /// overflow handler beyond the guard; elsewhere an address with no meaning.
    fn deallocation(&self) -> (r: usize)
        requires
            sized(self.memory_spec(), Self::nominal()),
        ensures
            r == self.memory_spec().region_spec().deallocation_spec();

    /// The number of usable bytes: the kind's capacity, and the distance from `bottom` to `top`.
    fn size(&self) -> (r: usize)
        requires
            sized(self.memory_spec(), Self::nominal()),
        ensures
            r == Self::nominal(),
            r == distance(
                self.memory_spec().region_spec().bottom_spec(),
                self.memory_spec().region_spec().top_spec(),
            );

    /// Loads the byte at `addr`; none when `addr` is not one of the usable bytes.
    fn read(&self, addr: usize) -> (r: Option<u8>)
        requires
            sized(self.memory_spec(), Self::nominal()),
        ensures
            r == access(self.memory_spec(), addr as int);

    /// Stores `value` at `addr`; a fault, and nothing stored, when `addr` is not usable.
    fn write(&mut self, addr: usize, value: u8) -> (r: Result<(), AccessFault>)
        requires
            sized(old(self).memory_spec(), Self::nominal()),
        ensures
            sized(final(self).memory_spec(), Self::nominal()),
            stored(old(self).memory_spec(), final(self).memory_spec(), addr, value, r);

    /// Moves the live range between `source_bottom` and `source_top` of `source` into this
    /// stack, keeping each byte's offset from `bottom`. An empty range, and one longer than
    /// this stack, are refused with their reason, and nothing is written.
    fn fill(&mut self, source: &StackMemory, source_bottom: usize, source_top: usize) -> (r:
        Result<(), FillError>)
        requires
            sized(old(self).memory_spec(), Self::nominal()),
            source.wf(),
            within(*source, source_bottom as int, source_top as int),
            same_direction(
                old(self).memory_spec().region_spec(),
                source_bottom as int,
                source_top as int,
            ),
        ensures
            sized(final(self).memory_spec(), Self::nominal()),
            filled_from(
                old(self).memory_spec(),
                final(self).memory_spec(),
                *source,
                source_bottom as int,
                source_top as int,
                r,
            );
}

/// A stack of one mebibyte.
pub struct OneMbStack {
    memory: StackMemory,
}

/// A stack of eight mebibytes.
pub struct EightMbStack {
    memory: StackMemory,
}

/// Reserves `capacity` bytes and a guard in `space` and backs them, for either kind.
fn reserve_backed(space: &mut AddressSpace, capacity: usize) -> (r: Result<StackMemory, AllocError>)
    requires
        old(space).wf(),
        0 < capacity,
        capacity % crate::space::PAGE_SIZE == 0,
    ensures
        final(space).wf(),
        final(space).limit_spec() == old(space).limit_spec(),
        (r is Ok) <==> capacity + GUARD_SIZE <= old(space).limit_spec() - old(space).next_spec(),
        match r {
            Ok(m) => {
                &&& m.wf()
                &&& m.region_spec().capacity_spec() == capacity
                &&& m.region_spec().base_spec() == old(space).next_spec()
                &&& m.region_spec().guard_spec() == GUARD_SIZE
                &&& m.region_spec().growth_spec() == STACK_GROWTH
                &&& final(space).next_spec() == m.region_spec().reserved_hi()
                &&& final(space).issued() == old(space).issued().push(m.region_spec())
            },
            Err(e) => {
                &&& e == AllocError::AllocationFailure
                &&& *final(space) == *old(space)
            },
        },
{
    let region = match space.reserve(capacity, STACK_GROWTH) {
        Ok(region) => region,
        Err(e) => return Err(e),
    };
    Ok(StackMemory::new(region))
}

impl Stack for OneMbStack {
    open spec fn nominal() -> int {
        ONE_MB as int
    }

    closed spec fn memory_spec(&self) -> StackMemory {
        self.memory
    }

    fn new(space: &mut AddressSpace) -> (r: Result<Self, AllocError>) {
        match reserve_backed(space, ONE_MB) {
            Ok(memory) => Ok(OneMbStack { memory }),
            Err(e) => Err(e),
        }
    }

    fn memory(&self) -> (r: &StackMemory) {
        &self.memory
    }

    fn bottom(&self) -> (r: usize) {
        self.memory.region().bottom()
    }

    fn top(&self) -> (r: usize) {
        self.memory.region().top()
    }

    fn deallocation(&self) -> (r: usize) {
        self.memory.region().deallocation()
    }

    fn size(&self) -> (r: usize) {
        self.memory.region().size()
    }

    fn read(&self, addr: usize) -> (r: Option<u8>) {
        self.memory.read(addr)
    }

    fn write(&mut self, addr: usize, value: u8) -> (r: Result<(), AccessFault>) {
        self.memory.write(addr, value)
    }

    fn fill(&mut self, source: &StackMemory, source_bottom: usize, source_top: usize) -> (r:
        Result<(), FillError>) {
        self.memory.fill(source, source_bottom, source_top)
    }
}

impl Stack for EightMbStack {
    open spec fn nominal() -> int {
        EIGHT_MB as int
    }

    closed spec fn memory_spec(&self) -> StackMemory {
        self.memory
    }

    fn new(space: &mut AddressSpace) -> (r: Result<Self, AllocError>) {
        match reserve_backed(space, EIGHT_MB) {
            Ok(memory) => Ok(EightMbStack { memory }),
            Err(e) => Err(e),
        }
    }

    fn memory(&self) -> (r: &StackMemory) {
        &self.memory
    }

    fn bottom(&self) -> (r: usize) {
        self.memory.region().bottom()
    }

    fn top(&self) -> (r: usize) {
        self.memory.region().top()
    }

    fn deallocation(&self) -> (r: usize) {
        self.memory.region().deallocation()
    }

    fn size(&self) -> (r: usize) {
        self.memory.region().size()
    }

    fn read(&self, addr: usize) -> (r: Option<u8>) {
        self.memory.read(addr)
    }

    fn write(&mut self, addr: usize, value: u8) -> (r: Result<(), AccessFault>) {
        self.memory.write(addr, value)
    }

    fn fill(&mut self, source: &StackMemory, source_bottom: usize, source_top: usize) -> (r:
        Result<(), FillError>) {
        self.memory.fill(source, source_bottom, source_top)
    }
}

} // verus!
