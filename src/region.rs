use vstd::prelude::*;
use crate::growth::{Growth, distance};

verus! {

/// Alignment that the calling convention asks of a stack pointer.
pub const STACK_ALIGN: usize = 16;

/// Placement of one stack inside a reservation of `capacity + guard` bytes that starts at
/// `base`. The usable bytes are `[lo, hi)`; the guard lies beyond `top`, the end towards
/// which the stack grows, so that running past `top` lands in it.
///
/// Growing downward: guard `[base, base + guard)`, usable above it, `bottom` the highest
/// usable address, `top` the lowest, and `deallocation` the lowest reserved address.
/// Growing upward: usable `[base, base + capacity)`, guard above it, `bottom == base`,
/// and `deallocation` the end of the reservation.
#[derive(Clone, Copy, Debug, PartialEq, Eq, Structural)]
pub struct Region {
    base: usize,
    capacity: usize,
    guard: usize,
    growth: Growth,
}

/// A reservation of `capacity + guard` bytes from `base` fits the address space, holds at
/// least one usable byte and one guard byte, and keeps both ends of the usable range aligned.
pub open spec fn layout_fits(base: int, capacity: int, guard: int) -> bool {
    &&& 0 <= base
    &&& 0 < capacity
    &&& 0 < guard
    &&& base + capacity + guard <= usize::MAX
    &&& base % (STACK_ALIGN as int) == 0
    &&& capacity % (STACK_ALIGN as int) == 0
    &&& guard % (STACK_ALIGN as int) == 0
}

impl Region {
    pub closed spec fn base_spec(self) -> int {
        self.base as int
    }

    pub closed spec fn capacity_spec(self) -> int {
        self.capacity as int
    }

    pub closed spec fn guard_spec(self) -> int {
        self.guard as int
    }

    pub closed spec fn growth_spec(self) -> Growth {
        self.growth
    }

    /// The reservation fits the address space, and both ends of the usable range are aligned.
    pub open spec fn wf(self) -> bool {
        layout_fits(self.base_spec(), self.capacity_spec(), self.guard_spec())
    }

    /// Lowest usable address.
    pub open spec fn lo(self) -> int {
        match self.growth_spec() {
            Growth::Downward => self.base_spec() + self.guard_spec(),
            Growth::Upward => self.base_spec(),
        }
    }

    /// One past the highest usable address.
    pub open spec fn hi(self) -> int {
        self.lo() + self.capacity_spec()
    }

    pub open spec fn bottom_spec(self) -> int {
        match self.growth_spec() {
            Growth::Downward => self.hi(),
            Growth::Upward => self.lo(),
        }
    }

    pub open spec fn top_spec(self) -> int {
        match self.growth_spec() {
            Growth::Downward => self.lo(),
            Growth::Upward => self.hi(),
        }
    }

    pub open spec fn deallocation_spec(self) -> int {
        match self.growth_spec() {
            Growth::Downward => self.base_spec(),
            Growth::Upward => self.reserved_hi(),
        }
    }

    /// First address of the guard.
    pub open spec fn guard_lo(self) -> int {
        match self.growth_spec() {
            Growth::Downward => self.base_spec(),
            Growth::Upward => self.hi(),
        }
    }

    /// One past the last address of the guard.
    pub open spec fn guard_hi(self) -> int {
        self.guard_lo() + self.guard_spec()
    }

    pub open spec fn reserved_lo(self) -> int {
        self.base_spec()
    }

    pub open spec fn reserved_hi(self) -> int {
        self.base_spec() + self.capacity_spec() + self.guard_spec()
    }

    /// Whether an address is one of the usable bytes.
    pub open spec fn usable(self, addr: int) -> bool {
        self.lo() <= addr < self.hi()
    }

    /// Whether an address lies in the guard.
    pub open spec fn in_guard(self, addr: int) -> bool {
        self.guard_lo() <= addr < self.guard_hi()
    }

    /// Lays a stack of `capacity` usable bytes and a `guard` out from `base`; none where the
    /// reservation would pass the end of the address space, the capacity or the guard is zero, or an
    /// argument is not a multiple of `STACK_ALIGN`.
    pub fn new(base: usize, capacity: usize, guard: usize, growth: Growth) -> (r: Option<Region>)
        ensures
            match r {
                Some(reg) => {
                    &&& reg.wf()
                    &&& reg.base_spec() == base
                    &&& reg.capacity_spec() == capacity
                    &&& reg.guard_spec() == guard
                    &&& reg.growth_spec() == growth
                },
                None => !layout_fits(base as int, capacity as int, guard as int),
            },
    {
        if capacity == 0 || guard == 0 || base % STACK_ALIGN != 0 || capacity % STACK_ALIGN != 0 || guard
            % STACK_ALIGN != 0 {
            return None;
        }
        if capacity > usize::MAX - base || guard > usize::MAX - base - capacity {
            return None;
        }
        Some(Region { base, capacity, guard, growth })
    }

    pub fn base(&self) -> (r: usize)
        ensures
            r == self.base_spec(),
    {
        self.base
    }

    pub fn capacity(&self) -> (r: usize)
        ensures
            r == self.capacity_spec(),
    {
        self.capacity
    }

    pub fn guard(&self) -> (r: usize)
        ensures
            r == self.guard_spec(),
    {
        self.guard
    }

    pub fn growth(&self) -> (r: Growth)
        ensures
            r == self.growth_spec(),
    {
        self.growth
    }

    /// Lowest usable address.
    pub fn lo_addr(&self) -> (r: usize)
        requires
            self.wf(),
        ensures
            r == self.lo(),
    {
        match self.growth {
            Growth::Downward => self.base + self.guard,
            Growth::Upward => self.base,
        }
    }

    /// One past the highest usable address.
    pub fn hi_addr(&self) -> (r: usize)
        requires
            self.wf(),
        ensures
            r == self.hi(),
    {
        self.lo_addr() + self.capacity
    }

    pub fn bottom(&self) -> (r: usize)
        requires
            self.wf(),
        ensures
            r == self.bottom_spec(),
    {
        match self.growth {
            Growth::Downward => self.hi_addr(),
            Growth::Upward => self.lo_addr(),
        }
    }

    pub fn top(&self) -> (r: usize)
        requires
            self.wf(),
        ensures
            r == self.top_spec(),
    {
        match self.growth {
            Growth::Downward => self.lo_addr(),
            Growth::Upward => self.hi_addr(),
        }
    }

    /// Where the reservation that holds the stack is released from, on the platform whose
    /// overflow handling reserves room beyond the guard; elsewhere it carries no meaning.
    pub fn deallocation(&self) -> (r: usize)
        requires
            self.wf(),
        ensures
            r == self.deallocation_spec(),
    {
        match self.growth {
            Growth::Downward => self.base,
            Growth::Upward => self.base + self.capacity + self.guard,
        }
    }

    /// First address of the guard.
    pub fn guard_start(&self) -> (r: usize)
        requires
            self.wf(),
        ensures
            r == self.guard_lo(),
    {
        match self.growth {
            Growth::Downward => self.base,
            Growth::Upward => self.base + self.capacity,
        }
    }

    /// Number of usable bytes.
    pub fn size(&self) -> (r: usize)
        requires
            self.wf(),
        ensures
            r == self.capacity_spec(),
            r == distance(self.bottom_spec(), self.top_spec()),
    {
        self.capacity
    }
}

/// The two ends of a laid-out stack lie `capacity` bytes apart, in the stack's direction.
pub proof fn lemma_ends_span_capacity(reg: Region)
    requires
        reg.wf(),
    ensures
        distance(reg.bottom_spec(), reg.top_spec()) == reg.capacity_spec(),
        crate::growth::growth_of(reg.bottom_spec(), reg.top_spec()) == Some(reg.growth_spec()),
        reg.bottom_spec() % (STACK_ALIGN as int) == 0,
        reg.top_spec() % (STACK_ALIGN as int) == 0,
{
}

/// The guard touches `top` on the outside of the usable range, holds no usable byte, and the
/// deallocation address is not a usable byte either; everything lies inside the reservation.
pub proof fn lemma_guard_beyond_top(reg: Region, addr: int)
    requires
        reg.wf(),
    ensures
        reg.guard_lo() == reg.top_spec() || reg.guard_hi() == reg.top_spec(),
        reg.in_guard(addr) ==> !reg.usable(addr),
        !reg.usable(reg.deallocation_spec()),
        reg.reserved_lo() <= reg.lo(),
        reg.hi() <= reg.reserved_hi(),
        reg.reserved_lo() <= reg.guard_lo(),
        reg.guard_hi() <= reg.reserved_hi(),
{
}

} // verus!
