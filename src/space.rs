use vstd::prelude::*;
use crate::growth::Growth;
use crate::region::{Region, STACK_ALIGN};

verus! {

/// Granularity of reservations and of their protection.
pub const PAGE_SIZE: usize = 4096;

/// Bytes of no-access guard placed beside each stack.
pub const GUARD_SIZE: usize = 4096;

/// Why no stack could be made.
#[derive(Clone, Copy, Debug, PartialEq, Eq, Structural)]
pub enum AllocError {
    /// No range of the requested size could be reserved.
    AllocationFailure,
    /// The guard could not be made inaccessible; the reservation was given back.
    ProtectionFailure,
}

/// Hands out reservations from a range of addresses, one after another, each a stack's
/// capacity followed or preceded by its guard, so that no two ever share an address.
pub struct AddressSpace {
    next: usize,
    limit: usize,
    issued: Ghost<Seq<Region>>,
}

impl AddressSpace {
    /// First address that no reservation holds yet.
    pub closed spec fn next_spec(self) -> int {
        self.next as int
    }

    /// End of the range that reservations are taken from.
    pub closed spec fn limit_spec(self) -> int {
        self.limit as int
    }

    /// Every region handed out so far, in order.
    pub closed spec fn issued(self) -> Seq<Region> {
        self.issued@
    }

    pub open spec fn wf(self) -> bool {
        &&& self.next_spec() <= self.limit_spec()
        &&& self.next_spec() % (PAGE_SIZE as int) == 0
        &&& forall|i: int|
            0 <= i < self.issued().len() ==> {
                &&& (#[trigger] self.issued()[i]).wf()
                &&& self.issued()[i].reserved_hi() <= self.next_spec()
            }
        &&& forall|i: int, j: int|
            0 <= i < j < self.issued().len() ==> #[trigger] self.issued()[i].reserved_hi()
                <= #[trigger] self.issued()[j].reserved_lo()
    }

    /// An empty space over `[start, limit)`; none when `start` is not on a page boundary or
    /// lies past `limit`.
    pub fn new(start: usize, limit: usize) -> (r: Option<AddressSpace>)
        ensures
            match r {
                Some(s) => {
                    &&& s.wf()
                    &&& s.next_spec() == start
                    &&& s.limit_spec() == limit
                    &&& s.issued() == Seq::<Region>::empty()
                },
                None => start % PAGE_SIZE != 0 || start > limit,
            },
    {
        if start % PAGE_SIZE != 0 || start > limit {
            return None;
        }
        Some(AddressSpace { next: start, limit, issued: Ghost(Seq::empty()) })
    }

    /// Reserves a stack of `capacity` usable bytes and its guard from the next free address.
    /// Fails, leaving the space as it was, exactly when the rest of the range is too short.
    pub fn reserve(&mut self, capacity: usize, growth: Growth) -> (r: Result<Region, AllocError>)
        requires
            old(self).wf(),
            0 < capacity,
            capacity % PAGE_SIZE == 0,
        ensures
            final(self).wf(),
            final(self).limit_spec() == old(self).limit_spec(),
            (r is Ok) <==> capacity + GUARD_SIZE <= old(self).limit_spec() - old(self).next_spec(),
            match r {
                Ok(reg) => {
                    &&& reg.wf()
                    &&& reg.base_spec() == old(self).next_spec()
                    &&& reg.capacity_spec() == capacity
                    &&& reg.guard_spec() == GUARD_SIZE
                    &&& reg.growth_spec() == growth
                    &&& final(self).next_spec() == reg.reserved_hi()
                    &&& final(self).issued() == old(self).issued().push(reg)
                },
                Err(e) => {
                    &&& e == AllocError::AllocationFailure
                    &&& *final(self) == *old(self)
                },
            },
    {
        if capacity > self.limit - self.next || GUARD_SIZE > self.limit - self.next - capacity {
            return Err(AllocError::AllocationFailure);
        }
        proof {
            let n = self.next as int;
            let c = capacity as int;
            assert(n % 16 == 0) by {
                assert(n % 4096 == 0 ==> n % 16 == 0) by (nonlinear_arith);
            }
            assert(c % 16 == 0) by {
                assert(c % 4096 == 0 ==> c % 16 == 0) by (nonlinear_arith);
            }
            assert((n + c + 4096) % 4096 == 0) by {
                assert(n % 4096 == 0 && c % 4096 == 0 ==> (n + c + 4096) % 4096 == 0)
                    by (nonlinear_arith);
            }
        }
        let reg = match Region::new(self.next, capacity, GUARD_SIZE, growth) {
            Some(reg) => reg,
            None => {
                // unreachable: the tests above leave a layout that fits
                assert(false);
                return Err(AllocError::AllocationFailure);
            },
        };
        let ghost prev = self.issued@;
        self.next = self.next + capacity + GUARD_SIZE;
        self.issued = Ghost(prev.push(reg));
        assert forall|i: int, j: int|
            0 <= i < j < self.issued@.len() implies #[trigger] self.issued@[i].reserved_hi()
            <= #[trigger] self.issued@[j].reserved_lo() by {
            assert(old(self).issued()[i] == prev[i]);
            if j < prev.len() {
                assert(old(self).issued()[j] == prev[j]);
                assert(self.issued@[i] == prev[i]);
                assert(self.issued@[j] == prev[j]);
            } else {
                assert(self.issued@[i] == prev[i]);
                assert(prev[i].reserved_hi() <= old(self).next);
            }
        }
        assert forall|i: int| 0 <= i < self.issued@.len() implies {
            &&& (#[trigger] self.issued@[i]).wf()
            &&& self.issued@[i].reserved_hi() <= self.next
        } by {
            if i < prev.len() {
                assert(old(self).issued()[i] == prev[i]);
            }
        }
        Ok(reg)
    }
}

/// No two regions handed out by one space share an address: neither a usable byte nor a
/// guard byte of one is a usable byte of the other.
pub proof fn lemma_issued_regions_disjoint(space: AddressSpace, i: int, j: int, addr: int)
    requires
        space.wf(),
        0 <= i < space.issued().len(),
        0 <= j < space.issued().len(),
        i != j,
    ensures
        !(space.issued()[i].usable(addr) && space.issued()[j].usable(addr)),
        !(space.issued()[i].in_guard(addr) && space.issued()[j].usable(addr)),
{
    let a = space.issued()[i];
    let b = space.issued()[j];
    crate::region::lemma_guard_beyond_top(a, addr);
    crate::region::lemma_guard_beyond_top(b, addr);
    if i < j {
        assert(a.reserved_hi() <= b.reserved_lo());
    } else {
        assert(b.reserved_hi() <= a.reserved_lo());
    }
}

} // verus!
