use vstd::prelude::*;
use crate::fill::{CopyPlan, FillError, plan_fill, plan_spec, same_direction};
use crate::growth::distance;
use crate::region::Region;

verus! {

/// An access that fell outside a stack's usable bytes: onto its guard or beyond.
#[derive(Clone, Copy, Debug, PartialEq, Eq, Structural)]
pub struct AccessFault {
    pub addr: usize,
}

/// The bytes of one laid-out stack, held from its lowest usable address upward.
pub struct StackMemory {
    region: Region,
    bytes: Vec<u8>,
}

/// What a load from `addr` in `m` yields: the byte there when it is usable, else nothing.
pub open spec fn access(m: StackMemory, addr: int) -> Option<u8> {
    if m.region_spec().usable(addr) {
        Some(m.byte_at(addr))
    } else {
        None
    }
}

/// The contents of `dst` after the bytes that `p` names were copied in from `source`.
pub open spec fn copied(dst: StackMemory, source: StackMemory, p: CopyPlan) -> Seq<u8> {
    let start = p.dst_lo - dst.region_spec().lo();
    let from = p.src_lo - source.region_spec().lo();
    Seq::new(
        dst.contents().len(),
        |i: int|
            if start <= i < start + p.len {
                source.contents()[from + (i - start)]
            } else {
                dst.contents()[i]
            },
    )
}

/// Both ends of a source range lie within the usable range of `source`, ends included.
pub open spec fn within(source: StackMemory, source_bottom: int, source_top: int) -> bool {
    let reg = source.region_spec();
    &&& reg.lo() <= source_bottom <= reg.hi()
    &&& reg.lo() <= source_top <= reg.hi()
}

/// `after` is `before` with `value` stored at `addr` when that address is usable; otherwise
/// the store faults and `after` is `before`.
pub open spec fn stored(
    before: StackMemory,
    after: StackMemory,
    addr: usize,
    value: u8,
    r: Result<(), AccessFault>,
) -> bool {
    &&& after.wf()
    &&& after.region_spec() == before.region_spec()
    &&& if before.region_spec().usable(addr as int) {
        &&& r is Ok
        &&& after.contents() == before.contents().update(
            addr - before.region_spec().lo(),
            value,
        )
    } else {
        &&& r == Err::<(), AccessFault>(AccessFault { addr })
        &&& after.contents() == before.contents()
    }
}

/// `after` is `before` once the live range between `source_bottom` and `source_top` of
/// `source` was moved in, or unchanged, with the reason, when the move is refused.
pub open spec fn filled_from(
    before: StackMemory,
    after: StackMemory,
    source: StackMemory,
    source_bottom: int,
    source_top: int,
    r: Result<(), FillError>,
) -> bool {
    &&& after.wf()
    &&& after.region_spec() == before.region_spec()
    &&& match plan_spec(before.region_spec(), source_bottom, source_top) {
        Ok(p) => {
            &&& r is Ok
            &&& after.contents() == copied(before, source, p)
        },
        Err(e) => {
            &&& r == Err::<(), FillError>(e)
            &&& after.contents() == before.contents()
        },
    }
}

impl StackMemory {
    pub closed spec fn region_spec(self) -> Region {
        self.region
    }

    /// The usable bytes, the one at index `i` living at address `lo + i`.
    pub closed spec fn contents(self) -> Seq<u8> {
        self.bytes@
    }

    pub open spec fn wf(self) -> bool {
        &&& self.region_spec().wf()
        &&& self.contents().len() == self.region_spec().capacity_spec()
    }

    /// The byte at a usable address.
    pub open spec fn byte_at(self, addr: int) -> u8 {
        self.contents()[addr - self.region_spec().lo()]
    }

    /// Backs a laid-out stack with zeroed bytes.
    pub fn new(region: Region) -> (r: StackMemory)
        requires
            region.wf(),
        ensures
            r.wf(),
            r.region_spec() == region,
            forall|i: int| 0 <= i < r.contents().len() ==> r.contents()[i] == 0,
    {
        let n = region.capacity();
        let mut bytes: Vec<u8> = Vec::with_capacity(n);
        let mut i: usize = 0;
        while i < n
            invariant
                i <= n,
                bytes@.len() == i,
                forall|j: int| 0 <= j < i ==> bytes@[j] == 0,
            decreases n - i,
        {
            bytes.push(0);
            i = i + 1;
        }
        StackMemory { region, bytes }
    }

    pub fn region(&self) -> (r: Region)
        ensures
            r == self.region_spec(),
    {
        self.region
    }

    /// Loads the byte at `addr`; none when `addr` is not a usable byte of this stack.
    pub fn read(&self, addr: usize) -> (r: Option<u8>)
        requires
            self.wf(),
        ensures
            r == access(*self, addr as int),
    {
        let lo = self.region.lo_addr();
        if lo <= addr && addr < self.region.hi_addr() {
            Some(self.bytes[addr - lo])
        } else {
            None
        }
    }

    /// Stores `value` at `addr`; a fault, and nothing stored, when `addr` is not usable.
    pub fn write(&mut self, addr: usize, value: u8) -> (r: Result<(), AccessFault>)
        requires
            old(self).wf(),
        ensures
            stored(*old(self), *final(self), addr, value, r),
    {
        let lo = self.region.lo_addr();
        if lo <= addr && addr < self.region.hi_addr() {
            self.bytes.set(addr - lo, value);
            Ok(())
        } else {
            Err(AccessFault { addr })
        }
    }

    /// Moves the live range between `source_bottom` and `source_top` of `source` into this
    /// stack, keeping each byte's offset from `bottom`. An empty range and one longer than
    /// this stack are refused, and then nothing is written.
    pub fn fill(&mut self, source: &StackMemory, source_bottom: usize, source_top: usize) -> (r:
        Result<(), FillError>)
        requires
            old(self).wf(),
            source.wf(),
            within(*source, source_bottom as int, source_top as int),
            same_direction(old(self).region_spec(), source_bottom as int, source_top as int),
        ensures
            filled_from(*old(self), *final(self), *source, source_bottom as int, source_top as int, r),
    {
        let p = match plan_fill(&self.region, source_bottom, source_top) {
            Ok(p) => p,
            Err(e) => return Err(e),
        };
        let start = p.dst_lo - self.region.lo_addr();
        let from = p.src_lo - source.region.lo_addr();
        let ghost before = self.bytes@;
        let mut i: usize = 0;
        while i < p.len
            invariant
                self.region == old(self).region,
                self.wf(),
                source.wf(),
                before == old(self).bytes@,
                start + p.len <= before.len(),
                from + p.len <= source.bytes@.len(),
                i <= p.len,
                self.bytes@.len() == before.len(),
                forall|j: int|
                    0 <= j < self.bytes@.len() ==> #[trigger] self.bytes@[j] == if start <= j
                        < start + i {
                        source.bytes@[from + (j - start)]
                    } else {
                        before[j]
                    },
            decreases p.len - i,
        {
            let b = source.bytes[from + i];
            self.bytes.set(start + i, b);
            i = i + 1;
        }
        assert(self.bytes@ =~= copied(*old(self), *source, p));
        Ok(())
    }
}

/// Round trip of a migration: once `dst` has been filled from the live range of `source`
/// between `source_bottom` and `source_top` (a range no longer than `dst`), the fill
/// succeeds, and the byte that `source` holds `k` steps inward
/// from `source_bottom` is the byte that `dst` holds `k` steps inward from its own `bottom`.
pub proof fn lemma_fill_keeps_offsets_from_bottom(
    dst: StackMemory,
    filled: StackMemory,
    source: StackMemory,
    source_bottom: int,
    source_top: int,
    r: Result<(), FillError>,
    k: int,
)
    requires
        dst.wf(),
        source.wf(),
        within(source, source_bottom, source_top),
        same_direction(dst.region_spec(), source_bottom, source_top),
        source_bottom != source_top,
        distance(source_bottom, source_top) <= dst.region_spec().capacity_spec(),
        filled_from(dst, filled, source, source_bottom, source_top, r),
        0 <= k < distance(source_bottom, source_top),
    ensures
        r is Ok,
        source_bottom < source_top ==> access(filled, dst.region_spec().bottom_spec() + k)
            == access(source, source_bottom + k),
        source_top < source_bottom ==> access(filled, dst.region_spec().bottom_spec() - 1 - k)
            == access(source, source_bottom - 1 - k),
        access(source, if source_bottom < source_top {
            source_bottom + k
        } else {
            source_bottom - 1 - k
        }) is Some,
{
}

/// No address of a stack's guard can be loaded from or stored to: the guard adjoins the
/// usable bytes at `top` and shares no address with them.
pub proof fn lemma_guard_inaccessible(m: StackMemory, addr: int)
    requires
        m.wf(),
        m.region_spec().in_guard(addr),
    ensures
        access(m, addr) is None,
        m.region_spec().guard_lo() == m.region_spec().top_spec() || m.region_spec().guard_hi()
            == m.region_spec().top_spec(),
{
}

} // verus!
