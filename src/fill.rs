use vstd::prelude::*;
use crate::growth::{Growth, growth_of, distance, direction};
use crate::region::Region;

verus! {

/// Why live contents could not be moved into a stack.
#[derive(Clone, Copy, Debug, PartialEq, Eq, Structural)]
pub enum FillError {
    /// The source's two ends coincide: it holds no live byte.
    EmptySourcePrecondition,
    /// The source holds more live bytes than the destination's capacity.
    InsufficientCapacityPrecondition,
}

/// A copy of `len` bytes from `src_lo` upward into `dst_lo` upward.
#[derive(Clone, Copy, Debug, PartialEq, Eq, Structural)]
pub struct CopyPlan {
    pub src_lo: usize,
    pub dst_lo: usize,
    pub len: usize,
}

/// What moving the live range between `source_bottom` and `source_top` into `dst` copies:
/// the bytes from the lower source end, to the place in `dst` that keeps every byte's offset
/// from `bottom`.
pub open spec fn plan_spec(dst: Region, source_bottom: int, source_top: int) -> Result<
    CopyPlan,
    FillError,
> {
    let live = distance(source_bottom, source_top);
    if source_bottom == source_top {
        Err(FillError::EmptySourcePrecondition)
    } else if live > dst.capacity_spec() {
        Err(FillError::InsufficientCapacityPrecondition)
    } else {
        Ok(
            CopyPlan {
                src_lo: (if source_bottom < source_top {
                    source_bottom
                } else {
                    source_top
                }) as usize,
                dst_lo: (if source_bottom < source_top {
                    dst.bottom_spec()
                } else {
                    dst.bottom_spec() - live
                }) as usize,
                len: live as usize,
            },
        )
    }
}

/// A non-empty source range runs in the same direction as the destination.
pub open spec fn same_direction(dst: Region, source_bottom: int, source_top: int) -> bool {
    source_bottom != source_top ==> growth_of(source_bottom, source_top) == Some(
        dst.growth_spec(),
    )
}

/// Decides how the live range between `source_bottom` and `source_top` moves into `dst`:
/// an empty range and one longer than `dst` are refused, anything else becomes one copy.
pub fn plan_fill(dst: &Region, source_bottom: usize, source_top: usize) -> (r: Result<
    CopyPlan,
    FillError,
>)
    requires
        dst.wf(),
        same_direction(*dst, source_bottom as int, source_top as int),
    ensures
        r == plan_spec(*dst, source_bottom as int, source_top as int),
        r matches Ok(p) ==> {
            &&& dst.lo() <= p.dst_lo
            &&& p.dst_lo + p.len <= dst.hi()
            &&& 0 < p.len
        },
{
    let (src_lo, live) = match direction(source_bottom, source_top) {
        None => return Err(FillError::EmptySourcePrecondition),
        Some(Growth::Upward) => (source_bottom, source_top - source_bottom),
        Some(Growth::Downward) => (source_top, source_bottom - source_top),
    };
    if live > dst.size() {
        return Err(FillError::InsufficientCapacityPrecondition);
    }
    let bottom = dst.bottom();
    let dst_lo = match dst.growth() {
        Growth::Upward => bottom,
        Growth::Downward => bottom - live,
    };
    Ok(CopyPlan { src_lo, dst_lo, len: live })
}

} // verus!
