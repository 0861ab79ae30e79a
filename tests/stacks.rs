use switcheroo::fill::FillError;
use switcheroo::growth::Growth;
use switcheroo::memory::StackMemory;
use switcheroo::space::{AddressSpace, AllocError, GUARD_SIZE};
use switcheroo::stack::{EightMbStack, OneMbStack, Stack, EIGHT_MB, ONE_MB};

fn space() -> AddressSpace {
    AddressSpace::new(0x1000_0000, 0x4000_0000).unwrap()
}

fn pattern(i: usize) -> u8 {
    (i * 7 + 3) as u8
}

#[test]
fn eight_mb_stack_spans_its_capacity() {
    let mut space = space();
    let s = EightMbStack::new(&mut space).unwrap();
    assert_eq!(s.size(), 8 * 1024 * 1024);
    assert_eq!(s.bottom().abs_diff(s.top()), s.size());
}

#[test]
fn one_mb_stack_spans_its_capacity() {
    let mut space = space();
    let s = OneMbStack::new(&mut space).unwrap();
    assert_eq!(s.size(), 1024 * 1024);
    assert_eq!(ONE_MB, 1024 * 1024);
    assert_eq!(EIGHT_MB, 8 * 1024 * 1024);
    assert_eq!(s.bottom().abs_diff(s.top()), s.size());
    // grows downward, with the guard below top and the reservation's start as deallocation
    assert_eq!(s.top(), 0x1000_0000 + GUARD_SIZE);
    assert_eq!(s.bottom(), 0x1000_0000 + GUARD_SIZE + ONE_MB);
    assert_eq!(s.deallocation(), 0x1000_0000);
}

#[test]
fn fill_moves_pattern_into_larger_stack() {
    let mut space = space();
    let mut small = OneMbStack::new(&mut space).unwrap();
    for k in 0..256 {
        assert!(small.write(small.bottom() - 1 - k, pattern(k)).is_ok());
    }
    let mut big = EightMbStack::new(&mut space).unwrap();
    assert_eq!(big.fill(small.memory(), small.bottom(), small.top()), Ok(()));
    for k in 0..256 {
        assert_eq!(big.read(big.bottom() - 1 - k), Some(pattern(k)));
    }
    // the rest of the live range came over too, still zero
    assert_eq!(big.read(big.bottom() - 1 - 256), Some(0));
    assert_eq!(big.read(big.bottom() - ONE_MB), Some(0));
}

#[test]
fn fill_refuses_oversized_source() {
    let mut space = space();
    let mut dst = OneMbStack::new(&mut space).unwrap();
    for k in 0..64 {
        dst.write(dst.bottom() - 1 - k, 0xAA).unwrap();
    }
    let region = space.reserve(4 * 1024 * 1024, Growth::Downward).unwrap();
    let mut source = StackMemory::new(region);
    let sb = region.bottom();
    for k in 0..64 {
        source.write(sb - 1 - k, pattern(k)).unwrap();
    }
    assert_eq!(
        dst.fill(&source, region.bottom(), region.top()),
        Err(FillError::InsufficientCapacityPrecondition)
    );
    for k in 0..64 {
        assert_eq!(dst.read(dst.bottom() - 1 - k), Some(0xAA));
    }
    assert_eq!(dst.read(dst.bottom() - 65), Some(0));
}

#[test]
fn fill_refuses_empty_source() {
    let mut space = space();
    let mut src = OneMbStack::new(&mut space).unwrap();
    src.write(src.bottom() - 1, 9).unwrap();
    let mut dst = OneMbStack::new(&mut space).unwrap();
    dst.write(dst.bottom() - 1, 4).unwrap();
    assert_eq!(
        dst.fill(src.memory(), src.bottom(), src.bottom()),
        Err(FillError::EmptySourcePrecondition)
    );
    assert_eq!(dst.read(dst.bottom() - 1), Some(4));
}

#[test]
fn fill_of_a_partial_live_range_keeps_offsets() {
    let mut space = space();
    let mut src = OneMbStack::new(&mut space).unwrap();
    for k in 0..100 {
        src.write(src.bottom() - 1 - k, pattern(k)).unwrap();
    }
    let mut dst = EightMbStack::new(&mut space).unwrap();
    dst.write(dst.bottom() - 41, 0x55).unwrap();
    // only the 40 bytes nearest the bottom are live
    assert_eq!(dst.fill(src.memory(), src.bottom(), src.bottom() - 40), Ok(()));
    for k in 0..40 {
        assert_eq!(dst.read(dst.bottom() - 1 - k), Some(pattern(k)));
    }
    assert_eq!(dst.read(dst.bottom() - 41), Some(0x55));
}

#[test]
fn write_into_guard_faults() {
    let mut space = space();
    let mut s = OneMbStack::new(&mut space).unwrap();
    let top = s.top();
    assert!(s.write(top, 1).is_ok());
    let fault = s.write(top - 1, 2).unwrap_err();
    assert_eq!(fault.addr, top - 1);
    assert_eq!(s.read(top - 1), None);
    assert_eq!(s.read(top - GUARD_SIZE), None);
    assert_eq!(s.read(s.bottom()), None);
    assert_eq!(s.read(top), Some(1));
}

#[test]
fn live_stacks_do_not_overlap() {
    let mut space = space();
    let a = OneMbStack::new(&mut space).unwrap();
    let b = EightMbStack::new(&mut space).unwrap();
    let c = OneMbStack::new(&mut space).unwrap();
    let ranges = [
        (a.top(), a.bottom()),
        (b.top(), b.bottom()),
        (c.top(), c.bottom()),
    ];
    for i in 0..3 {
        for j in 0..3 {
            if i != j {
                let (lo1, hi1) = ranges[i];
                let (lo2, hi2) = ranges[j];
                assert!(hi1 <= lo2 || hi2 <= lo1);
                // nor does one stack's guard reach into another
                assert!(hi1 <= lo2 - GUARD_SIZE || hi2 <= lo1 - GUARD_SIZE);
            }
        }
    }
}

#[test]
fn exhausted_space_reports_allocation_failure() {
    let mut space = AddressSpace::new(0, ONE_MB + GUARD_SIZE).unwrap();
    assert!(EightMbStack::new(&mut space).err() == Some(AllocError::AllocationFailure));
    let one = OneMbStack::new(&mut space);
    assert!(one.is_ok());
    assert!(OneMbStack::new(&mut space).err() == Some(AllocError::AllocationFailure));
}
