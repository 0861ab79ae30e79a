use switcheroo::fill::{plan_fill, CopyPlan, FillError};
use switcheroo::growth::{direction, Growth};
use switcheroo::memory::StackMemory;
use switcheroo::region::Region;
use switcheroo::space::AddressSpace;

#[test]
fn direction_follows_the_two_ends() {
    assert_eq!(direction(10, 20), Some(Growth::Upward));
    assert_eq!(direction(20, 10), Some(Growth::Downward));
    assert_eq!(direction(7, 7), None);
}

#[test]
fn downward_layout_puts_guard_below_top() {
    let r = Region::new(4096, 64, 32, Growth::Downward).unwrap();
    assert_eq!(r.top(), 4096 + 32);
    assert_eq!(r.bottom(), 4096 + 32 + 64);
    assert_eq!(r.deallocation(), 4096);
    assert_eq!(r.size(), 64);
}

#[test]
fn upward_layout_puts_guard_above_top() {
    let r = Region::new(4096, 64, 32, Growth::Upward).unwrap();
    assert_eq!(r.bottom(), 4096);
    assert_eq!(r.top(), 4096 + 64);
    assert_eq!(r.deallocation(), 4096 + 64 + 32);
    assert_eq!(r.size(), 64);
}

#[test]
fn layout_refuses_what_cannot_be_placed() {
    assert_eq!(Region::new(4096, 0, 16, Growth::Downward), None);
    assert_eq!(Region::new(4096, 64, 0, Growth::Downward), None);
    assert_eq!(Region::new(4100, 64, 16, Growth::Downward), None);
    assert_eq!(Region::new(4096, 60, 16, Growth::Downward), None);
    assert_eq!(Region::new(4096, 64, 24, Growth::Upward), None);
    assert_eq!(Region::new(usize::MAX - 15, 16, 16, Growth::Upward), None);
    assert_eq!(Region::new(usize::MAX - 31, 16, 16, Growth::Upward), None);
    assert!(Region::new(usize::MAX - 63, 32, 16, Growth::Upward).is_some());
    assert_eq!(Region::new(usize::MAX - 63, 48, 16, Growth::Upward), None);
}

#[test]
fn plan_for_each_direction() {
    let down = Region::new(4096, 256, 16, Growth::Downward).unwrap();
    // bottom of `down` is 4096 + 16 + 256 = 4368
    assert_eq!(
        plan_fill(&down, 9000, 8900),
        Ok(CopyPlan { src_lo: 8900, dst_lo: 4368 - 100, len: 100 })
    );
    let up = Region::new(4096, 256, 16, Growth::Upward).unwrap();
    assert_eq!(
        plan_fill(&up, 8900, 9000),
        Ok(CopyPlan { src_lo: 8900, dst_lo: 4096, len: 100 })
    );
    assert_eq!(plan_fill(&up, 8900, 8900 + 256).map(|p| p.len), Ok(256));
    assert_eq!(
        plan_fill(&up, 8900, 8900 + 257),
        Err(FillError::InsufficientCapacityPrecondition)
    );
    assert_eq!(plan_fill(&up, 8900, 8900), Err(FillError::EmptySourcePrecondition));
}

#[test]
fn upward_fill_keeps_offsets_from_bottom() {
    let mut space = AddressSpace::new(0x10_0000, 0x100_0000).unwrap();
    let sr = space.reserve(8192, Growth::Upward).unwrap();
    let dr = space.reserve(16384, Growth::Upward).unwrap();
    let mut src = StackMemory::new(sr);
    let mut dst = StackMemory::new(dr);
    for k in 0..300 {
        src.write(sr.bottom() + k, (k % 251) as u8).unwrap();
    }
    assert_eq!(dst.fill(&src, sr.bottom(), sr.bottom() + 300), Ok(()));
    for k in 0..300 {
        assert_eq!(dst.read(dr.bottom() + k), Some((k % 251) as u8));
    }
    assert_eq!(dst.read(dr.bottom() + 300), Some(0));
    assert_eq!(dst.read(dr.bottom() - 1), None);
}

#[test]
fn space_refuses_unaligned_or_inverted_ranges() {
    assert!(AddressSpace::new(4097, 1 << 20).is_none());
    assert!(AddressSpace::new(8192, 4096).is_none());
    assert!(AddressSpace::new(4096, 4096).is_some());
}
