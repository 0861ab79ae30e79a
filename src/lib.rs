//! Memory regions that serve as execution stacks for stackful coroutines:
//! their layout, a reservation bookkeeper that keeps live regions apart,
//! fixed-capacity stacks, and the migration of live contents between stacks.

pub mod growth;
pub mod region;
pub mod fill;
pub mod memory;
pub mod space;
pub mod stack;
