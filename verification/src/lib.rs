//! Allocation-free data structures with constant capacity.
//!
//! Designed for use in memory-constrained systems that cannot use growable
//! structures, and in soft-realtime applications that cannot tolerate latency
//! spikes caused by reallocations.
//!
//! The core of the crate is a storage substrate: an abstraction over a
//! contiguous block of slots with a fixed capacity ([`storage::Storage`]), an
//! abstraction over how wide an index into such a block may be
//! ([`storage::Capacity`]), and a bump-style arena allocator that carves
//! uniquely owned sub-regions out of one fixed block ([`arena::Arena`]).

pub mod arena;
pub mod option_group;
pub mod storage;

pub use crate::arena::{Arena, ArenaBox};
