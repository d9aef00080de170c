//! Streaming, buffer-reusing access to molecular-dynamics trajectory data.
//!
//! The crate is organised around a small abstraction, [`Trajectory`], that
//! turns positioned reads and writes against an open trajectory into a safe
//! pull-based iteration protocol with lazily cached metadata, one-shot error
//! latching and position-preserving lookahead.  [`MemTrajectory`] is the
//! in-memory implementation of that abstraction; file-backed implementations
//! drive the same iterators from outside the verified core.

use vstd::prelude::*;

mod cache;
mod errors;
mod frame;
mod iterator;
mod mem;
mod traj;

pub use cache::AtomCountCache;
pub use errors::check_code;
pub use errors::spec_code_from_raw;
pub use errors::Error;
pub use errors::ErrorCode;
pub use errors::ErrorTask;
pub use frame::zero_box;
pub use frame::zero_triplet;
pub use frame::Frame;
pub use frame::FrameView;
pub use iterator::into_iter_inner;
pub use iterator::into_lookahead;
pub use iterator::natoms_failure;
pub use iterator::LookaheadIterator;
pub use iterator::TrajectoryIterator;
pub use mem::frame_views;
pub use mem::scan_outcome;
pub use mem::MemTrajectory;
pub use traj::lemma_write_read_round_trip;
pub use traj::natoms_result;
pub use traj::natoms_result_of;
pub use traj::seek_target;
pub use traj::SeekFrom;
pub use traj::SeekableTrajectory;
pub use traj::StreamEnd;
pub use traj::TrajState;
pub use traj::Trajectory;

verus! {

/// The mode a trajectory is opened with.
#[derive(Debug, Clone, Copy, PartialEq, Eq, Structural)]
pub enum FileMode {
    Write,
    Append,
    Read,
}

} // verus!
