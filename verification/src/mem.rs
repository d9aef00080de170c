//! The in-memory trajectory: a verified implementation of the trajectory
//! abstraction whose underlying resource is a vector of frames.
//!
//! It exhibits exactly the behaviour the [`Trajectory`] model describes:
//! reads consume recorded frames at the cursor and then report the stream's
//! end — cleanly, or with the status code of a corrupt tail — writes append,
//! seeks move the cursor within the recorded stream, and the atom count is
//! scanned once and memoized, failure included.

use crate::cache::AtomCountCache;
use crate::frame::FrameView;
use crate::traj::natoms_result_of;
use crate::Error;
use crate::ErrorCode;
use crate::Frame;
use crate::SeekFrom;
use crate::SeekableTrajectory;
use crate::StreamEnd;
use crate::TrajState;
use crate::Trajectory;
use vstd::prelude::*;

verus! {

/// The views of a sequence of stored frames.
pub open spec fn frame_views(frames: Seq<Frame>) -> Seq<FrameView> {
    frames.map_values(|f: Frame| f@)
}

/// What the atom-count scan of an in-memory trajectory reports: the atom
/// count of the first frame, or — for an empty stream — the status its end
/// decodes to.
pub open spec fn scan_outcome(st: TrajState) -> Result<u32, ErrorCode> {
    if st.frames.len() > 0 {
        Ok(st.frames[0].num_atoms)
    } else {
        match st.end {
            StreamEnd::Eof => Err(ErrorCode::ExdrEndOfFile),
            StreamEnd::Corrupt(c) => Err(c),
        }
    }
}

/// The position `base + d`, when it lies within `0 ..= len`.
fn offset_target(base: usize, d: i64, len: usize) -> (r: Option<usize>)
    ensures
        r matches Some(t) ==> t as int == base + d && t <= len,
        r is None ==> !(0 <= base + d <= len),
{
    if d >= 0 {
        let du = d as u64;
        if du <= len as u64 && base as u64 <= len as u64 - du {
            Some(base + du as usize)
        } else {
            None
        }
    } else {
        let mag = ((-(d + 1)) as u64) + 1;
        if mag <= base as u64 {
            let t = base - mag as usize;
            if t <= len {
                Some(t)
            } else {
                None
            }
        } else {
            None
        }
    }
}

/// A trajectory whose resource is an in-memory sequence of frames.
pub struct MemTrajectory {
    frames: Vec<Frame>,
    end: StreamEnd,
    pos: usize,
    natoms: AtomCountCache,
}

impl MemTrajectory {
    /// An empty trajectory that ends cleanly, positioned at its start.
    pub fn new() -> (t: MemTrajectory)
        ensures
            t.tstate() == (TrajState {
                frames: Seq::<FrameView>::empty(),
                end: StreamEnd::Eof,
                cursor: 0,
                natoms: None,
            }),
            t.tstate().wf(),
    {
        let t = MemTrajectory {
            frames: Vec::new(),
            end: StreamEnd::Eof,
            pos: 0,
            natoms: AtomCountCache::new(),
        };
        proof {
            assert(t.tstate() =~= (TrajState {
                frames: Seq::<FrameView>::empty(),
                end: StreamEnd::Eof,
                cursor: 0,
                natoms: None,
            }));
        }
        t
    }

    /// A trajectory holding the given frames, ending as `end` says,
    /// positioned at its start, with no atom count resolved yet.
    pub fn from_parts(frames: Vec<Frame>, end: StreamEnd) -> (t: MemTrajectory)
        requires
            forall|i: int| 0 <= i < frames@.len() ==> (#[trigger] frames@[i])@.wf(),
            end matches StreamEnd::Corrupt(c) ==> c != ErrorCode::ExdrOk && c
                != ErrorCode::ExdrEndOfFile,
        ensures
            t.tstate().frames == frame_views(frames@),
            t.tstate().end == end,
            t.tstate().cursor == 0,
            t.tstate().natoms is None,
            t.tstate().wf(),
    {
        let t = MemTrajectory { frames, end, pos: 0, natoms: AtomCountCache::new() };
        proof {
            assert forall|i: int| 0 <= i < t.tstate().frames.len() implies (#[trigger] t.tstate()
                .frames[i]).wf() by {
                assert(t.tstate().frames[i] == t.frames@[i]@);
            }
        }
        t
    }

    /// A trajectory holding the given frames and ending cleanly,
    /// positioned at its start, with no atom count resolved yet.
    pub fn from_frames(frames: Vec<Frame>) -> (t: MemTrajectory)
        requires
            forall|i: int| 0 <= i < frames@.len() ==> (#[trigger] frames@[i])@.wf(),
        ensures
            t.tstate().frames == frame_views(frames@),
            t.tstate().end == StreamEnd::Eof,
            t.tstate().cursor == 0,
            t.tstate().natoms is None,
            t.tstate().wf(),
    {
        MemTrajectory::from_parts(frames, StreamEnd::Eof)
    }

    /// Hand the recorded frames out, consuming the trajectory.
    pub fn into_frames(self) -> (v: Vec<Frame>)
        ensures
            frame_views(v@) == self.tstate().frames,
    {
        self.frames
    }

    /// The outcome a fresh atom-count scan of this trajectory reports.
    fn scan_count(&self) -> (r: Result<u32, ErrorCode>)
        ensures
            r == scan_outcome(self.tstate()),
    {
        if self.frames.len() > 0 {
            Ok(self.frames[0].num_atoms)
        } else {
            match self.end {
                StreamEnd::Eof => Err(ErrorCode::ExdrEndOfFile),
                StreamEnd::Corrupt(c) => Err(c),
            }
        }
    }
}

impl Trajectory for MemTrajectory {
    closed spec fn tstate(&self) -> TrajState {
        TrajState {
            frames: frame_views(self.frames@),
            end: self.end,
            cursor: self.pos as nat,
            natoms: self.natoms.stored(),
        }
    }

    fn read(&mut self, frame: &mut Frame) -> (r: Result<(), Error>)
        ensures
            r is Ok <==> ({
                let st = old(self).tstate();
                st.cursor < st.frames.len() && st.frames[st.cursor as int].num_atoms
                    == old(frame)@.num_atoms
            }),
    {
        if self.pos < self.frames.len() {
            proof {
                let st = old(self).tstate();
                let i = old(self).pos as int;
                assert(st.frames[i] == old(self).frames@[i]@);
            }
            if self.frames[self.pos].num_atoms != frame.num_atoms {
                // The record cannot be decoded into the caller's buffer; the
                // stream reports a malformed record header.
                return Err(Error::from_read(ErrorCode::ExdrHeader));
            }
            frame.copy_from(&self.frames[self.pos]);
            self.pos = self.pos + 1;
            Ok(())
        } else {
            match self.end {
                StreamEnd::Eof => Err(Error::from_read(ErrorCode::ExdrEndOfFile)),
                StreamEnd::Corrupt(c) => Err(Error::from_read(c)),
            }
        }
    }

    fn write(&mut self, frame: &Frame) -> (r: Result<(), Error>)
        ensures
            r is Ok,
    {
        let copy = frame.clone();
        self.frames.push(copy);
        proof {
            assert(frame_views(self.frames@) =~= frame_views(old(self).frames@).push(frame@));
        }
        Ok(())
    }

    fn flush(&mut self) -> (r: Result<(), Error>)
        ensures
            r is Ok,
    {
        Ok(())
    }

    fn get_num_atoms(&mut self) -> (r: Result<u32, Error>)
        ensures
            old(self).tstate().natoms is None ==> final(self).tstate().natoms == Some(
                scan_outcome(old(self).tstate()),
            ),
    {
        let cached = self.natoms.get();
        match cached {
            Some(outcome) => natoms_result_of(outcome),
            None => {
                let computed = self.scan_count();
                let outcome = self.natoms.get_or_store(computed);
                natoms_result_of(outcome)
            },
        }
    }
}

impl SeekableTrajectory for MemTrajectory {
    fn tell(&self) -> (r: u64) {
        self.pos as u64
    }

    fn seek(&mut self, pos: SeekFrom) -> (r: Result<u64, Error>) {
        let len = self.frames.len();
        let target: Option<usize> = match pos {
            SeekFrom::Start(p) => {
                if p <= len as u64 {
                    Some(p as usize)
                } else {
                    None
                }
            },
            SeekFrom::Current(d) => offset_target(self.pos, d, len),
            SeekFrom::End(d) => offset_target(len, d, len),
        };
        match target {
            Some(t) => {
                self.pos = t;
                Ok(t as u64)
            },
            None => Err(Error::from_seek()),
        }
    }
}

} // verus!
