//! The trajectory abstraction: the capability interface {read, write, flush,
//! get_num_atoms} that each concrete format implements, together with the
//! mathematical model every implementation is specified against.
//!
//! A handle behaves as some recorded stream: a sequence of frames, the way
//! the stream ends after them, a read cursor and the memoized atom-count
//! outcome.  The contracts of this module pin each operation down against
//! that model; [`crate::MemTrajectory`] implements them in verified code,
//! and file-backed implementations drive the same iterators from outside the
//! verified core.

use crate::frame::FrameView;
use crate::Error;
use crate::ErrorCode;
use crate::ErrorTask;
use crate::Frame;
use vstd::prelude::*;

verus! {

/// What follows the recorded frames of a stream: a clean end, or bytes that
/// fail to decode with the given status code.
#[derive(Debug, Clone, Copy, PartialEq, Eq, Structural)]
pub enum StreamEnd {
    /// Reading past the last frame reports end-of-stream.
    Eof,
    /// Reading past the last frame fails with this status code.
    Corrupt(ErrorCode),
}

/// The abstract state a trajectory handle behaves as.
#[verifier::ext_equal]
pub ghost struct TrajState {
    /// The frames of the stream, in order.
    pub frames: Seq<FrameView>,
    /// What reading past the last frame reports.
    pub end: StreamEnd,
    /// The index of the next frame a read returns.
    pub cursor: nat,
    /// The memoized atom-count outcome, once one has been computed.
    pub natoms: Option<Result<u32, ErrorCode>>,
}

impl TrajState {
    /// Every recorded frame satisfies the frame invariant, and a corrupt
    /// tail carries a code that is neither success nor end-of-stream.
    pub open spec fn wf(self) -> bool {
        &&& forall|i: int| 0 <= i < self.frames.len() ==> (#[trigger] self.frames[i]).wf()
        &&& (self.end matches StreamEnd::Corrupt(c) ==> c != ErrorCode::ExdrOk && c
            != ErrorCode::ExdrEndOfFile)
    }
}

/// The value `get_num_atoms` returns for a memoized outcome: the count, or
/// the stored status code wrapped as a `ReadNumAtoms` error.
pub open spec fn natoms_result(c: Result<u32, ErrorCode>) -> Result<u32, Error> {
    match c {
        Ok(n) => Ok(n),
        Err(code) => Err(
            Error::Failed { task: ErrorTask::ReadNumAtoms, code: Some(code) },
        ),
    }
}

/// Turn a memoized atom-count outcome into the value `get_num_atoms`
/// returns for it.
pub fn natoms_result_of(c: Result<u32, ErrorCode>) -> (r: Result<u32, Error>)
    ensures
        r == natoms_result(c),
{
    match c {
        Ok(n) => Ok(n),
        Err(code) => Err(Error::from_read_num_atoms(code)),
    }
}

/// Shared operations of trajectory formats.
///
/// Every implementation behaves as the recorded stream [`Trajectory::tstate`]
/// describes: reads consume frames at the cursor and report exactly
/// end-of-stream at a cleanly ended stream's end; writes append; the
/// atom-count outcome is computed at most once and replayed.  A read in the
/// middle of the stream is allowed to fail — a decoder may give up on any
/// record — but the failure is a true error, never end-of-stream.
pub trait Trajectory: Sized {
    /// The recorded stream, cursor and memoized atom count this handle
    /// behaves as.
    ///
    /// The default leaves the state unspecified; an implementation that
    /// wants its contracts to say anything overrides it.
    open spec fn tstate(&self) -> TrajState {
        vstd::pervasive::arbitrary()
    }

    /// Read the next frame of the trajectory into `frame`, overwriting it in
    /// place.
    ///
    /// A read never resizes the frame: on success the record's atom count
    /// equals the frame's, so `num_atoms` and the buffer length are
    /// unchanged.  A record whose atom count differs from the frame's cannot
    /// be decoded into it and is a read failure.
    fn read(&mut self, frame: &mut Frame) -> (r: Result<(), Error>)
        requires
            old(frame)@.wf(),
        ensures
            final(self).tstate().frames == old(self).tstate().frames,
            final(self).tstate().end == old(self).tstate().end,
            final(self).tstate().natoms == old(self).tstate().natoms,
            old(self).tstate().wf() ==> final(frame)@.wf(),
            r is Ok ==> ({
                let st = old(self).tstate();
                &&& st.cursor < st.frames.len()
                &&& final(frame)@ == st.frames[st.cursor as int]
                &&& st.frames[st.cursor as int].num_atoms == old(frame)@.num_atoms
                &&& final(frame)@.num_atoms == old(frame)@.num_atoms
                &&& final(self).tstate().cursor == st.cursor + 1
            }),
            old(self).tstate().wf() && r is Ok ==> final(frame)@.coords.len()
                == old(frame)@.coords.len(),
            r matches Err(e) ==> ({
                let st = old(self).tstate();
                &&& e matches Error::Failed { task: ErrorTask::Read, code: Some(_) }
                &&& st.wf() ==> (e.spec_is_eof() <==> (st.cursor >= st.frames.len() && st.end
                    == StreamEnd::Eof))
                &&& e.spec_is_eof() ==> final(self).tstate().cursor == st.cursor && final(frame)@
                    == old(frame)@
                &&& st.cursor >= st.frames.len() ==> (st.end matches StreamEnd::Corrupt(c) ==> e
                    == (Error::Failed { task: ErrorTask::Read, code: Some(c) }))
            }),
    ;

    /// Append the frame's current fields to the trajectory, without mutating
    /// the frame.
    fn write(&mut self, frame: &Frame) -> (r: Result<(), Error>)
        requires
            frame@.wf(),
        ensures
            final(self).tstate().end == old(self).tstate().end,
            final(self).tstate().cursor == old(self).tstate().cursor,
            final(self).tstate().natoms == old(self).tstate().natoms,
            r is Ok ==> final(self).tstate().frames == old(self).tstate().frames.push(frame@),
            r matches Err(e) ==> final(self).tstate().frames == old(self).tstate().frames && e
                matches Error::Failed { task: ErrorTask::Write, code: Some(_) },
    ;

    /// Force buffered output to the underlying resource.
    fn flush(&mut self) -> (r: Result<(), Error>)
        ensures
            final(self).tstate() == old(self).tstate(),
            r matches Err(e) ==> e matches Error::Failed { task: ErrorTask::Flush, code: Some(_) },
    ;

    /// The number of atoms of the trajectory: computed on first use, then
    /// replayed from the memoized outcome — the count and a failure alike —
    /// without touching the underlying resource again.
    fn get_num_atoms(&mut self) -> (r: Result<u32, Error>)
        ensures
            final(self).tstate().frames == old(self).tstate().frames,
            final(self).tstate().end == old(self).tstate().end,
            final(self).tstate().cursor == old(self).tstate().cursor,
            final(self).tstate().natoms matches Some(c) && r == natoms_result(c),
            old(self).tstate().natoms matches Some(c) ==> final(self).tstate().natoms == Some(c),
    ;
}

/// Law (round trip): appending a frame to a recorded stream — the effect
/// `write` ensures — leaves a stream whose read at the frame's position —
/// the value `read` ensures there — is that frame, field for field.  With
/// frames carried as raw bit patterns, the written and re-read values are
/// bit-identical.
pub proof fn lemma_write_read_round_trip(st: TrajState, f: FrameView)
    ensures
        (TrajState { frames: st.frames.push(f), ..st }).frames[st.frames.len() as int] == f,
        (TrajState { frames: st.frames.push(f), ..st }).frames.len() == st.frames.len() + 1,
        f.wf() && st.wf() ==> (TrajState { frames: st.frames.push(f), ..st }).wf(),
{
    let pushed = TrajState { frames: st.frames.push(f), ..st };
    if f.wf() && st.wf() {
        assert forall|i: int| 0 <= i < pushed.frames.len() implies (#[trigger] pushed.frames[i])
            .wf() by {
            if i < st.frames.len() {
                assert(pushed.frames[i] == st.frames[i]);
            }
        }
    }
}

/// A position to seek to: an offset against the start of the stream, the
/// cursor, or the end of the recorded frames.
#[derive(Debug, Clone, Copy, PartialEq, Eq, Structural)]
pub enum SeekFrom {
    Start(u64),
    Current(i64),
    End(i64),
}

/// The absolute position `pos` designates against the state `st`.
pub open spec fn seek_target(st: TrajState, pos: SeekFrom) -> int {
    match pos {
        SeekFrom::Start(p) => p as int,
        SeekFrom::Current(d) => st.cursor + d,
        SeekFrom::End(d) => st.frames.len() + d,
    }
}

/// Position query and repositioning, for handles that support
/// position-preserving lookahead.
///
/// `tell` cannot fail on an open handle.  `seek` succeeds exactly on
/// positions within the recorded stream and reports a `Seek` error, changing
/// nothing, for positions outside it.
pub trait SeekableTrajectory: Trajectory {
    /// The current position of the handle.
    fn tell(&self) -> (r: u64)
        ensures
            r as nat == self.tstate().cursor,
    ;

    /// Reposition the handle; returns the new position.
    fn seek(&mut self, pos: SeekFrom) -> (r: Result<u64, Error>)
        ensures
            final(self).tstate().frames == old(self).tstate().frames,
            final(self).tstate().end == old(self).tstate().end,
            final(self).tstate().natoms == old(self).tstate().natoms,
            ({
                let t = seek_target(old(self).tstate(), pos);
                if 0 <= t <= old(self).tstate().frames.len() {
                    r matches Ok(p) && p as int == t && final(self).tstate().cursor == t
                } else {
                    r == Err::<u64, Error>(
                        (Error::Failed { task: ErrorTask::Seek, code: None }),
                    ) && final(self).tstate().cursor == old(self).tstate().cursor
                }
            }),
    ;
}

} // verus!
