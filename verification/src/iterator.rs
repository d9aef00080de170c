//! The frame-reuse iterator: repeated pulls against a trajectory, reusing
//! one shared frame buffer when the caller has let go of it, latching shut
//! on the first true error, and treating end-of-stream as the natural end of
//! iteration.  [`LookaheadIterator`] is the position-restoring variant used
//! for non-destructive lookahead.

use crate::frame::FrameView;
use crate::Error;
use crate::ErrorCode;
use crate::ErrorTask;
use crate::Frame;
use crate::SeekFrom;
use crate::SeekableTrajectory;
use crate::StreamEnd;
use crate::TrajState;
use crate::Trajectory;
use std::rc::Rc;
use vstd::prelude::*;

verus! {

/// Relies on `Rc::clone`: a new handle to the same shared allocation, equal
/// in content to the one cloned.
#[verifier::external_body]
fn rc_clone_frame(rc: &Rc<Frame>) -> (r: Rc<Frame>)
    ensures
        r == *rc,
{
    Rc::clone(rc)
}

/// The atom-count failure the iterator wraps: a `ReadNumAtoms` error for the
/// memoized status code.
pub open spec fn natoms_failure(code: ErrorCode) -> Error {
    Error::Failed { task: ErrorTask::ReadNumAtoms, code: Some(code) }
}

/// Iterator over the frames of a trajectory.
///
/// Each successful pull yields a shared handle to the iterator's frame
/// buffer.  If the caller drops the handle before the next pull, the buffer
/// is reused in place; if the caller retains it, the iterator allocates a
/// fresh buffer and never touches the retained frame again.  A pull after
/// the last frame yields nothing; the first true error is yielded once and
/// latches the iterator into a permanently empty state.
pub struct TrajectoryIterator<T> {
    trajectory: T,
    item: Option<Rc<Frame>>,
    has_error: bool,
}

impl<T: Trajectory> TrajectoryIterator<T> {
    /// The abstract state of the underlying trajectory.
    pub closed spec fn traj_state(&self) -> TrajState {
        self.trajectory.tstate()
    }

    /// Whether a true error has latched the iterator shut.
    pub closed spec fn latched(&self) -> bool {
        self.has_error
    }

    /// The content of the frame buffer the iterator currently holds.
    pub closed spec fn held(&self) -> FrameView {
        (self.item->0)@
    }

    /// The iterator invariant: a well-formed stream and a well-formed held
    /// buffer.
    pub closed spec fn wf(&self) -> bool {
        &&& self.trajectory.tstate().wf()
        &&& self.item is Some
        &&& (self.item->0)@.wf()
    }

    /// One pull: resolve the memoized atom count, regain or allocate the
    /// frame buffer, read into it, and yield a shared handle to it.
    ///
    /// This is `next` without the error latch: errors are returned to the
    /// caller unconditionally, end-of-stream as an error whose
    /// [`Error::is_eof`] holds.
    pub fn next_inner(&mut self) -> (r: Result<Rc<Frame>, Error>)
        requires
            old(self).wf(),
        ensures
            final(self).wf(),
            final(self).latched() == old(self).latched(),
            final(self).traj_state().frames == old(self).traj_state().frames,
            final(self).traj_state().end == old(self).traj_state().end,
            final(self).traj_state().natoms is Some,
            old(self).traj_state().natoms matches Some(c) ==> final(self).traj_state().natoms
                == Some(c),
            r matches Ok(f) ==> ({
                let st0 = old(self).traj_state();
                &&& final(self).traj_state().natoms matches Some(Ok(_))
                &&& st0.cursor < st0.frames.len()
                &&& f@ == st0.frames[st0.cursor as int]
                &&& f@.wf()
                &&& final(self).traj_state().cursor == st0.cursor + 1
                &&& final(self).held() == f@
            }),
            r matches Err(e) ==> ({
                let st0 = old(self).traj_state();
                let st1 = final(self).traj_state();
                &&& (st1.natoms matches Some(Err(code)) ==> e matches Error::CouldNotCheckNAtoms(
                    inner,
                ) && *inner == natoms_failure(code) && st1.cursor == st0.cursor
                    && final(self).held() == old(self).held())
                &&& (st1.natoms matches Some(Ok(_)) ==> ({
                    &&& e matches Error::Failed { task: ErrorTask::Read, code: Some(_) }
                    &&& (e.spec_is_eof() <==> (st0.cursor >= st0.frames.len() && st0.end
                        == StreamEnd::Eof))
                    &&& (e.spec_is_eof() ==> st1.cursor == st0.cursor)
                    &&& (st0.cursor >= st0.frames.len() ==> (st0.end matches StreamEnd::Corrupt(c)
                        ==> e == (Error::Failed { task: ErrorTask::Read, code: Some(c) })))
                }))
            }),
    {
        // Re-resolve the atom-count cache; cheap, since the outcome is
        // memoized by the trajectory.
        let num_atoms = match self.trajectory.get_num_atoms() {
            Ok(n) => n,
            Err(e) => {
                return Err(Error::could_not_check_natoms(e));
            },
        };
        // Regain exclusive ownership of the held buffer, or allocate a fresh
        // one if the caller retained the previously yielded frame.
        let mut frame: Frame = match self.item.take() {
            Some(rc) => match Rc::try_unwrap(rc) {
                Ok(f) => f,
                Err(_) => Frame::with_len(num_atoms),
            },
            None => Frame::with_len(num_atoms),
        };
        match self.trajectory.read(&mut frame) {
            Ok(()) => {
                let rc = Rc::new(frame);
                let out = rc_clone_frame(&rc);
                self.item = Some(rc);
                Ok(out)
            },
            Err(e) => {
                self.item = Some(Rc::new(frame));
                Err(e)
            },
        }
    }

    /// Pull the next frame.
    ///
    /// Yields `Some(Ok(frame))` for each recorded frame in order, `None`
    /// once the stream's clean end is reached, and a true error exactly
    /// once: after `Some(Err(..))` the iterator is latched and yields `None`
    /// forever.
    pub fn next(&mut self) -> (r: Option<Result<Rc<Frame>, Error>>)
        requires
            old(self).wf(),
        ensures
            final(self).wf(),
            final(self).traj_state().frames == old(self).traj_state().frames,
            final(self).traj_state().end == old(self).traj_state().end,
            old(self).traj_state().natoms matches Some(c) ==> final(self).traj_state().natoms
                == Some(c),
            // the latch: a latched iterator yields nothing and changes
            // nothing, forever
            old(self).latched() ==> r is None && *final(self) == *old(self),
            // the latch is set exactly by yielding a true error
            final(self).latched() <==> (old(self).latched() || r matches Some(Err(_))),
            // a yielded error is never end-of-stream
            r matches Some(Err(e)) ==> !e.spec_is_eof(),
            // a yielded frame is the next recorded frame
            r matches Some(Ok(f)) ==> ({
                let st0 = old(self).traj_state();
                &&& st0.cursor < st0.frames.len()
                &&& f@ == st0.frames[st0.cursor as int]
                &&& f@.wf()
                &&& final(self).traj_state().cursor == st0.cursor + 1
                &&& final(self).traj_state().natoms matches Some(Ok(_))
                &&& final(self).held() == f@
            }),
            // end of stream yields no item, without latching and without
            // moving the cursor
            !old(self).latched() && r is None ==> !final(self).latched()
                && final(self).traj_state().cursor == old(self).traj_state().cursor,
            // and nothing else yields no item: an unlatched pull comes back
            // empty only at the clean end of a stream whose count resolved
            !old(self).latched() && r is None ==> ({
                let st0 = old(self).traj_state();
                &&& final(self).traj_state().natoms matches Some(Ok(_))
                &&& st0.cursor >= st0.frames.len()
                &&& st0.end == StreamEnd::Eof
            }),
            // a failed memoized count fails the pull with the wrapped error
            !old(self).latched() ==> (final(self).traj_state().natoms matches Some(Err(c))
                ==> r matches Some(Err(e)) && e matches Error::CouldNotCheckNAtoms(inner)
                && *inner == natoms_failure(c)),
            // a corrupt tail fails the pull with its code
            ({
                let st0 = old(self).traj_state();
                (!old(self).latched() && (final(self).traj_state().natoms matches Some(Ok(_)))
                    && st0.cursor >= st0.frames.len()) ==> (st0.end matches StreamEnd::Corrupt(c)
                    ==> r == Some(Err::<Rc<Frame>, Error>(
                    (Error::Failed { task: ErrorTask::Read, code: Some(c) }),
                )))
            }),
            // mid-stream, a pull with a resolved count always yields an item
            ({
                let st0 = old(self).traj_state();
                (!old(self).latched() && (final(self).traj_state().natoms matches Some(Ok(_)))
                    && st0.cursor < st0.frames.len()) ==> r is Some
            }),
            // at a cleanly ended stream with the count resolved, a pull past
            // the last frame is exactly end-of-stream
            ({
                let st0 = old(self).traj_state();
                (!old(self).latched() && (st0.natoms matches Some(Ok(_))) && st0.cursor
                    >= st0.frames.len() && st0.end == StreamEnd::Eof) ==> r is None
            }),
            // the two shapes a yielded error can take
            r matches Some(Err(e)) ==> ({
                let st1 = final(self).traj_state();
                &&& (st1.natoms matches Some(Err(code)) ==> e matches Error::CouldNotCheckNAtoms(
                    inner,
                ) && *inner == natoms_failure(code))
                &&& (st1.natoms matches Some(Ok(_)) ==> e matches Error::Failed {
                    task: ErrorTask::Read,
                    code: Some(_),
                })
            }),
    {
        if self.has_error {
            return None;
        }
        match self.next_inner() {
            Ok(item) => Some(Ok(item)),
            Err(e) => {
                if e.is_eof() {
                    None
                } else {
                    self.has_error = true;
                    Some(Err(e))
                }
            },
        }
    }

    /// Hand the trajectory back, consuming the iterator.
    pub fn into_inner(self) -> (t: T)
        ensures
            t.tstate() == self.traj_state(),
    {
        self.trajectory
    }
}

/// Turn a trajectory into a frame iterator.
///
/// The atom count is resolved up front so the frame buffer can be pre-sized;
/// a failure to resolve it does not fail construction — it is reported by
/// the first pull instead, wrapped as `CouldNotCheckNAtoms`.
pub fn into_iter_inner<T: Trajectory>(traj: T) -> (it: TrajectoryIterator<T>)
    requires
        traj.tstate().wf(),
    ensures
        it.wf(),
        !it.latched(),
        it.traj_state().frames == traj.tstate().frames,
        it.traj_state().end == traj.tstate().end,
        it.traj_state().cursor == traj.tstate().cursor,
        it.traj_state().natoms is Some,
        traj.tstate().natoms matches Some(c) ==> it.traj_state().natoms == Some(c),
        it.traj_state().natoms matches Some(Ok(n)) ==> it.held().num_atoms == n
            && it.held().coords.len() == n,
{
    let mut traj = traj;
    let num_atoms = traj.get_num_atoms();
    let frame = match num_atoms {
        Ok(n) => Frame::with_len(n),
        Err(_) => Frame::new(),
    };
    TrajectoryIterator { trajectory: traj, item: Some(Rc::new(frame)), has_error: false }
}

/// The position-restoring iterator: identical pulls, but both termination
/// paths — end-of-stream and the first true error — reposition the handle
/// back to the position captured at construction before going quiet, so a
/// fully drained lookahead leaves the trajectory's position untouched.
pub struct LookaheadIterator<T> {
    inner: TrajectoryIterator<T>,
    start: u64,
    done: bool,
}

impl<T: SeekableTrajectory> LookaheadIterator<T> {
    /// The abstract state of the underlying trajectory.
    pub closed spec fn traj_state(&self) -> TrajState {
        self.inner.trajectory.tstate()
    }

    /// The position captured at construction.
    pub closed spec fn start_pos(&self) -> u64 {
        self.start
    }

    /// Whether iteration has terminated.
    pub closed spec fn finished(&self) -> bool {
        self.done
    }

    /// The iterator invariant: the inner iterator's, and a captured
    /// position that lies within the recorded stream.
    pub closed spec fn wf(&self) -> bool {
        &&& self.inner.wf()
        &&& self.start as nat <= self.inner.trajectory.tstate().frames.len()
    }

    /// Pull the next frame; on both termination paths the handle is seeked
    /// back to the captured position first.
    pub fn next(&mut self) -> (r: Option<Result<Rc<Frame>, Error>>)
        requires
            old(self).wf(),
        ensures
            final(self).wf(),
            final(self).traj_state().frames == old(self).traj_state().frames,
            final(self).traj_state().end == old(self).traj_state().end,
            final(self).start_pos() == old(self).start_pos(),
            // once terminated, nothing is yielded and nothing changes
            old(self).finished() ==> r is None && *final(self) == *old(self),
            final(self).finished() <==> (old(self).finished() || r is None || r matches Some(
                Err(_),
            )),
            // both termination paths restore the captured position
            !old(self).finished() && (r is None || r matches Some(Err(_)))
                ==> final(self).traj_state().cursor == old(self).start_pos() as nat,
            // an unterminated pull comes back empty only at the clean end of
            // a stream whose count resolved
            !old(self).finished() && r is None ==> ({
                let st0 = old(self).traj_state();
                &&& final(self).traj_state().natoms matches Some(Ok(_))
                &&& st0.cursor >= st0.frames.len()
                &&& st0.end == StreamEnd::Eof
            }),
            // a failed memoized count fails the pull with the wrapped error
            !old(self).finished() ==> (final(self).traj_state().natoms matches Some(Err(c))
                ==> r matches Some(Err(e)) && e matches Error::CouldNotCheckNAtoms(inner)
                && *inner == natoms_failure(c)),
            // a corrupt tail fails the pull with its code
            ({
                let st0 = old(self).traj_state();
                (!old(self).finished() && (final(self).traj_state().natoms matches Some(Ok(_)))
                    && st0.cursor >= st0.frames.len()) ==> (st0.end matches StreamEnd::Corrupt(c)
                    ==> r == Some(Err::<Rc<Frame>, Error>(
                    (Error::Failed { task: ErrorTask::Read, code: Some(c) }),
                )))
            }),
            // mid-stream, a pull with a resolved count always yields an item
            ({
                let st0 = old(self).traj_state();
                (!old(self).finished() && (final(self).traj_state().natoms matches Some(Ok(_)))
                    && st0.cursor < st0.frames.len()) ==> r is Some
            }),
            r matches Some(Err(e)) ==> !e.spec_is_eof(),
            r matches Some(Ok(f)) ==> ({
                let st0 = old(self).traj_state();
                &&& st0.cursor < st0.frames.len()
                &&& f@ == st0.frames[st0.cursor as int]
                &&& f@.wf()
                &&& final(self).traj_state().cursor == st0.cursor + 1
                &&& !final(self).finished()
            }),
    {
        if self.done {
            return None;
        }
        match self.inner.next_inner() {
            Ok(f) => Some(Ok(f)),
            Err(e) => {
                self.done = true;
                let eof = e.is_eof();
                let _ = self.inner.trajectory.seek(SeekFrom::Start(self.start));
                if eof {
                    None
                } else {
                    Some(Err(e))
                }
            },
        }
    }

    /// Hand the trajectory back, consuming the iterator.
    pub fn into_inner(self) -> (t: T)
        ensures
            t.tstate() == self.traj_state(),
    {
        self.inner.trajectory
    }
}

/// Turn a seekable trajectory into a position-restoring lookahead iterator,
/// capturing its current position.
pub fn into_lookahead<T: SeekableTrajectory>(traj: T) -> (it: LookaheadIterator<T>)
    requires
        traj.tstate().wf(),
        traj.tstate().cursor <= traj.tstate().frames.len(),
    ensures
        it.wf(),
        !it.finished(),
        it.start_pos() as nat == traj.tstate().cursor,
        it.traj_state().frames == traj.tstate().frames,
        it.traj_state().end == traj.tstate().end,
        it.traj_state().cursor == traj.tstate().cursor,
        traj.tstate().natoms matches Some(c) ==> it.traj_state().natoms == Some(c),
{
    let start = traj.tell();
    let inner = into_iter_inner(traj);
    LookaheadIterator { inner, start, done: false }
}

} // verus!
