use std::rc::Rc;

use xdrfile::into_iter_inner;
use xdrfile::into_lookahead;
use xdrfile::Error;
use xdrfile::ErrorCode;
use xdrfile::ErrorTask;
use xdrfile::Frame;
use xdrfile::MemTrajectory;
use xdrfile::SeekableTrajectory;
use xdrfile::StreamEnd;
use xdrfile::Trajectory;

fn triplet(x: f32, y: f32, z: f32) -> [u32; 3] {
    [x.to_bits(), y.to_bits(), z.to_bits()]
}

fn stream_frame(num_atoms: u32, step: u32) -> Frame {
    let mut coords = Vec::new();
    for i in 0..num_atoms {
        coords.push(triplet(i as f32, step as f32, 0.25));
    }
    Frame { num_atoms, step, time: (step as f32).to_bits(), box_vector: [[0u32; 3]; 3], coords }
}

fn stream_of(steps: std::ops::RangeInclusive<u32>, num_atoms: u32) -> Vec<Frame> {
    steps.map(|step| stream_frame(num_atoms, step)).collect()
}

#[test]
fn full_iteration_yields_every_frame() {
    let t = MemTrajectory::from_frames(stream_of(1..=38, 304));
    let mut it = into_iter_inner(t);
    let mut collected: Vec<Rc<Frame>> = Vec::new();
    while let Some(item) = it.next() {
        collected.push(item.expect("iteration failed"));
    }
    assert_eq!(collected.len(), 38);
    assert_eq!(collected[0].step, 1);
    assert_eq!(collected[37].step, 38);
}

#[test]
fn iteration_ends_where_the_handle_stopped() {
    let t = MemTrajectory::from_frames(stream_of(1..=4, 2));
    let mut it = into_iter_inner(t);
    let mut n = 0u32;
    while let Some(item) = it.next() {
        item.expect("iteration failed");
        n += 1;
    }
    assert_eq!(n, 4);
    let t = it.into_inner();
    assert_eq!(t.tell(), 4);
}

#[test]
fn eof_is_terminal_and_not_an_error() {
    let t = MemTrajectory::from_frames(stream_of(1..=2, 2));
    let mut it = into_iter_inner(t);
    assert_eq!(it.next().expect("first frame").expect("first frame").step, 1);
    assert_eq!(it.next().expect("second frame").expect("second frame").step, 2);
    assert!(it.next().is_none());
    assert!(it.next().is_none());
}

#[test]
fn empty_trajectory_fails_its_atom_count() {
    // An empty stream has no first frame to scan the atom count from, so
    // the first pull reports the failure and latches the iterator.
    let t = MemTrajectory::new();
    let mut it = into_iter_inner(t);
    let e = it.next().expect("first pull reports the failure").expect_err("must be an error");
    match &e {
        Error::CouldNotCheckNAtoms(inner) => {
            assert_eq!(inner.code(), Some(ErrorCode::ExdrEndOfFile));
        }
        other => panic!("wrong error shape: {:?}", other),
    }
    assert!(!e.is_eof());
    assert!(it.next().is_none());
    assert!(it.next().is_none());
}

#[test]
fn first_error_latches_the_iterator() {
    let t = MemTrajectory::from_parts(stream_of(1..=2, 2), StreamEnd::Corrupt(ErrorCode::ExdrInt));
    let mut it = into_iter_inner(t);
    assert_eq!(it.next().expect("first frame").expect("first frame").step, 1);
    assert_eq!(it.next().expect("second frame").expect("second frame").step, 2);

    let e = it.next().expect("the corrupt tail yields an error").expect_err("must be an error");
    assert!(!e.is_eof());
    assert_eq!(*e.task(), ErrorTask::Read);
    assert_eq!(e.code(), Some(ErrorCode::ExdrInt));

    // Latched: no further error, no further success, ever.
    assert!(it.next().is_none());
    assert!(it.next().is_none());
    assert!(it.next().is_none());
}

#[test]
fn unreadable_atom_count_fails_the_first_pull() {
    let t = MemTrajectory::from_parts(vec![], StreamEnd::Corrupt(ErrorCode::ExdrMagic));
    // Construction does not fail; the failure is deferred to the first pull.
    let mut it = into_iter_inner(t);
    let e = it.next().expect("first pull reports the failure").expect_err("must be an error");
    match &e {
        Error::CouldNotCheckNAtoms(inner) => {
            assert_eq!(*inner.task(), ErrorTask::ReadNumAtoms);
            assert_eq!(inner.code(), Some(ErrorCode::ExdrMagic));
        }
        other => panic!("wrong error shape: {:?}", other),
    }
    assert!(!e.is_eof());
    assert!(it.next().is_none());
}

#[test]
fn record_of_another_size_fails_the_pull() {
    // The buffer is sized to the memoized atom count (the first record's);
    // a record of another size cannot be decoded into it.
    let mut frames = stream_of(1..=2, 3);
    frames.push(stream_frame(5, 3));
    let t = MemTrajectory::from_frames(frames);
    let mut it = into_iter_inner(t);
    assert_eq!(it.next().expect("first frame").expect("first frame").step, 1);
    assert_eq!(it.next().expect("second frame").expect("second frame").step, 2);
    let e = it.next().expect("the odd record yields an error").expect_err("must be an error");
    assert!(!e.is_eof());
    assert_eq!(e.code(), Some(ErrorCode::ExdrHeader));
    assert!(it.next().is_none());
}

#[test]
fn retained_frame_is_a_distinct_untouched_instance() {
    let t = MemTrajectory::from_frames(stream_of(1..=2, 3));
    let mut it = into_iter_inner(t);
    let first = it.next().expect("first frame").expect("first frame");
    let second = it.next().expect("second frame").expect("second frame");
    // The retained frame forced a fresh allocation for the next pull ...
    assert!(!Rc::ptr_eq(&first, &second));
    // ... and was left untouched.
    assert_eq!(first.step, 1);
    assert_eq!(first.coords, stream_frame(3, 1).coords);
    assert_eq!(second.step, 2);
}

#[test]
fn dropped_frames_let_the_buffer_be_reused() {
    let t = MemTrajectory::from_frames(stream_of(1..=3, 2));
    let mut it = into_iter_inner(t);
    for step in 1..=3u32 {
        let f = it.next().expect("frame").expect("frame");
        assert_eq!(f.step, step);
        // f is dropped here, so the iterator may reuse its buffer in place.
    }
    assert!(it.next().is_none());
}

#[test]
fn alternating_retention_keeps_every_yield_correct() {
    let t = MemTrajectory::from_frames(stream_of(1..=10, 4));
    let mut it = into_iter_inner(t);
    let mut retained: Vec<Rc<Frame>> = Vec::new();
    for step in 1..=10u32 {
        let f = it.next().expect("frame").expect("frame");
        assert_eq!(f.step, step);
        if step % 2 == 1 {
            retained.push(f);
        }
        // Even-numbered frames are dropped, letting the buffer be reused.
    }
    assert!(it.next().is_none());
    for (i, f) in retained.iter().enumerate() {
        let step = 2 * i as u32 + 1;
        assert_eq!(f.step, step);
        assert_eq!(f.coords, stream_frame(4, step).coords);
    }
}

#[test]
fn cloned_frame_matches_the_original() {
    let f = stream_frame(3, 7);
    let g = f.clone();
    assert_eq!(g.num_atoms, f.num_atoms);
    assert_eq!(g.step, f.step);
    assert_eq!(g.time, f.time);
    assert_eq!(g.box_vector, f.box_vector);
    assert_eq!(g.coords, f.coords);
}

#[test]
fn lookahead_restores_position_after_draining() {
    let mut t = MemTrajectory::from_frames(stream_of(1..=3, 2));
    let num_atoms = t.get_num_atoms().expect("atom count failed");
    let mut f = Frame::with_capacity(num_atoms);
    t.read(&mut f).expect("read failed");
    assert_eq!(t.tell(), 1);

    let mut la = into_lookahead(t);
    let mut seen = Vec::new();
    while let Some(item) = la.next() {
        seen.push(item.expect("lookahead failed").step);
    }
    assert_eq!(seen, vec![2, 3]);

    let mut t = la.into_inner();
    assert_eq!(t.tell(), 1);
    // The handle reads on from where it stood before the lookahead.
    t.read(&mut f).expect("read failed");
    assert_eq!(f.step, 2);
}

#[test]
fn lookahead_restores_position_on_error() {
    let t = MemTrajectory::from_parts(stream_of(1..=1, 2), StreamEnd::Corrupt(ErrorCode::ExdrMagic));
    let mut la = into_lookahead(t);
    assert_eq!(la.next().expect("first frame").expect("first frame").step, 1);
    let e = la.next().expect("the corrupt tail yields an error").expect_err("must be an error");
    assert!(!e.is_eof());
    assert!(la.next().is_none());
    let t = la.into_inner();
    assert_eq!(t.tell(), 0);
}
