use xdrfile::AtomCountCache;
use xdrfile::Error;
use xdrfile::ErrorCode;
use xdrfile::ErrorTask;
use xdrfile::Frame;
use xdrfile::MemTrajectory;
use xdrfile::SeekFrom;
use xdrfile::SeekableTrajectory;
use xdrfile::StreamEnd;
use xdrfile::Trajectory;

fn triplet(x: f32, y: f32, z: f32) -> [u32; 3] {
    [x.to_bits(), y.to_bits(), z.to_bits()]
}

fn unit_box() -> [[u32; 3]; 3] {
    let one = 1.0f32.to_bits();
    let zero = 0.0f32.to_bits();
    [[one, zero, zero], [zero, one, zero], [zero, zero, one]]
}

fn sample_frame(num_atoms: u32, step: u32, time: f32) -> Frame {
    let mut coords = Vec::new();
    for i in 0..num_atoms {
        coords.push(triplet(i as f32, 1.0, -0.5));
    }
    Frame { num_atoms, step, time: time.to_bits(), box_vector: unit_box(), coords }
}

#[test]
fn empty_frame_is_empty() {
    let f = Frame::new();
    assert_eq!(f.num_atoms, 0);
    assert_eq!(f.step, 0);
    assert_eq!(f.time, 0);
    assert_eq!(f.coords.len(), 0);
    assert_eq!(f.box_vector, [[0u32; 3]; 3]);
}

#[test]
fn presized_frame_holds_one_slot_per_atom() {
    let f = Frame::with_len(17);
    assert_eq!(f.num_atoms, 17);
    assert_eq!(f.coords.len(), 17);
    let g = Frame::with_capacity(4);
    assert_eq!(g.num_atoms, 4);
    assert_eq!(g.coords.len(), 4);
}

#[test]
fn round_trip_write_then_read() {
    let frame = Frame {
        num_atoms: 2,
        step: 5,
        time: 2.0f32.to_bits(),
        box_vector: [
            [1.0f32.to_bits(), 2.0f32.to_bits(), 3.0f32.to_bits()],
            [2.0f32.to_bits(), 1.0f32.to_bits(), 3.0f32.to_bits()],
            [3.0f32.to_bits(), 2.0f32.to_bits(), 1.0f32.to_bits()],
        ],
        coords: vec![triplet(1.0, 1.0, 1.0), triplet(1.0, 1.0, 1.0)],
    };
    let mut w = MemTrajectory::new();
    w.write(&frame).expect("write failed");
    w.flush().expect("flush failed");

    let mut r = MemTrajectory::from_frames(w.into_frames());
    let num_atoms = r.get_num_atoms().expect("atom count failed");
    assert_eq!(num_atoms, frame.num_atoms);

    let mut new_frame = Frame::with_capacity(num_atoms);
    r.read(&mut new_frame).expect("read failed");

    assert_eq!(new_frame.num_atoms, frame.num_atoms);
    assert_eq!(new_frame.step, frame.step);
    let written_time = f32::from_bits(frame.time);
    let read_time = f32::from_bits(new_frame.time);
    assert!((read_time - written_time).abs() <= 1e-5);
    assert_eq!(new_frame.box_vector, frame.box_vector);
    assert_eq!(new_frame.coords, frame.coords);
}

#[test]
fn cache_stores_the_first_outcome_only() {
    let mut cache = AtomCountCache::new();
    assert_eq!(cache.get(), None);
    assert_eq!(cache.get_or_store(Ok(3)), Ok(3));
    assert_eq!(cache.get(), Some(Ok(3)));
    // A later offer is ignored: the stored outcome is replayed.
    assert_eq!(cache.get_or_store(Ok(5)), Ok(3));
    assert_eq!(cache.get_or_store(Err(ErrorCode::ExdrMagic)), Ok(3));
    assert_eq!(cache.get(), Some(Ok(3)));

    let mut failing = AtomCountCache::new();
    assert_eq!(failing.get_or_store(Err(ErrorCode::ExdrMagic)), Err(ErrorCode::ExdrMagic));
    assert_eq!(failing.get_or_store(Ok(7)), Err(ErrorCode::ExdrMagic));
}

#[test]
fn atom_count_is_memoized() {
    let mut t = MemTrajectory::from_frames(vec![sample_frame(3, 1, 0.0)]);
    let first = t.get_num_atoms().expect("atom count failed");
    let second = t.get_num_atoms().expect("atom count failed");
    assert_eq!(first, 3);
    assert_eq!(first, second);
}

#[test]
fn atom_count_error_is_memoized_across_mutation() {
    let mut t = MemTrajectory::new();
    let first = t.get_num_atoms().expect_err("empty stream should fail the scan");
    assert_eq!(*first.task(), ErrorTask::ReadNumAtoms);
    assert_eq!(first.code(), Some(ErrorCode::ExdrEndOfFile));

    // Mutate the underlying stream between the two resolutions: a fresh
    // scan would now succeed, but the memoized outcome is replayed.
    t.write(&sample_frame(2, 1, 0.0)).expect("write failed");
    let second = t.get_num_atoms().expect_err("memoized failure should be replayed");
    assert_eq!(first, second);
}

#[test]
fn read_past_end_reports_eof_repeatably() {
    let mut t = MemTrajectory::from_frames(vec![sample_frame(2, 1, 0.0)]);
    let mut f = Frame::with_capacity(2);
    t.read(&mut f).expect("read failed");
    let e1 = t.read(&mut f).expect_err("one frame was written");
    assert!(e1.is_eof());
    let e2 = t.read(&mut f).expect_err("still past the end");
    assert!(e2.is_eof());
    assert_eq!(*e2.task(), ErrorTask::Read);
}

#[test]
fn mismatched_frame_size_is_a_read_error() {
    let mut t = MemTrajectory::from_frames(vec![sample_frame(3, 1, 0.0)]);
    // A buffer sized for a different atom count cannot take the record.
    let mut small = Frame::with_capacity(2);
    let e = t.read(&mut small).expect_err("the record does not fit the buffer");
    assert!(!e.is_eof());
    assert_eq!(*e.task(), ErrorTask::Read);
    assert_eq!(e.code(), Some(ErrorCode::ExdrHeader));
    // The frame and the cursor are untouched; a right-sized read succeeds.
    assert_eq!(small.num_atoms, 2);
    assert_eq!(t.tell(), 0);
    let mut fit = Frame::with_capacity(3);
    t.read(&mut fit).expect("read failed");
    assert_eq!(fit.step, 1);
}

#[test]
fn corrupt_tail_reports_its_code() {
    let mut t = MemTrajectory::from_parts(vec![], StreamEnd::Corrupt(ErrorCode::ExdrMagic));
    let mut f = Frame::with_capacity(0);
    let e = t.read(&mut f).expect_err("corrupt stream should fail");
    assert!(!e.is_eof());
    assert_eq!(*e.task(), ErrorTask::Read);
    assert_eq!(e.code(), Some(ErrorCode::ExdrMagic));
}

#[test]
fn tell_and_seek_move_the_cursor() {
    let frames: Vec<Frame> = (1..=5u32).map(|step| sample_frame(2, step, step as f32)).collect();
    let mut t = MemTrajectory::from_frames(frames);
    assert_eq!(t.tell(), 0);

    let mut f = Frame::with_capacity(2);
    t.read(&mut f).expect("read failed");
    assert_eq!(t.tell(), 1);

    assert_eq!(t.seek(SeekFrom::Current(2)).expect("seek failed"), 3);
    t.read(&mut f).expect("read failed");
    assert_eq!(f.step, 4);

    assert_eq!(t.seek(SeekFrom::End(-1)).expect("seek failed"), 4);
    t.read(&mut f).expect("read failed");
    assert_eq!(f.step, 5);

    assert_eq!(t.seek(SeekFrom::Start(0)).expect("seek failed"), 0);
    t.read(&mut f).expect("read failed");
    assert_eq!(f.step, 1);
}

#[test]
fn seek_outside_the_stream_fails_and_moves_nothing() {
    let mut t = MemTrajectory::from_frames(vec![sample_frame(2, 1, 0.0)]);
    let e = t.seek(SeekFrom::Start(99)).expect_err("position is past the end");
    assert_eq!(*e.task(), ErrorTask::Seek);
    assert_eq!(e.code(), None);
    assert_eq!(t.tell(), 0);

    let e = t.seek(SeekFrom::Current(-1)).expect_err("position is before the start");
    assert!(matches!(e, Error::Failed { task: ErrorTask::Seek, code: None }));
    assert_eq!(t.tell(), 0);
}

#[test]
fn flush_changes_nothing() {
    let mut t = MemTrajectory::from_frames(vec![sample_frame(2, 1, 0.0)]);
    t.flush().expect("flush failed");
    assert_eq!(t.tell(), 0);
    assert_eq!(t.get_num_atoms().expect("atom count failed"), 2);
}

#[test]
fn written_frames_survive_reopening() {
    let mut w = MemTrajectory::new();
    for step in 1..=3u32 {
        w.write(&sample_frame(2, step, step as f32)).expect("write failed");
    }
    let stored = w.into_frames();
    assert_eq!(stored.len(), 3);

    let mut r = MemTrajectory::from_frames(stored);
    let mut f = Frame::with_capacity(2);
    for step in 1..=3u32 {
        r.read(&mut f).expect("read failed");
        assert_eq!(f.step, step);
    }
}
