//! One trajectory step held in memory: atom count, step index, time, the
//! periodic box and one coordinate triplet per atom.
//!
//! The codec's scalar fields are 32-bit floating-point numbers on disk; the
//! verified core never computes with them, so they are carried here as raw
//! IEEE-754 bit patterns (`u32`).  Conversion to and from `f32` happens at
//! the boundary, outside the verified core.

use vstd::prelude::*;

verus! {

/// A coordinate triplet of all zeroes.
pub open spec fn zero_triplet() -> [u32; 3] {
    vstd::array::spec_array_fill_for_copy_type::<u32, 3>(0u32)
}

/// A box matrix of all zeroes.
pub open spec fn zero_box() -> [[u32; 3]; 3] {
    vstd::array::spec_array_fill_for_copy_type::<[u32; 3], 3>(zero_triplet())
}

/// The mathematical content of a [`Frame`].
#[verifier::ext_equal]
pub ghost struct FrameView {
    pub num_atoms: u32,
    pub step: u32,
    pub time: u32,
    pub box_vector: [[u32; 3]; 3],
    pub coords: Seq<[u32; 3]>,
}

impl FrameView {
    /// The frame invariant: the coordinate buffer holds exactly one triplet
    /// per atom.
    pub open spec fn wf(self) -> bool {
        self.coords.len() == self.num_atoms
    }
}

/// The in-memory record for one trajectory step.
///
/// A frame is constructed empty or pre-sized to a known atom count, is
/// overwritten in place by read operations and is only inspected by write
/// operations.  Reads and writes require `coords.len() == num_atoms`
/// ([`FrameView::wf`]); the constructors establish it.
#[derive(Debug)]
pub struct Frame {
    /// Number of coordinate triplets the buffer holds.
    pub num_atoms: u32,
    /// Simulation step index as stored in the file.
    pub step: u32,
    /// Simulation time, as the bit pattern of a 32-bit float.
    pub time: u32,
    /// Periodic box edge vectors, each entry the bit pattern of a 32-bit
    /// float.
    pub box_vector: [[u32; 3]; 3],
    /// One triplet of 32-bit float bit patterns per atom.
    pub coords: Vec<[u32; 3]>,
}

impl View for Frame {
    type V = FrameView;

    open spec fn view(&self) -> FrameView {
        FrameView {
            num_atoms: self.num_atoms,
            step: self.step,
            time: self.time,
            box_vector: self.box_vector,
            coords: self.coords@,
        }
    }
}

impl Frame {
    /// An empty frame: no atoms, everything zero.
    pub fn new() -> (f: Frame)
        ensures
            f@ == (FrameView {
                num_atoms: 0,
                step: 0,
                time: 0,
                box_vector: zero_box(),
                coords: Seq::<[u32; 3]>::empty(),
            }),
            f@.wf(),
    {
        let row: [u32; 3] = [0u32; 3];
        let f = Frame {
            num_atoms: 0,
            step: 0,
            time: 0,
            box_vector: [row; 3],
            coords: Vec::new(),
        };
        proof {
            assert(f@ =~= (FrameView {
                num_atoms: 0,
                step: 0,
                time: 0,
                box_vector: zero_box(),
                coords: Seq::<[u32; 3]>::empty(),
            }));
        }
        f
    }

    /// A frame pre-sized to `num_atoms` atoms, everything zero.
    pub fn with_len(num_atoms: u32) -> (f: Frame)
        ensures
            f@.num_atoms == num_atoms,
            f@.step == 0,
            f@.time == 0,
            f@.box_vector == zero_box(),
            f@.coords.len() == num_atoms,
            forall|i: int| 0 <= i < num_atoms ==> f@.coords[i] == zero_triplet(),
            f@.wf(),
    {
        let n = num_atoms as usize;
        let row: [u32; 3] = [0u32; 3];
        let mut coords: Vec<[u32; 3]> = Vec::with_capacity(n);
        let mut i: usize = 0;
        while i < n
            invariant
                i <= n,
                coords@.len() == i,
                forall|k: int| 0 <= k < i ==> coords@[k] == zero_triplet(),
            decreases n - i,
        {
            coords.push([0u32; 3]);
            i = i + 1;
        }
        Frame { num_atoms, step: 0, time: 0, box_vector: [row; 3], coords }
    }

    /// Overwrite this frame in place with the content of `src`, reusing the
    /// coordinate buffer's allocation where its capacity suffices.
    pub fn copy_from(&mut self, src: &Frame)
        ensures
            final(self)@ == src@,
    {
        self.num_atoms = src.num_atoms;
        self.step = src.step;
        self.time = src.time;
        self.box_vector = src.box_vector;
        self.coords.clear();
        let mut i: usize = 0;
        while i < src.coords.len()
            invariant
                i <= src.coords@.len(),
                self.coords@.len() == i,
                forall|k: int| 0 <= k < i ==> self.coords@[k] == src.coords@[k],
                self.num_atoms == src.num_atoms,
                self.step == src.step,
                self.time == src.time,
                self.box_vector == src.box_vector,
            decreases src.coords@.len() - i,
        {
            self.coords.push(src.coords[i]);
            i = i + 1;
        }
        proof {
            assert(self.coords@ =~= src.coords@);
            assert(self@ =~= src@);
        }
    }

    /// A frame with capacity for `num_atoms` atoms, everything zero.
    ///
    /// The buffer is fully sized, not merely reserved: a read into the frame
    /// needs one slot per atom to exist.
    pub fn with_capacity(num_atoms: u32) -> (f: Frame)
        ensures
            f@.num_atoms == num_atoms,
            f@.step == 0,
            f@.time == 0,
            f@.box_vector == zero_box(),
            f@.coords.len() == num_atoms,
            forall|i: int| 0 <= i < num_atoms ==> f@.coords[i] == zero_triplet(),
            f@.wf(),
    {
        Frame::with_len(num_atoms)
    }
}

impl Clone for Frame {
    /// An independent frame with the same content.
    fn clone(&self) -> (r: Frame)
        ensures
            r@ == self@,
    {
        let mut coords: Vec<[u32; 3]> = Vec::with_capacity(self.coords.len());
        let mut i: usize = 0;
        while i < self.coords.len()
            invariant
                i <= self.coords@.len(),
                coords@.len() == i,
                forall|k: int| 0 <= k < i ==> coords@[k] == self.coords@[k],
            decreases self.coords@.len() - i,
        {
            coords.push(self.coords[i]);
            i = i + 1;
        }
        proof {
            assert(coords@ =~= self.coords@);
        }
        let r = Frame {
            num_atoms: self.num_atoms,
            step: self.step,
            time: self.time,
            box_vector: self.box_vector,
            coords,
        };
        proof {
            assert(r@ =~= self@);
        }
        r
    }
}

} // verus!
