//! Visualization frames: the bounded point sequences the goniometer publishes.

use vstd::prelude::*;

verus! {

/// Number of points a visualization frame can hold. This is the compile-time
/// maximum block size: configuration refuses any larger host block length
/// before streaming begins.
pub const FRAME_CAPACITY: usize = 4096;

/// One derived XY point, carried as the bit patterns of its single-precision
/// coordinates.
#[derive(Clone, Copy, Debug, PartialEq, Eq, Structural)]
pub struct VisPoint {
    pub x_bits: u32,
    pub y_bits: u32,
}

/// A fixed-capacity ordered sequence of derived points. The goniometer
/// produces one frame per block holding exactly the block's sample count, in
/// sample order.
#[derive(Debug)]
pub struct VisFrame {
    points: Vec<VisPoint>,
}

impl View for VisFrame {
    type V = Seq<VisPoint>;

    closed spec fn view(&self) -> Seq<VisPoint> {
        self.points@
    }
}

impl VisFrame {
    /// A frame never holds more points than its capacity.
    pub open spec fn wf(self) -> bool {
        self@.len() <= FRAME_CAPACITY
    }

    pub fn new() -> (f: Self)
        ensures
            f@ =~= Seq::<VisPoint>::empty(),
            f.wf(),
    {
        VisFrame { points: Vec::new() }
    }

    pub fn len(&self) -> (n: usize)
        ensures
            n == self@.len(),
    {
        self.points.len()
    }

    /// Appends one point; the capacity bound is a precondition, never a silent
    /// truncation.
    pub fn push(&mut self, x_bits: u32, y_bits: u32)
        requires
            old(self)@.len() < FRAME_CAPACITY,
        ensures
            final(self)@ == old(self)@.push(VisPoint { x_bits, y_bits }),
            final(self).wf(),
    {
        self.points.push(VisPoint { x_bits, y_bits });
    }

    pub fn point(&self, i: usize) -> (p: VisPoint)
        requires
            i < self@.len(),
        ensures
            p == self@[i as int],
    {
        self.points[i]
    }
}

} // verus!
