use vstd::prelude::*;

verus! {

/// A point of cut-off hair falling under gravity; once it reaches the floor
/// it is marked stopped and no longer moves.
#[derive(Clone, Copy, Debug)]
pub struct DebrisPoint<V> {
    pub position: V,
    pub velocity: V,
    pub is_stopped: bool,
}

/// The run of points that one cut detached from a strand.
#[derive(Clone, Debug)]
pub struct DebrisSegment<V> {
    pub points: Vec<DebrisPoint<V>>,
}

impl<V> DebrisSegment<V> {
    /// A segment made of exactly `points`, in the order given.
    pub fn new(points: Vec<DebrisPoint<V>>) -> (s: Self)
        ensures
            s.points@ == points@,
    {
        DebrisSegment { points }
    }

    /// `true` when the segment has no points.
    pub fn is_empty(&self) -> (r: bool)
        ensures
            r == (self.points@.len() == 0),
    {
        self.points.len() == 0
    }
}

} // verus!
