//! Writing to a file of fixed capacity that starts over at its beginning
//! once it is full.

use vstd::prelude::*;

verus! {

/// A sink that takes writes in a circle.
pub trait CircularWrite {
    /// Writes all of `data`, starting over at the beginning of the sink where
    /// its end is reached.
    fn circular_write_all(&mut self, data: &[u8]) -> Result<(), std::io::Error>;
}

/// How a write is laid out in a sink of fixed capacity.
#[derive(Copy, Clone, Debug, PartialEq, Eq, Structural)]
pub enum CircularPlan {
    /// The position is at or past the end: go back to the start, then write
    /// everything.
    Rewind,
    /// The data runs past the end: write the first `first` bytes, go back to
    /// the start, then write the rest.
    Split { first: usize },
    /// The data fits before the end: write everything where the position is.
    Append,
}

/// The layout of a write of `len` bytes at position `pos` of a sink that
/// holds `capacity` bytes.
pub open spec fn spec_circular_plan(pos: u64, capacity: u64, len: usize) -> CircularPlan {
    if pos >= capacity {
        CircularPlan::Rewind
    } else if pos + len > capacity {
        CircularPlan::Split { first: (capacity - pos) as usize }
    } else {
        CircularPlan::Append
    }
}

/// Lays out a write of `len` bytes at position `pos` of a sink that holds
/// `capacity` bytes. A split always leaves bytes for after the turn.
pub fn circular_plan(pos: u64, capacity: u64, len: usize) -> (r: CircularPlan)
    ensures
        r == spec_circular_plan(pos, capacity, len),
        r matches CircularPlan::Split { first } ==> 0 < first < len && pos + first == capacity,
{
    if pos >= capacity {
        CircularPlan::Rewind
    } else {
        let room: u64 = capacity - pos;
        if len as u64 > room {
            CircularPlan::Split { first: room as usize }
        } else {
            CircularPlan::Append
        }
    }
}

} // verus!
