//! Compact controls of the tool windows.

use vstd::prelude::*;

verus! {

/// Where a segment stands in its track.
#[derive(Clone, Copy, PartialEq, Eq, Structural, Debug)]
pub enum FbSegment {
    Only,
    First,
    Middle,
    Last,
}

/// Where the segment at `index` of `count` stands in its track.
pub fn segment_position(index: usize, count: usize) -> (position: FbSegment)
    requires
        count > 1 ==> index < usize::MAX,
    ensures
        position == if count <= 1 {
            FbSegment::Only
        } else if index == 0 {
            FbSegment::First
        } else if index + 1 == count {
            FbSegment::Last
        } else {
            FbSegment::Middle
        },
{
    if count <= 1 {
        FbSegment::Only
    } else if index == 0 {
        FbSegment::First
    } else if index + 1 == count {
        FbSegment::Last
    } else {
        FbSegment::Middle
    }
}

} // verus!
