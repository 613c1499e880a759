//! Where a ray from the window's midpoint leaves the window, given the
//! angles of the window's corners.
//!
//! Angles are single-precision bit patterns, compared in the IEEE 754 total
//! order. The corner angles are measured clockwise from the upward vertical
//! through the midpoint, in ascending order: top right, bottom right,
//! bottom left, top left.

use vstd::prelude::*;
use crate::order::{order_key, total_order_key};

verus! {

/// The part of the window boundary that a ray meets.
#[derive(Clone, Copy, Debug, PartialEq, Eq, Structural)]
pub enum WindowBoundary {
    /// The ray passes through the corner with this index.
    Corner(usize),
    /// The ray meets an edge strictly between two corners; the value is the
    /// number of corner angles below the ray's angle. 0 and 4 are both the
    /// top edge, 1 the right, 2 the bottom and 3 the left edge.
    Edge(usize),
}

/// The corner angles ascend in the total order.
pub open spec fn corners_ascending(corners: Seq<u32>) -> bool {
    forall|i: int, j: int|
        0 <= i <= j < corners.len() ==> total_order_key(corners[i]) <= total_order_key(
            corners[j],
        )
}

/// Finds where a ray at `angle` meets the window whose corners lie at
/// `corners`.
pub fn locate_on_window(corners: [u32; 4], angle: u32) -> (r: WindowBoundary)
    requires
        corners_ascending(corners@),
    ensures
        (exists|i: int| 0 <= i < 4 && total_order_key(#[trigger] corners@[i]) == total_order_key(angle))
            <==> r is Corner,
        r matches WindowBoundary::Corner(i) ==> i < 4 && total_order_key(corners@[i as int])
            == total_order_key(angle),
        r matches WindowBoundary::Edge(n) ==> {
            &&& n <= 4
            &&& forall|j: int| 0 <= j < n ==> total_order_key(#[trigger] corners@[j]) < total_order_key(angle)
            &&& forall|j: int| n <= j < 4 ==> total_order_key(#[trigger] corners@[j]) > total_order_key(angle)
        },
{
    let key = order_key(angle);
    let mut n: usize = 0;
    while n < 4
        invariant
            n <= 4,
            corners_ascending(corners@),
            key as int == total_order_key(angle),
            forall|j: int| 0 <= j < n ==> total_order_key(#[trigger] corners@[j]) < key,
        decreases 4 - n,
    {
        let k = order_key(corners[n]);
        if k == key {
            return WindowBoundary::Corner(n);
        }
        if k > key {
            assert forall|j: int| n <= j < 4 implies total_order_key(#[trigger] corners@[j]) > key by {
                assert(total_order_key(corners@[n as int]) <= total_order_key(corners@[j]));
            }
            return WindowBoundary::Edge(n);
        }
        n = n + 1;
    }
    WindowBoundary::Edge(4)
}

} // verus!
