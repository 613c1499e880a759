//! Nearest-match classification of a sample into one of the four rotations.

use vstd::prelude::*;
use crate::calibration::OrientationVectors;
use crate::order::{nan_last_key, nan_last_order_key};
use crate::rotation::{rotation_index, Rotation};
use crate::vector::{distance_bits, distance_bits_of};

verus! {

/// The rank of the `i`-th of the given bit patterns, NaNs last.
pub open spec fn key_at(bits: Seq<u32>, i: int) -> int {
    nan_last_key(bits[i])
}

/// The rank of the distance between `sample` and the reference vector of `r`.
pub open spec fn distance_key(sample: glam::Vec3, frame: OrientationVectors, r: Rotation) -> int {
    nan_last_key(distance_bits_of(frame.spec_vector(r), sample))
}

/// The rotation whose distance is least in the total order, given the bit
/// patterns of the four distances indexed by rotation. Every NaN ranks
/// alike, above all numbers, so a NaN distance is least only when all four
/// are NaN. Of several equal least distances, the first in the visiting
/// order wins.
pub fn nearest_rotation(distances: [u32; 4]) -> (r: Rotation)
    ensures
        forall|q: Rotation|
            key_at(distances@, rotation_index(r)) <= #[trigger] key_at(
                distances@,
                rotation_index(q),
            ),
        forall|q: Rotation|
            rotation_index(q) < rotation_index(r) ==> key_at(distances@, rotation_index(r))
                < #[trigger] key_at(distances@, rotation_index(q)),
{
    let mut best: usize = 0;
    let mut best_key: i64 = nan_last_order_key(distances[0]);
    let mut i: usize = 1;
    while i < 4
        invariant
            1 <= i <= 4,
            best < i,
            best_key as int == key_at(distances@, best as int),
            forall|j: int| 0 <= j < i ==> key_at(distances@, best as int) <= key_at(distances@, j),
            forall|j: int| 0 <= j < best ==> key_at(distances@, best as int) < key_at(distances@, j),
        decreases 4 - i,
    {
        let k = nan_last_order_key(distances[i]);
        if k < best_key {
            best = i;
            best_key = k;
        }
        i = i + 1;
    }
    let r = Rotation::from_index(best);
    assert forall|q: Rotation| 0 <= #[trigger] rotation_index(q) < 4 by {}
    r
}

/// The rotation whose reference vector lies nearest to `sample` by
/// Euclidean distance. Distances are compared in the IEEE 754 total order,
/// with every NaN distance ranked alike above all numbers; of several equal
/// least distances, the first in the visiting order (normal, right,
/// inverted, left) wins.
pub fn classify(sample: glam::Vec3, frame: &OrientationVectors) -> (r: Rotation)
    ensures
        forall|q: Rotation| distance_key(sample, *frame, r) <= #[trigger] distance_key(sample, *frame, q),
        forall|q: Rotation|
            rotation_index(q) < rotation_index(r) ==> distance_key(sample, *frame, r)
                < #[trigger] distance_key(sample, *frame, q),
{
    let distances: [u32; 4] = [
        distance_bits(frame.vector(Rotation::Normal), sample),
        distance_bits(frame.vector(Rotation::Right), sample),
        distance_bits(frame.vector(Rotation::Inverted), sample),
        distance_bits(frame.vector(Rotation::Left), sample),
    ];
    let r = nearest_rotation(distances);
    assert forall|q: Rotation|
        key_at(distances@, rotation_index(q)) == #[trigger] distance_key(sample, *frame, q) by {}
    r
}

} // verus!
