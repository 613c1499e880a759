//! The four discrete 90 degree rotation states of a display.

use vstd::prelude::*;

verus! {

/// A display rotation in steps of 90 degrees clockwise.
///
/// The declaration order is the order in which rotations are visited when
/// several of them are compared, so it also decides ties.
#[derive(Clone, Copy, Debug, PartialEq, Eq, PartialOrd, Ord, Hash, Structural)]
pub enum Rotation {
    Normal,
    Right,
    Inverted,
    Left,
}

/// The name under which the display manager knows a rotation.
pub open spec fn rotation_name(r: Rotation) -> Seq<char> {
    match r {
        Rotation::Normal => "none"@,
        Rotation::Right => "right"@,
        Rotation::Inverted => "inverted"@,
        Rotation::Left => "left"@,
    }
}

/// Position of a rotation in the visiting order.
pub open spec fn rotation_index(r: Rotation) -> int {
    match r {
        Rotation::Normal => 0,
        Rotation::Right => 1,
        Rotation::Inverted => 2,
        Rotation::Left => 3,
    }
}

/// The rotation at a position of the visiting order.
pub open spec fn rotation_at(i: int) -> Rotation
    recommends
        0 <= i < 4,
{
    if i == 0 {
        Rotation::Normal
    } else if i == 1 {
        Rotation::Right
    } else if i == 2 {
        Rotation::Inverted
    } else {
        Rotation::Left
    }
}

impl Rotation {
    /// The name the display manager expects for this rotation.
    pub fn to_str(self) -> (r: &'static str)
        ensures
            r@ == rotation_name(self),
    {
        match self {
            Rotation::Normal => "none",
            Rotation::Left => "left",
            Rotation::Right => "right",
            Rotation::Inverted => "inverted",
        }
    }

    /// Position of this rotation in the visiting order.
    pub fn index(self) -> (r: usize)
        ensures
            r as int == rotation_index(self),
            r < 4,
            rotation_at(r as int) == self,
    {
        match self {
            Rotation::Normal => 0,
            Rotation::Right => 1,
            Rotation::Inverted => 2,
            Rotation::Left => 3,
        }
    }

    /// The rotation at position `i` of the visiting order.
    pub fn from_index(i: usize) -> (r: Rotation)
        requires
            i < 4,
        ensures
            r == rotation_at(i as int),
            rotation_index(r) == i as int,
    {
        if i == 0 {
            Rotation::Normal
        } else if i == 1 {
            Rotation::Right
        } else if i == 2 {
            Rotation::Inverted
        } else {
            Rotation::Left
        }
    }
}

/// What to ask of the display after a new rotation was observed: the new
/// rotation when it differs from the one applied last, nothing otherwise.
pub fn rotation_change(applied: Rotation, observed: Rotation) -> (r: Option<Rotation>)
    ensures
        observed == applied ==> r is None,
        observed != applied ==> r == Some(observed),
{
    if observed == applied {
        None
    } else {
        Some(observed)
    }
}

} // verus!
