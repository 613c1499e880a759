//! The reference frame: one acceleration vector per rotation, derived from
//! two calibration measurements.

use vstd::prelude::*;
use crate::rotation::Rotation;
use crate::vector::{
    negated, negation_of, normalized_of, rejection, rejection_of, rescaled, rescaled_of,
    try_normalized,
};

verus! {

/// Why a reference frame could not be derived from two measurements.
#[derive(Clone, Copy, Debug, PartialEq, Eq, Structural)]
pub enum CalibrationError {
    /// The part of the "left" measurement orthogonal to the "down"
    /// measurement has no direction (the two are parallel, or a measurement is
    /// zero or not finite).
    DegenerateAxes,
}

/// The direction of the part of `left` orthogonal to `down`, when it has one.
pub open spec fn orthogonal_direction(down: glam::Vec3, left: glam::Vec3) -> Option<glam::Vec3> {
    normalized_of(rejection_of(left, down))
}

/// The left reference vector derived from two measurements: the orthogonal
/// direction brought to the length of `down`.
pub open spec fn calibrated_left(down: glam::Vec3, left: glam::Vec3) -> glam::Vec3 {
    rescaled_of(orthogonal_direction(down, left)->Some_0, down)
}

/// Two measurements give a frame: the orthogonal part of `left` has a
/// direction, and so does that direction brought to the length of `down`.
pub open spec fn calibrates(down: glam::Vec3, left: glam::Vec3) -> bool {
    &&& orthogonal_direction(down, left) is Some
    &&& normalized_of(calibrated_left(down, left)) is Some
}

/// The reference acceleration of each of the four rotations.
///
/// The inverted vector is the negation of the normal one, and the right
/// vector is the negation of the left one.
#[derive(Clone, Copy, Debug)]
pub struct OrientationVectors {
    normal: glam::Vec3,
    right: glam::Vec3,
    inverted: glam::Vec3,
    left: glam::Vec3,
}

impl OrientationVectors {
    /// The reference vector of rotation `r`.
    pub closed spec fn spec_vector(self, r: Rotation) -> glam::Vec3 {
        match r {
            Rotation::Normal => self.normal,
            Rotation::Right => self.right,
            Rotation::Inverted => self.inverted,
            Rotation::Left => self.left,
        }
    }

    /// Opposite rotations have opposite reference vectors.
    pub open spec fn wf(self) -> bool {
        &&& self.spec_vector(Rotation::Inverted) == negation_of(self.spec_vector(Rotation::Normal))
        &&& self.spec_vector(Rotation::Right) == negation_of(self.spec_vector(Rotation::Left))
    }

    /// The frame whose normal and left vectors are the ones given; the other
    /// two are their negations.
    pub fn from_reference(normal: glam::Vec3, left: glam::Vec3) -> (r: Self)
        ensures
            r.wf(),
            r.spec_vector(Rotation::Normal) == normal,
            r.spec_vector(Rotation::Left) == left,
    {
        let inverted = negated(normal);
        let right = negated(left);
        OrientationVectors { normal, right, inverted, left }
    }

    /// Derives the frame from the acceleration `down`, measured in the normal
    /// rotation, and `left`, measured after turning the device 90 degrees
    /// to the left.
    ///
    /// The left reference vector is the part of `left` orthogonal to `down`,
    /// brought to the length of `down`. The frame is refused when that part
    /// has no direction, or when the rescaled vector has none (the length of
    /// `down` overflows, is zero or is not a number), so that no reference
    /// vector is ever a NaN.
    pub fn from_user_input(down: glam::Vec3, left: glam::Vec3) -> (r: Result<
        Self,
        CalibrationError,
    >)
        ensures
            r is Ok <==> calibrates(down, left),
            r is Err ==> r == Err::<Self, CalibrationError>(CalibrationError::DegenerateAxes),
            r matches Ok(f) ==> {
                &&& f.wf()
                &&& f.spec_vector(Rotation::Normal) == down
                &&& f.spec_vector(Rotation::Left) == calibrated_left(down, left)
                &&& normalized_of(f.spec_vector(Rotation::Left)) is Some
            },
    {
        let orthogonal = rejection(left, down);
        match try_normalized(orthogonal) {
            Some(direction) => {
                let left_final = rescaled(direction, down);
                match try_normalized(left_final) {
                    Some(_) => Ok(Self::from_reference(down, left_final)),
                    None => Err(CalibrationError::DegenerateAxes),
                }
            },
            None => Err(CalibrationError::DegenerateAxes),
        }
    }

    /// The reference vector of rotation `r`.
    pub fn vector(&self, r: Rotation) -> (v: glam::Vec3)
        ensures
            v == self.spec_vector(r),
    {
        match r {
            Rotation::Normal => self.normal,
            Rotation::Right => self.right,
            Rotation::Inverted => self.inverted,
            Rotation::Left => self.left,
        }
    }
}

} // verus!
