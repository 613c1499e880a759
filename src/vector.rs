//! Three-component acceleration vectors, and the vector operations of glam
//! that the orientation logic relies on.
//!
//! The components are single-precision floats, which this library never
//! inspects: a vector is carried as an opaque value, and each operation names
//! what it returns as a function of its arguments.
//!
//! Where an operation can produce a NaN, the sign and payload bits of that
//! NaN are not fixed by Rust: they may differ between machines and between
//! two evaluations. The names below therefore stand for the result only
//! where it holds no NaN; where it may, the wrappers promise no more than
//! what holds for every NaN.

use vstd::prelude::*;
use crate::order::is_nan_bits;

verus! {

/// glam's three-component vector type, whose contents this library never
/// reads.
#[verifier::external_type_specification]
#[verifier::external_body]
pub struct ExVec3(glam::Vec3);

/// The bit pattern of the Euclidean distance between two vectors, where
/// that distance is not a NaN.
pub uninterp spec fn distance_bits_of(a: glam::Vec3, b: glam::Vec3) -> u32;

/// The component of `v` orthogonal to `w`, where it normalizes.
pub uninterp spec fn rejection_of(v: glam::Vec3, w: glam::Vec3) -> glam::Vec3;

/// The unit vector along `v`, when it has one.
pub uninterp spec fn normalized_of(v: glam::Vec3) -> Option<glam::Vec3>;

/// `v` multiplied by the length of `w`, where the product normalizes.
pub uninterp spec fn rescaled_of(v: glam::Vec3, w: glam::Vec3) -> glam::Vec3;

/// The componentwise negation of `v`.
pub uninterp spec fn negation_of(v: glam::Vec3) -> glam::Vec3;

/// Relies on `glam::Vec3::distance` (the length of `a - b`) and the bit
/// pattern of its result. Whether that result is a NaN depends on the two
/// vectors alone, and so does the result when it is not; a NaN's sign and
/// payload bits do not.
#[verifier::external_body]
pub(crate) fn distance_bits(a: glam::Vec3, b: glam::Vec3) -> (r: u32)
    ensures
        is_nan_bits(r) == is_nan_bits(distance_bits_of(a, b)),
        !is_nan_bits(r) ==> r == distance_bits_of(a, b),
{
    a.distance(b).to_bits()
}

/// Relies on `glam::Vec3::reject_from`: `v` minus its projection onto `w`.
/// It panics only under glam's optional assertion features, which are off.
/// A result with a NaN component (as for a zero `w`) never normalizes,
/// whatever the NaN's bits, so whether it normalizes depends on the
/// arguments alone, and so does a result that normalizes.
#[verifier::external_body]
pub(crate) fn rejection(v: glam::Vec3, w: glam::Vec3) -> (r: glam::Vec3)
    ensures
        (normalized_of(r) is Some) == (normalized_of(rejection_of(v, w)) is Some),
        normalized_of(r) is Some ==> r == rejection_of(v, w),
{
    v.reject_from(w)
}

/// Relies on `glam::Vec3::try_normalize`: `None` when the length of `v` is
/// zero, near zero or not finite, the unit vector along `v` otherwise.
#[verifier::external_body]
pub(crate) fn try_normalized(v: glam::Vec3) -> (r: Option<glam::Vec3>)
    ensures
        r == normalized_of(v),
{
    v.try_normalize()
}

/// Relies on `glam::Vec3::length` of `w` and glam's multiplication of `v`
/// by that scalar (the scalar cannot be held by this library, so the two
/// calls stand together). A product with a NaN component (zero times an
/// overflowed length) never normalizes, whatever the NaN's bits, so whether
/// it normalizes depends on the arguments alone, and so does a product that
/// normalizes.
#[verifier::external_body]
pub(crate) fn rescaled(v: glam::Vec3, w: glam::Vec3) -> (r: glam::Vec3)
    ensures
        (normalized_of(r) is Some) == (normalized_of(rescaled_of(v, w)) is Some),
        normalized_of(r) is Some ==> r == rescaled_of(v, w),
{
    v * w.length()
}

/// Relies on glam's `Neg` for `Vec3`, which negates each component.
#[verifier::external_body]
pub(crate) fn negated(v: glam::Vec3) -> (r: glam::Vec3)
    ensures
        r == negation_of(v),
{
    -v
}

} // verus!
