//! Homogeneous 4x4 transforms and 4-component vectors, carried as opaque
//! `glam` values. The library stores, copies and multiplies them; it never
//! looks at their entries.

use vstd::prelude::*;

verus! {

/// `glam::Mat4`, a 4x4 column-major matrix of single-precision numbers. Its
/// contents are hidden from the verifier.
#[verifier::external_type_specification]
#[verifier::external_body]
pub struct ExMat4(glam::Mat4);

/// `glam::Vec4`, four single-precision numbers. Its contents are hidden from
/// the verifier.
#[verifier::external_type_specification]
#[verifier::external_body]
pub struct ExVec4(glam::Vec4);

/// The matrix that `glam` computes as the product `a * b`.
pub uninterp spec fn mat4_product(a: glam::Mat4, b: glam::Mat4) -> glam::Mat4;

/// Holds of the matrix that `glam` hands out as the identity.
pub uninterp spec fn mat4_is_identity(m: glam::Mat4) -> bool;

/// Calls `glam::Mat4::mul_mat4`, which multiplies `a` by `b` column by column
/// with ordinary single-precision products and sums. The contract only names
/// the result; it claims nothing about its entries.
#[verifier::external_body]
pub(crate) fn mat4_mul(a: &glam::Mat4, b: &glam::Mat4) -> (r: glam::Mat4)
    ensures
        r == mat4_product(*a, *b),
{
    a.mul_mat4(b)
}

/// Calls `glam::Mat4::identity`, which returns the constant identity matrix.
#[verifier::external_body]
pub(crate) fn mat4_identity() -> (r: glam::Mat4)
    ensures
        mat4_is_identity(r),
{
    glam::Mat4::identity()
}

} // verus!
