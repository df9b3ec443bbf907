//! Trusted arithmetic on the generic scalar type.
//!
//! The filters are generic over the scalar `N` (a 32- or 64-bit
//! floating-point type in practice), so every arithmetic step on `N` is a
//! call into the scalar type's own operator implementations.  Each function
//! here wraps exactly one such operation; everything built from them — the
//! vector and quaternion arithmetic and both filters — is verified.
//!
//! Call sites use the module path (`scalar::add(a, b)`), which keeps the
//! origin of each operation visible.

use vstd::prelude::*;

verus! {

/// Relies on the scalar's `core::ops::Add` implementation; for `f32` and
/// `f64` this is the machine addition.
#[verifier::external_body]
pub(crate) fn add<N: core::ops::Add<Output = N>>(a: N, b: N) -> N {
    a + b
}

/// Relies on the scalar's `core::ops::Sub` implementation; for `f32` and
/// `f64` this is the machine subtraction.
#[verifier::external_body]
pub(crate) fn sub<N: core::ops::Sub<Output = N>>(a: N, b: N) -> N {
    a - b
}

/// Relies on the scalar's `core::ops::Mul` implementation; for `f32` and
/// `f64` this is the machine multiplication.
#[verifier::external_body]
pub(crate) fn mul<N: core::ops::Mul<Output = N>>(a: N, b: N) -> N {
    a * b
}

/// Relies on the scalar's `core::ops::Div` implementation; for `f32` and
/// `f64` this is the machine division.
#[verifier::external_body]
pub(crate) fn div<N: core::ops::Div<Output = N>>(a: N, b: N) -> N {
    a / b
}

/// Relies on the scalar's `core::ops::Neg` implementation; for `f32` and
/// `f64` this flips the sign.
#[verifier::external_body]
pub(crate) fn neg<N: core::ops::Neg<Output = N>>(a: N) -> N {
    -a
}

/// Relies on the scalar's `core::cmp::PartialOrd` implementation; for `f32`
/// and `f64` this is the machine comparison.
#[verifier::external_body]
pub(crate) fn gt<N: core::cmp::PartialOrd>(a: &N, b: &N) -> bool {
    a > b
}

/// Relies on the scalar's `core::cmp::PartialOrd` implementation; for `f32`
/// and `f64` this is the machine comparison.
#[verifier::external_body]
pub(crate) fn le<N: core::cmp::PartialOrd>(a: &N, b: &N) -> bool {
    a <= b
}

/// Relies on `num_traits::Zero::zero`; for `f32` and `f64` this is positive
/// zero.
#[verifier::external_body]
pub(crate) fn zero<N: num_traits::Zero>() -> N {
    N::zero()
}

/// Relies on `num_traits::One::one`; for `f32` and `f64` this is one.
#[verifier::external_body]
pub(crate) fn one<N: num_traits::One>() -> N {
    N::one()
}

/// Relies on `simba::scalar::ComplexField::sqrt`; for `f32` and `f64` this
/// is the machine square root.
#[verifier::external_body]
pub(crate) fn sqrt<N: simba::scalar::RealField>(a: N) -> N {
    a.sqrt()
}

} // verus!
