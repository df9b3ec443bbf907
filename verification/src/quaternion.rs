//! Quaternions and unit quaternions over the generic scalar.

use vstd::prelude::*;

use crate::scalar;
use crate::vector::Vector3;

verus! {

/// A quaternion `w + x·i + y·j + z·k`.
#[derive(Clone, Copy, Debug, PartialEq, Eq, Hash)]
pub struct Quaternion<N> {
    /// Scalar (real) part.
    pub w: N,
    /// First imaginary component.
    pub x: N,
    /// Second imaginary component.
    pub y: N,
    /// Third imaginary component.
    pub z: N,
}

impl<N> Quaternion<N> {
    /// Builds the quaternion `w + x·i + y·j + z·k`.
    pub fn new(w: N, x: N, y: N, z: N) -> (r: Self)
        ensures
            r.w == w,
            r.x == x,
            r.y == y,
            r.z == z,
    {
        Quaternion { w, x, y, z }
    }

    /// Builds the quaternion whose real part is `scalar` and whose imaginary
    /// part is `vector`.
    pub fn from_parts(scalar: N, vector: Vector3<N>) -> (r: Self)
        ensures
            r.w == scalar,
            r.x == vector.x,
            r.y == vector.y,
            r.z == vector.z,
    {
        Quaternion { w: scalar, x: vector.x, y: vector.y, z: vector.z }
    }
}

impl<N: simba::scalar::RealField + Copy> Quaternion<N> {
    /// The conjugate: the imaginary part changes sign, the real part stays.
    pub fn conjugate(&self) -> (r: Self)
        ensures
            r.w == self.w,
    {
        Quaternion {
            w: self.w,
            x: scalar::neg(self.x),
            y: scalar::neg(self.y),
            z: scalar::neg(self.z),
        }
    }

    /// The Hamilton product `self * rhs`.
    pub fn mul(&self, rhs: &Self) -> Self {
        let (pw, px, py, pz) = (self.w, self.x, self.y, self.z);
        let (qw, qx, qy, qz) = (rhs.w, rhs.x, rhs.y, rhs.z);
        Quaternion {
            w: scalar::sub(
                scalar::sub(
                    scalar::sub(scalar::mul(pw, qw), scalar::mul(px, qx)),
                    scalar::mul(py, qy),
                ),
                scalar::mul(pz, qz),
            ),
            x: scalar::sub(
                scalar::add(
                    scalar::add(scalar::mul(pw, qx), scalar::mul(px, qw)),
                    scalar::mul(py, qz),
                ),
                scalar::mul(pz, qy),
            ),
            y: scalar::add(
                scalar::add(
                    scalar::sub(scalar::mul(pw, qy), scalar::mul(px, qz)),
                    scalar::mul(py, qw),
                ),
                scalar::mul(pz, qx),
            ),
            z: scalar::add(
                scalar::sub(
                    scalar::add(scalar::mul(pw, qz), scalar::mul(px, qy)),
                    scalar::mul(py, qx),
                ),
                scalar::mul(pz, qw),
            ),
        }
    }

    /// Component-wise sum of `self` and `rhs`.
    pub fn add(&self, rhs: &Self) -> Self {
        Quaternion {
            w: scalar::add(self.w, rhs.w),
            x: scalar::add(self.x, rhs.x),
            y: scalar::add(self.y, rhs.y),
            z: scalar::add(self.z, rhs.z),
        }
    }

    /// Component-wise difference of `self` and `rhs`.
    pub fn sub(&self, rhs: &Self) -> Self {
        Quaternion {
            w: scalar::sub(self.w, rhs.w),
            x: scalar::sub(self.x, rhs.x),
            y: scalar::sub(self.y, rhs.y),
            z: scalar::sub(self.z, rhs.z),
        }
    }

    /// Multiplies every component by `n`.
    pub fn scale(&self, n: N) -> Self {
        Quaternion {
            w: scalar::mul(self.w, n),
            x: scalar::mul(self.x, n),
            y: scalar::mul(self.y, n),
            z: scalar::mul(self.z, n),
        }
    }

    /// Divides every component by `n`.
    pub fn unscale(&self, n: N) -> Self {
        Quaternion {
            w: scalar::div(self.w, n),
            x: scalar::div(self.x, n),
            y: scalar::div(self.y, n),
            z: scalar::div(self.z, n),
        }
    }

    /// The Euclidean norm of the four components, with the components paired
    /// as `(x^2 + z^2) + (y^2 + w^2)` before the square root.
    pub fn norm(&self) -> N {
        let a = scalar::add(scalar::mul(self.x, self.x), scalar::mul(self.z, self.z));
        let b = scalar::add(scalar::mul(self.y, self.y), scalar::mul(self.w, self.w));
        scalar::sqrt(scalar::add(a, b))
    }

    /// Divides every component by the norm.
    pub fn normalize(&self) -> Self {
        self.unscale(self.norm())
    }
}

/// A quaternion wrapped as an orientation: its only construction paths are
/// the identity, normalize-and-wrap, and an explicit unchecked escape hatch,
/// so a filter state cannot silently drift away from unit length.
#[derive(Clone, Copy, Debug, PartialEq, Eq, Hash)]
pub struct UnitQuaternion<N> {
    q: Quaternion<N>,
}

impl<N> View for UnitQuaternion<N> {
    type V = Quaternion<N>;

    closed spec fn view(&self) -> Quaternion<N> {
        self.q
    }
}

impl<N> UnitQuaternion<N> {
    /// Wraps `q` without normalizing it; the caller vouches that `q` already
    /// has unit length.
    pub fn new_unchecked(q: Quaternion<N>) -> (r: Self)
        ensures
            r@ == q,
    {
        UnitQuaternion { q }
    }

    /// The wrapped quaternion.
    pub fn as_ref(&self) -> (r: &Quaternion<N>)
        ensures
            *r == self@,
    {
        &self.q
    }

    /// Unwraps the quaternion.
    pub fn into_inner(self) -> (r: Quaternion<N>)
        ensures
            r == self@,
    {
        self.q
    }
}

impl<N: simba::scalar::RealField + Copy> UnitQuaternion<N> {
    /// The identity rotation `1 + 0·i + 0·j + 0·k`.
    pub fn identity() -> Self {
        UnitQuaternion {
            q: Quaternion {
                w: scalar::one(),
                x: scalar::zero(),
                y: scalar::zero(),
                z: scalar::zero(),
            },
        }
    }

    /// Normalizes `q` and wraps the result.
    pub fn from_quaternion(q: Quaternion<N>) -> Self {
        UnitQuaternion { q: q.normalize() }
    }
}

} // verus!
