//! 3-component vectors over the generic scalar.

use vstd::prelude::*;

use crate::scalar;

verus! {

/// A 3-component column vector of scalars.
#[derive(Clone, Copy, Debug, PartialEq, Eq, Hash)]
pub struct Vector3<N> {
    /// First component.
    pub x: N,
    /// Second component.
    pub y: N,
    /// Third component.
    pub z: N,
}

impl<N> Vector3<N> {
    /// Builds the vector with the given components.
    pub fn new(x: N, y: N, z: N) -> (r: Self)
        ensures
            r.x == x,
            r.y == y,
            r.z == z,
    {
        Vector3 { x, y, z }
    }
}

impl<N: simba::scalar::RealField + Copy> Vector3<N> {
    /// The vector with every component zero.
    pub fn zeros() -> Self {
        Vector3 { x: scalar::zero(), y: scalar::zero(), z: scalar::zero() }
    }

    /// The Euclidean norm `sqrt(x^2 + y^2 + z^2)`.
    pub fn norm(&self) -> N {
        let sq = scalar::add(
            scalar::add(scalar::mul(self.x, self.x), scalar::mul(self.y, self.y)),
            scalar::mul(self.z, self.z),
        );
        scalar::sqrt(sq)
    }

    /// Divides every component by `n`.
    pub fn unscale(&self, n: N) -> Self {
        Vector3 {
            x: scalar::div(self.x, n),
            y: scalar::div(self.y, n),
            z: scalar::div(self.z, n),
        }
    }

    /// Multiplies every component by `n`.
    pub fn scale(&self, n: N) -> Self {
        Vector3 {
            x: scalar::mul(self.x, n),
            y: scalar::mul(self.y, n),
            z: scalar::mul(self.z, n),
        }
    }

    /// Component-wise sum of `self` and `rhs`.
    pub fn add(&self, rhs: &Self) -> Self {
        Vector3 {
            x: scalar::add(self.x, rhs.x),
            y: scalar::add(self.y, rhs.y),
            z: scalar::add(self.z, rhs.z),
        }
    }

    /// The 3-dimensional cross product `self × rhs`.
    pub fn cross(&self, rhs: &Self) -> Self {
        Vector3 {
            x: scalar::sub(scalar::mul(self.y, rhs.z), scalar::mul(self.z, rhs.y)),
            y: scalar::sub(scalar::mul(self.z, rhs.x), scalar::mul(self.x, rhs.z)),
            z: scalar::sub(scalar::mul(self.x, rhs.y), scalar::mul(self.y, rhs.x)),
        }
    }

    /// Normalizes `self` to unit length, unless its norm is `min_norm` or
    /// less; a failure leaves no sensible direction, so `None` is returned
    /// instead of a vector of non-finite components.
    pub fn try_normalize(&self, min_norm: N) -> Option<Self> {
        let n = self.norm();
        if scalar::le(&n, &min_norm) {
            None
        } else {
            Some(self.unscale(n))
        }
    }
}

} // verus!
