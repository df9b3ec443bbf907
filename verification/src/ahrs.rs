//! The capability contract shared by the filters, and its error type.

use vstd::prelude::*;

use crate::quaternion::UnitQuaternion;
use crate::vector::Vector3;

verus! {

/// Why an update was rejected: a reference vector whose magnitude is not
/// strictly positive gives no direction, so the correction step is
/// undefined.
///
/// A failed update returns before any state mutation, so the caller can
/// discard the degenerate sample and go on with the old orientation.
#[derive(Clone, Copy, Debug, PartialEq, Eq)]
pub enum AhrsError {
    /// The accelerometer sample had zero norm.
    AccelerometerNormZero,
    /// The magnetometer sample had zero norm.
    MagnetometerNormZero,
}

/// The capability contract of an AHRS filter.
///
/// A filter owns an orientation estimate and some parameters fixed at
/// construction; each update either replaces the orientation (and returns
/// a copy of the new one) or fails on a degenerate sample and leaves the
/// whole state exactly as it was.
pub trait Ahrs<N>: Sized {
    /// The filter's current orientation estimate.
    spec fn orientation(&self) -> UnitQuaternion<N>;

    /// The filter's accumulated integral error, if it keeps one.
    spec fn integral_state(&self) -> Option<Vector3<N>>;

    /// Whether the parameters fixed at construction are the same in `pre`
    /// and `post`; no update operation may change them.
    spec fn same_parameters(pre: &Self, post: &Self) -> bool;

    /// Updates the orientation from a 9-degree-of-freedom sample:
    /// `gyroscope` (radians/second), `accelerometer` and `magnetometer`
    /// (any consistent units; only their directions matter).
    ///
    /// On success the new orientation is stored and a copy of it returned.
    /// On failure the whole state — orientation and integral error alike —
    /// is exactly the pre-call state.
    fn update(
        &mut self,
        gyroscope: &Vector3<N>,
        accelerometer: &Vector3<N>,
        magnetometer: &Vector3<N>,
    ) -> (r: Result<UnitQuaternion<N>, AhrsError>) where
        N: simba::scalar::RealField + Copy,

        ensures
            Self::same_parameters(old(self), final(self)),
            r is Err ==> *final(self) == *old(self),
            r is Ok ==> r->Ok_0 == final(self).orientation(),
    ;

    /// Updates the orientation from a 6-degree-of-freedom sample, without
    /// a magnetometer.  Only a zero-norm accelerometer can make it fail;
    /// on failure the whole state is exactly the pre-call state.
    fn update_imu(
        &mut self,
        gyroscope: &Vector3<N>,
        accelerometer: &Vector3<N>,
    ) -> (r: Result<UnitQuaternion<N>, AhrsError>) where
        N: simba::scalar::RealField + Copy,

        ensures
            Self::same_parameters(old(self), final(self)),
            r is Err ==> *final(self) == *old(self),
            r is Err ==> r->Err_0 is AccelerometerNormZero,
            r is Ok ==> r->Ok_0 == final(self).orientation(),
    ;

    /// Updates the orientation by dead reckoning from the gyroscope alone.
    /// There is no correction step, so it never fails and never touches
    /// the integral error.
    fn update_gyro(&mut self, gyroscope: &Vector3<N>) -> (r: UnitQuaternion<N>) where
        N: simba::scalar::RealField + Copy,

        ensures
            Self::same_parameters(old(self), final(self)),
            final(self).integral_state() == old(self).integral_state(),
            r == final(self).orientation(),
    ;
}

} // verus!
