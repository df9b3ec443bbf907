//! The proportional-integral complementary orientation filter.

use vstd::prelude::*;

use crate::ahrs::Ahrs;
use crate::ahrs::AhrsError;
use crate::quaternion::Quaternion;
use crate::quaternion::UnitQuaternion;
use crate::scalar;
use crate::vector::Vector3;

verus! {

/// A complementary AHRS filter.
///
/// It integrates the gyroscope and corrects the result with a
/// proportional-integral feedback term built from cross-product errors
/// between the expected and the measured reference directions.
#[derive(Clone, Copy, Debug, PartialEq, Eq, Hash)]
pub struct Mahony<N> {
    /// Expected sampling period, in seconds.
    sample_period: N,
    /// Proportional filter gain constant.
    kp: N,
    /// Integral filter gain constant.
    ki: N,
    /// Integral error vector.
    e_int: Vector3<N>,
    /// Filter state quaternion.
    pub quat: UnitQuaternion<N>,
}

impl<N> Mahony<N> {
    /// Expected sampling period, in seconds.
    pub closed spec fn spec_sample_period(&self) -> N {
        self.sample_period
    }

    /// Proportional filter gain constant.
    pub closed spec fn spec_kp(&self) -> N {
        self.kp
    }

    /// Integral filter gain constant.
    pub closed spec fn spec_ki(&self) -> N {
        self.ki
    }

    /// Integral error vector.
    pub closed spec fn spec_e_int(&self) -> Vector3<N> {
        self.e_int
    }

    /// Filter state quaternion.
    pub closed spec fn spec_quat(&self) -> UnitQuaternion<N> {
        self.quat
    }

    /// Mutable reference to the expected sampling period, in seconds.
    pub fn sample_period_mut(&mut self) -> (r: &mut N)
        ensures
            *r == old(self).spec_sample_period(),
            final(self).spec_sample_period() == *final(r),
            final(self).spec_kp() == old(self).spec_kp(),
            final(self).spec_ki() == old(self).spec_ki(),
            final(self).spec_e_int() == old(self).spec_e_int(),
            final(self).spec_quat() == old(self).spec_quat(),
    {
        &mut self.sample_period
    }

    /// Mutable reference to the proportional filter gain constant.
    pub fn kp_mut(&mut self) -> (r: &mut N)
        ensures
            *r == old(self).spec_kp(),
            final(self).spec_kp() == *final(r),
            final(self).spec_sample_period() == old(self).spec_sample_period(),
            final(self).spec_ki() == old(self).spec_ki(),
            final(self).spec_e_int() == old(self).spec_e_int(),
            final(self).spec_quat() == old(self).spec_quat(),
    {
        &mut self.kp
    }

    /// Mutable reference to the integral filter gain constant.
    pub fn ki_mut(&mut self) -> (r: &mut N)
        ensures
            *r == old(self).spec_ki(),
            final(self).spec_ki() == *final(r),
            final(self).spec_sample_period() == old(self).spec_sample_period(),
            final(self).spec_kp() == old(self).spec_kp(),
            final(self).spec_e_int() == old(self).spec_e_int(),
            final(self).spec_quat() == old(self).spec_quat(),
    {
        &mut self.ki
    }

    /// Mutable reference to the integral error vector.
    pub fn e_int_mut(&mut self) -> (r: &mut Vector3<N>)
        ensures
            *r == old(self).spec_e_int(),
            final(self).spec_e_int() == *final(r),
            final(self).spec_sample_period() == old(self).spec_sample_period(),
            final(self).spec_kp() == old(self).spec_kp(),
            final(self).spec_ki() == old(self).spec_ki(),
            final(self).spec_quat() == old(self).spec_quat(),
    {
        &mut self.e_int
    }

    /// Mutable reference to the filter state quaternion.
    pub fn quat_mut(&mut self) -> (r: &mut UnitQuaternion<N>)
        ensures
            *r == old(self).spec_quat(),
            final(self).spec_quat() == *final(r),
            final(self).spec_sample_period() == old(self).spec_sample_period(),
            final(self).spec_kp() == old(self).spec_kp(),
            final(self).spec_ki() == old(self).spec_ki(),
            final(self).spec_e_int() == old(self).spec_e_int(),
    {
        &mut self.quat
    }
}

impl<N: Copy> Mahony<N> {
    /// Expected sampling period, in seconds.
    pub fn sample_period(&self) -> (r: N)
        ensures
            r == self.spec_sample_period(),
    {
        self.sample_period
    }

    /// Proportional filter gain constant.
    pub fn kp(&self) -> (r: N)
        ensures
            r == self.spec_kp(),
    {
        self.kp
    }

    /// Integral filter gain constant.
    pub fn ki(&self) -> (r: N)
        ensures
            r == self.spec_ki(),
    {
        self.ki
    }

    /// Integral error vector.
    pub fn e_int(&self) -> (r: Vector3<N>)
        ensures
            r == self.spec_e_int(),
    {
        self.e_int
    }

    /// Filter state quaternion.
    pub fn quat(&self) -> (r: UnitQuaternion<N>)
        ensures
            r == self.spec_quat(),
    {
        self.quat
    }
}

impl<N: simba::scalar::RealField + Copy> Mahony<N> {
    /// Creates a new filter with the given parameters and starting
    /// orientation; the integral error starts at zero.
    ///
    /// # Arguments
    ///
    /// * `sample_period` - The expected sensor sampling period in seconds.
    /// * `kp` - Proportional filter gain constant.
    /// * `ki` - Integral filter gain constant.
    /// * `quat` - Existing filter state quaternion.
    pub fn new_with_quat(sample_period: N, kp: N, ki: N, quat: UnitQuaternion<N>) -> (r: Self)
        ensures
            r.spec_sample_period() == sample_period,
            r.spec_kp() == kp,
            r.spec_ki() == ki,
            r.spec_quat() == quat,
    {
        Mahony { sample_period, kp, ki, e_int: Vector3::zeros(), quat }
    }

    /// Creates a new filter with the given parameters and the identity
    /// quaternion as starting orientation.
    ///
    /// # Arguments
    ///
    /// * `sample_period` - The expected sensor sampling period in seconds.
    /// * `kp` - Proportional filter gain constant.
    /// * `ki` - Integral filter gain constant.
    pub fn new(sample_period: N, kp: N, ki: N) -> (r: Self)
        ensures
            r.spec_sample_period() == sample_period,
            r.spec_kp() == kp,
            r.spec_ki() == ki,
    {
        Mahony::new_with_quat(sample_period, kp, ki, UnitQuaternion::identity())
    }

    /// Creates a new filter with the default parameters: a sampling period
    /// of 1/256 s, a proportional gain of 1/2 and an integral gain of zero,
    /// all derived from the scalar's one by exact arithmetic.
    pub fn default() -> Self {
        let zero: N = scalar::zero();
        let one: N = scalar::one();
        let two: N = scalar::add(one, one);
        let four: N = scalar::mul(two, two);
        let sixteen: N = scalar::mul(four, four);
        let c256: N = scalar::mul(sixteen, sixteen);
        Mahony::new(scalar::div(one, c256), scalar::div(one, two), zero)
    }
}

impl<N> Ahrs<N> for Mahony<N> {
    open spec fn orientation(&self) -> UnitQuaternion<N> {
        self.spec_quat()
    }

    open spec fn integral_state(&self) -> Option<Vector3<N>> {
        Some(self.spec_e_int())
    }

    open spec fn same_parameters(pre: &Self, post: &Self) -> bool {
        &&& pre.spec_sample_period() == post.spec_sample_period()
        &&& pre.spec_kp() == post.spec_kp()
        &&& pre.spec_ki() == post.spec_ki()
    }

    fn update(
        &mut self,
        gyroscope: &Vector3<N>,
        accelerometer: &Vector3<N>,
        magnetometer: &Vector3<N>,
    ) -> (r: Result<UnitQuaternion<N>, AhrsError>) where
        N: simba::scalar::RealField + Copy,
    {
        let zero: N = scalar::zero();
        let one: N = scalar::one();
        let two: N = scalar::add(one, one);
        let half: N = scalar::div(one, two);

        // Normalize the accelerometer measurement.
        let accel = match accelerometer.try_normalize(zero) {
            Some(n) => n,
            None => {
                return Err(AhrsError::AccelerometerNormZero);
            },
        };

        // Normalize the magnetometer measurement.
        let mag = match magnetometer.try_normalize(zero) {
            Some(n) => n,
            None => {
                return Err(AhrsError::MagnetometerNormZero);
            },
        };

        let q = *self.quat.as_ref();
        let w = q.w;
        let x = q.x;
        let y = q.y;
        let z = q.z;

        // Reference direction of Earth's magnetic field: rotate the
        // measured field by the current orientation and keep only a
        // horizontal magnitude and the vertical component.
        let h = q.mul(&Quaternion::from_parts(zero, mag).mul(&q.conjugate()));
        let bx = scalar::sqrt(
            scalar::add(scalar::mul(h.x, h.x), scalar::mul(h.y, h.y)),
        );
        let bz = h.z;

        let ww = scalar::mul(w, w);
        let xx = scalar::mul(x, x);
        let yy = scalar::mul(y, y);
        let zz = scalar::mul(z, z);
        let xz_wy = scalar::sub(scalar::mul(x, z), scalar::mul(w, y));
        let wx_yz = scalar::add(scalar::mul(w, x), scalar::mul(y, z));
        let two_bx = scalar::mul(two, bx);
        let two_bz = scalar::mul(two, bz);

        // The gravity direction implied by the current orientation.
        let v = Vector3::new(
            scalar::mul(two, xz_wy),
            scalar::mul(two, wx_yz),
            scalar::add(scalar::sub(scalar::sub(ww, xx), yy), zz),
        );

        // The magnetic-field direction implied by the current orientation
        // and the reference field.
        let wv = Vector3::new(
            scalar::add(
                scalar::mul(two_bx, scalar::sub(scalar::sub(half, yy), zz)),
                scalar::mul(two_bz, xz_wy),
            ),
            scalar::add(
                scalar::mul(two_bx, scalar::sub(scalar::mul(x, y), scalar::mul(w, z))),
                scalar::mul(two_bz, wx_yz),
            ),
            scalar::add(
                scalar::mul(two_bx, scalar::add(scalar::mul(w, y), scalar::mul(x, z))),
                scalar::mul(two_bz, scalar::sub(scalar::sub(half, xx), yy)),
            ),
        );

        // The attitude error: one cross-product estimate per reference
        // direction.
        let e = accel.cross(&v).add(&mag.cross(&wv));

        // Accumulate the integral error while the integral gain is enabled;
        // reset it while it is disabled.
        if scalar::gt(&self.ki, &zero) {
            self.e_int = self.e_int.add(&e.scale(self.sample_period));
        } else {
            self.e_int = Vector3::zeros();
        }

        // Apply the feedback terms.
        let gyro = gyroscope.add(&e.scale(self.kp)).add(&self.e_int.scale(self.ki));

        // Rate of change of the quaternion.
        let q_dot = q.mul(&Quaternion::from_parts(zero, gyro)).scale(half);

        // Integrate to yield the new orientation.
        self.quat = UnitQuaternion::from_quaternion(q.add(&q_dot.scale(self.sample_period)));

        Ok(self.quat)
    }

    fn update_imu(
        &mut self,
        gyroscope: &Vector3<N>,
        accelerometer: &Vector3<N>,
    ) -> (r: Result<UnitQuaternion<N>, AhrsError>) where
        N: simba::scalar::RealField + Copy,
    {
        let zero: N = scalar::zero();
        let one: N = scalar::one();
        let two: N = scalar::add(one, one);
        let half: N = scalar::div(one, two);

        // Normalize the accelerometer measurement.
        let accel = match accelerometer.try_normalize(zero) {
            Some(n) => n,
            None => {
                return Err(AhrsError::AccelerometerNormZero);
            },
        };

        let q = *self.quat.as_ref();
        let w = q.w;
        let x = q.x;
        let y = q.y;
        let z = q.z;

        let ww = scalar::mul(w, w);
        let xx = scalar::mul(x, x);
        let yy = scalar::mul(y, y);
        let zz = scalar::mul(z, z);

        // The gravity direction implied by the current orientation.
        let v = Vector3::new(
            scalar::mul(two, scalar::sub(scalar::mul(x, z), scalar::mul(w, y))),
            scalar::mul(two, scalar::add(scalar::mul(w, x), scalar::mul(y, z))),
            scalar::add(scalar::sub(scalar::sub(ww, xx), yy), zz),
        );

        // The attitude error.
        let e = accel.cross(&v);

        // Accumulate the integral error while the integral gain is enabled;
        // reset it while it is disabled.
        if scalar::gt(&self.ki, &zero) {
            self.e_int = self.e_int.add(&e.scale(self.sample_period));
        } else {
            self.e_int = Vector3::zeros();
        }

        // Apply the feedback terms.
        let gyro = gyroscope.add(&e.scale(self.kp)).add(&self.e_int.scale(self.ki));

        // Rate of change of the quaternion.
        let q_dot = q.mul(&Quaternion::from_parts(zero, gyro)).scale(half);

        // Integrate to yield the new orientation.
        self.quat = UnitQuaternion::from_quaternion(q.add(&q_dot.scale(self.sample_period)));

        Ok(self.quat)
    }

    fn update_gyro(&mut self, gyroscope: &Vector3<N>) -> (r: UnitQuaternion<N>) where
        N: simba::scalar::RealField + Copy,
    {
        let zero: N = scalar::zero();
        let one: N = scalar::one();
        let two: N = scalar::add(one, one);
        let half: N = scalar::div(one, two);

        let q = *self.quat.as_ref();

        // Rate of change of the quaternion, from the gyroscope alone.
        let q_dot = q.mul(&Quaternion::from_parts(zero, *gyroscope)).scale(half);

        // Integrate to yield the new orientation.
        self.quat = UnitQuaternion::from_quaternion(q.add(&q_dot.scale(self.sample_period)));

        self.quat
    }
}

} // verus!
