//! The gradient-descent orientation filter.

use vstd::prelude::*;

use crate::ahrs::Ahrs;
use crate::ahrs::AhrsError;
use crate::quaternion::Quaternion;
use crate::quaternion::UnitQuaternion;
use crate::scalar;
use crate::vector::Vector3;

verus! {

/// A gradient-descent AHRS filter.
///
/// It integrates the gyroscope and corrects the result by one steepest-
/// descent step against an alignment-error function built from the measured
/// gravity (and, with a magnetometer, magnetic field) directions.
#[derive(Clone, Copy, Debug, PartialEq, Eq, Hash)]
pub struct Madgwick<N> {
    /// Expected sampling period, in seconds.
    sample_period: N,
    /// Filter gain.
    beta: N,
    /// Normalization stabilizer.
    delta: N,
    /// Filter state quaternion.
    pub quat: UnitQuaternion<N>,
}

impl<N> Madgwick<N> {
    /// Expected sampling period, in seconds.
    pub closed spec fn spec_sample_period(&self) -> N {
        self.sample_period
    }

    /// Filter gain.
    pub closed spec fn spec_beta(&self) -> N {
        self.beta
    }

    /// Normalization stabilizer.
    pub closed spec fn spec_delta(&self) -> N {
        self.delta
    }

    /// Filter state quaternion.
    pub closed spec fn spec_quat(&self) -> UnitQuaternion<N> {
        self.quat
    }

    /// Creates a new filter with the given parameters and starting
    /// orientation.
    ///
    /// # Arguments
    ///
    /// * `sample_period` - The expected sensor sampling period in seconds.
    /// * `beta` - Filter gain.
    /// * `delta` - Normalization stabilizer.
    /// * `quat` - Existing filter state quaternion.
    pub fn new_with_quat(sample_period: N, beta: N, delta: N, quat: UnitQuaternion<N>) -> (r: Self)
        ensures
            r.spec_sample_period() == sample_period,
            r.spec_beta() == beta,
            r.spec_delta() == delta,
            r.spec_quat() == quat,
    {
        Madgwick { sample_period, beta, delta, quat }
    }

    /// Mutable reference to the expected sampling period, in seconds.
    pub fn sample_period_mut(&mut self) -> (r: &mut N)
        ensures
            *r == old(self).spec_sample_period(),
            final(self).spec_sample_period() == *final(r),
            final(self).spec_beta() == old(self).spec_beta(),
            final(self).spec_delta() == old(self).spec_delta(),
            final(self).spec_quat() == old(self).spec_quat(),
    {
        &mut self.sample_period
    }

    /// Mutable reference to the filter gain.
    pub fn beta_mut(&mut self) -> (r: &mut N)
        ensures
            *r == old(self).spec_beta(),
            final(self).spec_beta() == *final(r),
            final(self).spec_sample_period() == old(self).spec_sample_period(),
            final(self).spec_delta() == old(self).spec_delta(),
            final(self).spec_quat() == old(self).spec_quat(),
    {
        &mut self.beta
    }

    /// Mutable reference to the normalization stabilizer.
    pub fn delta_mut(&mut self) -> (r: &mut N)
        ensures
            *r == old(self).spec_delta(),
            final(self).spec_delta() == *final(r),
            final(self).spec_sample_period() == old(self).spec_sample_period(),
            final(self).spec_beta() == old(self).spec_beta(),
            final(self).spec_quat() == old(self).spec_quat(),
    {
        &mut self.delta
    }

    /// Mutable reference to the filter state quaternion.
    pub fn quat_mut(&mut self) -> (r: &mut UnitQuaternion<N>)
        ensures
            *r == old(self).spec_quat(),
            final(self).spec_quat() == *final(r),
            final(self).spec_sample_period() == old(self).spec_sample_period(),
            final(self).spec_beta() == old(self).spec_beta(),
            final(self).spec_delta() == old(self).spec_delta(),
    {
        &mut self.quat
    }
}

impl<N: Copy> Madgwick<N> {
    /// Expected sampling period, in seconds.
    pub fn sample_period(&self) -> (r: N)
        ensures
            r == self.spec_sample_period(),
    {
        self.sample_period
    }

    /// Filter gain.
    pub fn beta(&self) -> (r: N)
        ensures
            r == self.spec_beta(),
    {
        self.beta
    }

    /// Normalization stabilizer.
    pub fn delta(&self) -> (r: N)
        ensures
            r == self.spec_delta(),
    {
        self.delta
    }

    /// Filter state quaternion.
    pub fn quat(&self) -> (r: UnitQuaternion<N>)
        ensures
            r == self.spec_quat(),
    {
        self.quat
    }
}

impl<N: simba::scalar::RealField + Copy> Madgwick<N> {
    /// Creates a new filter with the given parameters and the identity
    /// quaternion as starting orientation.
    ///
    /// # Arguments
    ///
    /// * `sample_period` - The expected sensor sampling period in seconds.
    /// * `beta` - Filter gain.
    /// * `delta` - Normalization stabilizer.
    pub fn new(sample_period: N, beta: N, delta: N) -> (r: Self)
        ensures
            r.spec_sample_period() == sample_period,
            r.spec_beta() == beta,
            r.spec_delta() == delta,
    {
        Madgwick::new_with_quat(sample_period, beta, delta, UnitQuaternion::identity())
    }

    /// Creates a new filter with the default parameters: a sampling period
    /// of 1/256 s, a gain of 1/10 and a stabilizer of 1/1000000000, all
    /// derived from the scalar's one by exact arithmetic.
    pub fn default() -> Self {
        let one: N = scalar::one();
        let two: N = scalar::add(one, one);
        let four: N = scalar::mul(two, two);
        let sixteen: N = scalar::mul(four, four);
        let c256: N = scalar::mul(sixteen, sixteen);
        let ten: N = scalar::mul(two, scalar::add(four, one));
        let thousand: N = scalar::mul(scalar::mul(ten, ten), ten);
        let billion: N = scalar::mul(scalar::mul(thousand, thousand), thousand);
        Madgwick::new(
            scalar::div(one, c256),
            scalar::div(one, ten),
            scalar::div(one, billion),
        )
    }
}

impl<N> Ahrs<N> for Madgwick<N> {
    open spec fn orientation(&self) -> UnitQuaternion<N> {
        self.spec_quat()
    }

    open spec fn integral_state(&self) -> Option<Vector3<N>> {
        None
    }

    open spec fn same_parameters(pre: &Self, post: &Self) -> bool {
        &&& pre.spec_sample_period() == post.spec_sample_period()
        &&& pre.spec_beta() == post.spec_beta()
        &&& pre.spec_delta() == post.spec_delta()
    }

    fn update(
        &mut self,
        gyroscope: &Vector3<N>,
        accelerometer: &Vector3<N>,
        magnetometer: &Vector3<N>,
    ) -> (r: Result<UnitQuaternion<N>, AhrsError>) where
        N: simba::scalar::RealField + Copy,
    {
        let zero: N = scalar::zero();
        let one: N = scalar::one();
        let two: N = scalar::add(one, one);
        let four: N = scalar::add(two, two);
        let half: N = scalar::div(one, two);

        // Normalize the accelerometer measurement.
        let accel = match accelerometer.try_normalize(zero) {
            Some(n) => n,
            None => {
                return Err(AhrsError::AccelerometerNormZero);
            },
        };

        // Normalize the magnetometer measurement.
        let mag = match magnetometer.try_normalize(zero) {
            Some(n) => n,
            None => {
                return Err(AhrsError::MagnetometerNormZero);
            },
        };

        let q = *self.quat.as_ref();
        let w = q.w;
        let x = q.x;
        let y = q.y;
        let z = q.z;

        // Reference direction of Earth's magnetic field: rotate the measured
        // field by the current orientation and keep only a horizontal
        // magnitude and the vertical component.
        let h = q.mul(&Quaternion::from_parts(zero, mag).mul(&q.conjugate()));
        let bx = scalar::sqrt(
            scalar::add(scalar::mul(h.x, h.x), scalar::mul(h.y, h.y)),
        );
        let bz = h.z;

        let xx = scalar::mul(x, x);
        let yy = scalar::mul(y, y);
        let zz = scalar::mul(z, z);
        // x*z - w*y, w*x + y*z and (half - x^2) - y^2 appear in both the
        // gravity and the field residuals.
        let xz_wy = scalar::sub(scalar::mul(x, z), scalar::mul(w, y));
        let wx_yz = scalar::add(scalar::mul(w, x), scalar::mul(y, z));
        let half_xx_yy = scalar::sub(scalar::sub(half, xx), yy);
        let two_bx = scalar::mul(two, bx);
        let two_bz = scalar::mul(two, bz);
        let four_bx = scalar::mul(four, bx);
        let four_bz = scalar::mul(four, bz);

        // The six-component residual: gravity misalignment, then field
        // misalignment.
        let f0 = scalar::sub(scalar::mul(two, xz_wy), accel.x);
        let f1 = scalar::sub(scalar::mul(two, wx_yz), accel.y);
        let f2 = scalar::sub(scalar::mul(two, half_xx_yy), accel.z);
        let f3 = scalar::sub(
            scalar::add(
                scalar::mul(two_bx, scalar::sub(scalar::sub(half, yy), zz)),
                scalar::mul(two_bz, xz_wy),
            ),
            mag.x,
        );
        let f4 = scalar::sub(
            scalar::add(
                scalar::mul(two_bx, scalar::sub(scalar::mul(x, y), scalar::mul(w, z))),
                scalar::mul(two_bz, wx_yz),
            ),
            mag.y,
        );
        let f5 = scalar::sub(
            scalar::add(
                scalar::mul(two_bx, scalar::add(scalar::mul(w, y), scalar::mul(x, z))),
                scalar::mul(two_bz, half_xx_yy),
            ),
            mag.z,
        );

        // The transposed Jacobian of the residual with respect to the four
        // quaternion components, row by row.
        let j00 = scalar::neg(scalar::mul(two, y));
        let j01 = scalar::mul(two, x);
        let j02 = zero;
        let j03 = scalar::neg(scalar::mul(two_bz, y));
        let j04 = scalar::add(scalar::neg(scalar::mul(two_bx, z)), scalar::mul(two_bz, x));
        let j05 = scalar::mul(two_bx, y);

        let j10 = scalar::mul(two, z);
        let j11 = scalar::mul(two, w);
        let j12 = scalar::neg(scalar::mul(four, x));
        let j13 = scalar::mul(two_bz, z);
        let j14 = scalar::add(scalar::mul(two_bx, y), scalar::mul(two_bz, w));
        let j15 = scalar::sub(scalar::mul(two_bx, z), scalar::mul(four_bz, x));

        let j20 = scalar::neg(scalar::mul(two, w));
        let j21 = scalar::mul(two, z);
        let j22 = scalar::neg(scalar::mul(four, y));
        let j23 = scalar::sub(scalar::neg(scalar::mul(four_bx, y)), scalar::mul(two_bz, w));
        let j24 = scalar::add(scalar::mul(two_bx, x), scalar::mul(two_bz, z));
        let j25 = scalar::sub(scalar::mul(two_bx, w), scalar::mul(four_bz, y));

        let j30 = scalar::mul(two, x);
        let j31 = scalar::mul(two, y);
        let j32 = zero;
        let j33 = scalar::add(scalar::neg(scalar::mul(four_bx, z)), scalar::mul(two_bz, x));
        let j34 = scalar::add(scalar::neg(scalar::mul(two_bx, w)), scalar::mul(two_bz, y));
        let j35 = scalar::mul(two_bx, x);

        // The uncorrected gradient step `J_t · F`.
        let s0 = scalar::add(
            scalar::add(
                scalar::add(
                    scalar::add(
                        scalar::add(scalar::mul(j00, f0), scalar::mul(j01, f1)),
                        scalar::mul(j02, f2),
                    ),
                    scalar::mul(j03, f3),
                ),
                scalar::mul(j04, f4),
            ),
            scalar::mul(j05, f5),
        );
        let s1 = scalar::add(
            scalar::add(
                scalar::add(
                    scalar::add(
                        scalar::add(scalar::mul(j10, f0), scalar::mul(j11, f1)),
                        scalar::mul(j12, f2),
                    ),
                    scalar::mul(j13, f3),
                ),
                scalar::mul(j14, f4),
            ),
            scalar::mul(j15, f5),
        );
        let s2 = scalar::add(
            scalar::add(
                scalar::add(
                    scalar::add(
                        scalar::add(scalar::mul(j20, f0), scalar::mul(j21, f1)),
                        scalar::mul(j22, f2),
                    ),
                    scalar::mul(j23, f3),
                ),
                scalar::mul(j24, f4),
            ),
            scalar::mul(j25, f5),
        );
        let s3 = scalar::add(
            scalar::add(
                scalar::add(
                    scalar::add(
                        scalar::add(scalar::mul(j30, f0), scalar::mul(j31, f1)),
                        scalar::mul(j32, f2),
                    ),
                    scalar::mul(j33, f3),
                ),
                scalar::mul(j34, f4),
            ),
            scalar::mul(j35, f5),
        );

        // Normalize the step, stabilized by `delta` against a vanishing
        // gradient.
        let snorm = scalar::sqrt(
            scalar::add(
                scalar::add(
                    scalar::add(scalar::mul(s0, s0), scalar::mul(s1, s1)),
                    scalar::mul(s2, s2),
                ),
                scalar::mul(s3, s3),
            ),
        );
        let denom = scalar::add(snorm, self.delta);
        let step = Quaternion::new(
            scalar::div(s0, denom),
            scalar::div(s1, denom),
            scalar::div(s2, denom),
            scalar::div(s3, denom),
        );

        // Rate of change of the quaternion.
        let q_dot = q
            .mul(&Quaternion::from_parts(zero, *gyroscope))
            .scale(half)
            .sub(&step.scale(self.beta));

        // Integrate to yield the new orientation.
        self.quat = UnitQuaternion::from_quaternion(q.add(&q_dot.scale(self.sample_period)));

        Ok(self.quat)
    }

    fn update_imu(
        &mut self,
        gyroscope: &Vector3<N>,
        accelerometer: &Vector3<N>,
    ) -> (r: Result<UnitQuaternion<N>, AhrsError>) where
        N: simba::scalar::RealField + Copy,
    {
        let zero: N = scalar::zero();
        let one: N = scalar::one();
        let two: N = scalar::add(one, one);
        let four: N = scalar::add(two, two);
        let half: N = scalar::div(one, two);

        // Normalize the accelerometer measurement.
        let accel = match accelerometer.try_normalize(zero) {
            Some(n) => n,
            None => {
                return Err(AhrsError::AccelerometerNormZero);
            },
        };

        let q = *self.quat.as_ref();
        let w = q.w;
        let x = q.x;
        let y = q.y;
        let z = q.z;

        let xx = scalar::mul(x, x);
        let yy = scalar::mul(y, y);

        // The residual: gravity misalignment only, padded with a structural
        // zero to keep the Jacobian shape uniform.
        let f0 = scalar::sub(
            scalar::mul(two, scalar::sub(scalar::mul(x, z), scalar::mul(w, y))),
            accel.x,
        );
        let f1 = scalar::sub(
            scalar::mul(two, scalar::add(scalar::mul(w, x), scalar::mul(y, z))),
            accel.y,
        );
        let f2 = scalar::sub(
            scalar::mul(two, scalar::sub(scalar::sub(half, xx), yy)),
            accel.z,
        );
        let f3 = zero;

        // The transposed Jacobian, row by row; the fourth column is zero.
        let j00 = scalar::neg(scalar::mul(two, y));
        let j01 = scalar::mul(two, x);
        let j02 = zero;
        let j03 = zero;

        let j10 = scalar::mul(two, z);
        let j11 = scalar::mul(two, w);
        let j12 = scalar::neg(scalar::mul(four, x));
        let j13 = zero;

        let j20 = scalar::neg(scalar::mul(two, w));
        let j21 = scalar::mul(two, z);
        let j22 = scalar::neg(scalar::mul(four, y));
        let j23 = zero;

        let j30 = scalar::mul(two, x);
        let j31 = scalar::mul(two, y);
        let j32 = zero;
        let j33 = zero;

        // The uncorrected gradient step `J_t · F`.
        let s0 = scalar::add(
            scalar::add(
                scalar::add(scalar::mul(j00, f0), scalar::mul(j01, f1)),
                scalar::mul(j02, f2),
            ),
            scalar::mul(j03, f3),
        );
        let s1 = scalar::add(
            scalar::add(
                scalar::add(scalar::mul(j10, f0), scalar::mul(j11, f1)),
                scalar::mul(j12, f2),
            ),
            scalar::mul(j13, f3),
        );
        let s2 = scalar::add(
            scalar::add(
                scalar::add(scalar::mul(j20, f0), scalar::mul(j21, f1)),
                scalar::mul(j22, f2),
            ),
            scalar::mul(j23, f3),
        );
        let s3 = scalar::add(
            scalar::add(
                scalar::add(scalar::mul(j30, f0), scalar::mul(j31, f1)),
                scalar::mul(j32, f2),
            ),
            scalar::mul(j33, f3),
        );

        // Normalize the step, stabilized by `delta` against a vanishing
        // gradient; the four squares are paired as the norm of a
        // 4-component vector.
        let snorm = scalar::sqrt(
            scalar::add(
                scalar::add(scalar::mul(s0, s0), scalar::mul(s2, s2)),
                scalar::add(scalar::mul(s1, s1), scalar::mul(s3, s3)),
            ),
        );
        let denom = scalar::add(snorm, self.delta);
        let step = Quaternion::new(
            scalar::div(s0, denom),
            scalar::div(s1, denom),
            scalar::div(s2, denom),
            scalar::div(s3, denom),
        );

        // Rate of change of the quaternion.
        let q_dot = q
            .mul(&Quaternion::from_parts(zero, *gyroscope))
            .scale(half)
            .sub(&step.scale(self.beta));

        // Integrate to yield the new orientation.
        self.quat = UnitQuaternion::from_quaternion(q.add(&q_dot.scale(self.sample_period)));

        Ok(self.quat)
    }

    fn update_gyro(&mut self, gyroscope: &Vector3<N>) -> (r: UnitQuaternion<N>) where
        N: simba::scalar::RealField + Copy,
    {
        let zero: N = scalar::zero();
        let one: N = scalar::one();
        let two: N = scalar::add(one, one);
        let half: N = scalar::div(one, two);

        let q = *self.quat.as_ref();

        // Rate of change of the quaternion, from the gyroscope alone.
        let q_dot = q.mul(&Quaternion::from_parts(zero, *gyroscope)).scale(half);

        // Integrate to yield the new orientation.
        self.quat = UnitQuaternion::from_quaternion(q.add(&q_dot.scale(self.sample_period)));

        self.quat
    }
}

} // verus!
