//! Attitude and heading reference system (AHRS) filters.
//!
//! Two orientation filters — a gradient-descent filter and a
//! proportional-integral complementary filter — share a common capability
//! set (`update`, `update_imu`, `update_gyro`) and common quaternion/vector
//! arithmetic.  Everything is generic over the scalar type `N`; the
//! arithmetic on `N` itself is delegated to the scalar's own operator
//! implementations through a small trusted layer, and everything built on
//! top of it is verified.

mod ahrs;
mod madgwick;
mod mahony;
mod quaternion;
mod scalar;
mod vector;

pub use crate::ahrs::Ahrs;
pub use crate::ahrs::AhrsError;
pub use crate::madgwick::Madgwick;
pub use crate::mahony::Mahony;
pub use crate::quaternion::Quaternion;
pub use crate::quaternion::UnitQuaternion;
pub use crate::vector::Vector3;
