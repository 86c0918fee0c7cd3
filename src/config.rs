//! Sensor configuration values that the core reads.
use crate::payload::{
    is_standard_tag, TAG_IMU10, TAG_IMU3_ACC, TAG_IMU3_GYR, TAG_IMU3_MAG, TAG_IMU6, TAG_IMU9,
    TAG_IMU_QUAT,
};
use vstd::prelude::*;

verus! {

/// Which kinds of reading a payload type carries.
#[derive(Clone, Copy, Debug, Default, PartialEq, Eq, Structural)]
pub struct ImuMetrics {
    /// Accelerometer readings.
    pub acc: bool,
    /// Gyroscope readings.
    pub gyr: bool,
    /// Magnetometer readings.
    pub mag: bool,
    /// Barometer reading.
    pub baro: bool,
    /// Orientation quaternion.
    pub quat: bool,
}

/// The readings that payload type `tag` carries; none for an unknown tag.
pub open spec fn metrics_of(tag: u8) -> ImuMetrics {
    ImuMetrics {
        acc: tag == TAG_IMU3_ACC || tag == TAG_IMU6 || tag == TAG_IMU9 || tag == TAG_IMU10,
        gyr: tag == TAG_IMU3_GYR || tag == TAG_IMU6 || tag == TAG_IMU9 || tag == TAG_IMU10,
        mag: tag == TAG_IMU3_MAG || tag == TAG_IMU9 || tag == TAG_IMU10,
        baro: tag == TAG_IMU10,
        quat: tag == TAG_IMU_QUAT,
    }
}

impl From<u8> for ImuMetrics {
    /// The readings that payload type `payload_type` carries.
    fn from(payload_type: u8) -> (r: ImuMetrics)
        ensures
            r == metrics_of(payload_type),
    {
        let none = ImuMetrics { acc: false, gyr: false, mag: false, baro: false, quat: false };
        if payload_type == TAG_IMU3_ACC {
            ImuMetrics { acc: true, ..none }
        } else if payload_type == TAG_IMU3_GYR {
            ImuMetrics { gyr: true, ..none }
        } else if payload_type == TAG_IMU3_MAG {
            ImuMetrics { mag: true, ..none }
        } else if payload_type == TAG_IMU6 {
            ImuMetrics { acc: true, gyr: true, ..none }
        } else if payload_type == TAG_IMU9 {
            ImuMetrics { acc: true, gyr: true, mag: true, ..none }
        } else if payload_type == TAG_IMU10 {
            ImuMetrics { acc: true, gyr: true, mag: true, baro: true, ..none }
        } else if payload_type == TAG_IMU_QUAT {
            ImuMetrics { quat: true, ..none }
        } else {
            none
        }
    }
}

impl vstd::std_specs::convert::FromSpecImpl<u8> for ImuMetrics {
    open spec fn obeys_from_spec() -> bool {
        true
    }

    open spec fn from_spec(v: u8) -> ImuMetrics {
        metrics_of(v)
    }
}

/// Sensor configuration.
#[derive(Clone, Copy, Debug, PartialEq, Eq, Structural)]
pub struct ImuConfig {
    /// One sample period of the sensor in microseconds; the time step of
    /// the very first frame.
    pub sample_period_us: u32,
    /// Expected payload type tag.
    pub payload_type: u8,
    /// Readings that the payload type carries.
    pub metrics: ImuMetrics,
    /// Sensor device identifier.
    pub device_id: u16,
    /// Expected security mode, as its two flag bits.
    pub protocol_mode: u8,
}

impl ImuConfig {
    /// A configuration for payload type `payload_type`, with its metrics
    /// filled in.
    pub fn new(sample_period_us: u32, payload_type: u8, device_id: u16, protocol_mode: u8) -> (r:
        ImuConfig)
        ensures
            r.sample_period_us == sample_period_us,
            r.payload_type == payload_type,
            r.metrics == metrics_of(payload_type),
            r.device_id == device_id,
            r.protocol_mode == protocol_mode,
    {
        ImuConfig {
            sample_period_us,
            payload_type,
            metrics: ImuMetrics::from(payload_type),
            device_id,
            protocol_mode,
        }
    }

    /// Whether the configured payload type is one of the seven standard ones.
    pub fn is_correct(&self) -> (r: bool)
        ensures
            r == is_standard_tag(self.payload_type),
    {
        self.payload_type <= TAG_IMU_QUAT
    }
}

} // verus!
