//! The IMU's configuration — bus address and measurement ranges, fixed at
//! initialization — and one 9-axis sample plus temperature as the driver
//! hands it back in raw register units.

use vstd::prelude::*;

verus! {

/// Default bus address of the sensor.
pub const IMU_DEFAULT_ADDR: u8 = 0x68;

/// Accelerometer full-scale range.
#[derive(Clone, Copy, PartialEq, Eq, Structural, Debug)]
pub enum AccRange {
    Gs2,
    Gs4,
    Gs8,
    Gs16,
}

/// Gyroscope full-scale range.
#[derive(Clone, Copy, PartialEq, Eq, Structural, Debug)]
pub enum GyrRange {
    Dps250,
    Dps500,
    Dps1000,
    Dps2000,
}

/// Sensor configuration, set once before initialization and immutable
/// afterwards.
#[derive(Clone, Copy, PartialEq, Eq, Structural, Debug)]
pub struct ImuConfig {
    pub address: u8,
    pub acc_range: AccRange,
    pub gyr_range: GyrRange,
}

impl ImuConfig {
    /// The driver's defaults: the default address, narrowest ranges.
    pub fn new() -> (r: ImuConfig)
        ensures
            r.address == IMU_DEFAULT_ADDR,
            r.acc_range == AccRange::Gs2,
            r.gyr_range == GyrRange::Dps250,
    {
        ImuConfig { address: IMU_DEFAULT_ADDR, acc_range: AccRange::Gs2, gyr_range: GyrRange::Dps250 }
    }

    pub fn set_address(self, address: u8) -> (r: ImuConfig)
        ensures
            r.address == address,
            r.acc_range == self.acc_range,
            r.gyr_range == self.gyr_range,
    {
        ImuConfig { address, ..self }
    }

    pub fn acc_range(self, acc_range: AccRange) -> (r: ImuConfig)
        ensures
            r.acc_range == acc_range,
            r.address == self.address,
            r.gyr_range == self.gyr_range,
    {
        ImuConfig { acc_range, ..self }
    }

    pub fn gyr_range(self, gyr_range: GyrRange) -> (r: ImuConfig)
        ensures
            r.gyr_range == gyr_range,
            r.address == self.address,
            r.acc_range == self.acc_range,
    {
        ImuConfig { gyr_range, ..self }
    }
}

/// One snapshot of the nine readings plus temperature, in the sensor's raw
/// signed units. It has no identity beyond the read that produced it.
#[derive(Clone, Copy, PartialEq, Debug)]
pub struct SensorSample {
    pub acc: [i32; 3],
    pub gyr: [i32; 3],
    pub mag: [i32; 3],
    pub temp: i32,
}

} // verus!
