//! The sensor snapshot: the latest reading of each sensor on board.
//!
//! Each of the six channels holds its latest reading or nothing; nothing
//! means that no sample came yet, not that the sample was zero.  A new
//! reading replaces the one before it on the same channel and touches no
//! other channel.  No history is kept.
//!
//! An update takes the snapshot by exclusive reference and a read takes it
//! by shared reference, so a snapshot that several contexts share sits behind
//! a lock of their choosing, held for one update or one read.
//!
//! A quantity that a sensor gives as a floating-point number is kept as its
//! IEEE 754 bit pattern: the library stores and hands on such a quantity
//! without reading it.

use vstd::prelude::*;
use crate::gps::GPS;

verus! {

/// One reading of an ISM330DHCX, an accelerometer and gyroscope.
#[derive(Debug, Clone, Copy, PartialEq, Eq, Structural)]
pub struct ISM330DHCX {
    /// Temperature, as the bits of a single.
    pub temp: u32,
    /// Acceleration along each axis, as the bits of a double.
    pub accel_x: u64,
    pub accel_y: u64,
    pub accel_z: u64,
    /// Rate of turn about each axis, as the bits of a double.
    pub gyro_x: u64,
    pub gyro_y: u64,
    pub gyro_z: u64,
}

/// One reading of an LSM6DSO32, an accelerometer and gyroscope.
#[derive(Debug, Clone, Copy, PartialEq, Eq, Structural)]
pub struct LSM6DSO32 {
    /// Acceleration along each axis, as the bits of a double.
    pub accel_x: u64,
    pub accel_y: u64,
    pub accel_z: u64,
    /// Rate of turn about each axis, as the bits of a double.
    pub gyro_x: u64,
    pub gyro_y: u64,
    pub gyro_z: u64,
}

/// One reading of a BMP390, a barometer.
#[derive(Debug, Clone, Copy, PartialEq, Eq, Structural)]
pub struct BMP390 {
    /// Pressure, as the bits of a single.
    pub pressure: u32,
    /// Temperature, as the bits of a single.
    pub temperature: u32,
    /// Altitude, as the bits of a single.
    pub altitude: u32,
}

/// One reading of an ADXL375, a high-g accelerometer.
#[derive(Debug, Clone, Copy, PartialEq, Eq, Structural)]
pub struct ADXL375 {
    pub accel_x: i16,
    pub accel_y: i16,
    pub accel_z: i16,
}

/// The latest reading of every sensor, each present or absent on its own.
///
/// The two ISM330DHCX units are told apart by their channel, not by what
/// they read.
#[derive(Debug, Clone, Copy, PartialEq, Eq)]
pub struct AllSensorData {
    pub ism330dhcx: Option<ISM330DHCX>,
    pub lsm6dso32: Option<LSM6DSO32>,
    pub bmp390: Option<BMP390>,
    pub gps: Option<GPS>,
    pub adxl375: Option<ADXL375>,
    pub ism330dhcx2: Option<ISM330DHCX>,
}

/// A new reading on one channel.
#[derive(Debug, Clone, Copy, PartialEq, Eq)]
pub enum SensorUpdate {
    ISM330DHCX(ISM330DHCX),
    LSM6DSO32(LSM6DSO32),
    BMP390(BMP390),
    GPS(GPS),
    ADXL375(ADXL375),
    ISM330DHCX2(ISM330DHCX),
}

impl SensorUpdate {
    /// The number of the channel that the reading belongs to, from `0` to
    /// `5` in the order of the fields of the snapshot.
    pub open spec fn spec_channel(&self) -> int {
        match self {
            SensorUpdate::ISM330DHCX(_) => 0,
            SensorUpdate::LSM6DSO32(_) => 1,
            SensorUpdate::BMP390(_) => 2,
            SensorUpdate::GPS(_) => 3,
            SensorUpdate::ADXL375(_) => 4,
            SensorUpdate::ISM330DHCX2(_) => 5,
        }
    }
}

impl AllSensorData {
    /// The snapshot after `update`: its channel holds the new reading and
    /// every other channel what it held.
    pub open spec fn updated(self, update: SensorUpdate) -> AllSensorData {
        match update {
            SensorUpdate::ISM330DHCX(r) => AllSensorData { ism330dhcx: Some(r), ..self },
            SensorUpdate::LSM6DSO32(r) => AllSensorData { lsm6dso32: Some(r), ..self },
            SensorUpdate::BMP390(r) => AllSensorData { bmp390: Some(r), ..self },
            SensorUpdate::GPS(r) => AllSensorData { gps: Some(r), ..self },
            SensorUpdate::ADXL375(r) => AllSensorData { adxl375: Some(r), ..self },
            SensorUpdate::ISM330DHCX2(r) => AllSensorData { ism330dhcx2: Some(r), ..self },
        }
    }

    /// The latest reading on the channel numbered `channel`, as the update
    /// that brought it.
    pub open spec fn spec_latest(self, channel: int) -> Option<SensorUpdate> {
        if channel == 0 {
            match self.ism330dhcx {
                Some(r) => Some(SensorUpdate::ISM330DHCX(r)),
                None => None,
            }
        } else if channel == 1 {
            match self.lsm6dso32 {
                Some(r) => Some(SensorUpdate::LSM6DSO32(r)),
                None => None,
            }
        } else if channel == 2 {
            match self.bmp390 {
                Some(r) => Some(SensorUpdate::BMP390(r)),
                None => None,
            }
        } else if channel == 3 {
            match self.gps {
                Some(r) => Some(SensorUpdate::GPS(r)),
                None => None,
            }
        } else if channel == 4 {
            match self.adxl375 {
                Some(r) => Some(SensorUpdate::ADXL375(r)),
                None => None,
            }
        } else if channel == 5 {
            match self.ism330dhcx2 {
                Some(r) => Some(SensorUpdate::ISM330DHCX2(r)),
                None => None,
            }
        } else {
            None
        }
    }

    /// The snapshot in which no sensor has given a reading yet.
    pub fn new() -> (s: AllSensorData)
        ensures
            s.ism330dhcx is None,
            s.lsm6dso32 is None,
            s.bmp390 is None,
            s.gps is None,
            s.adxl375 is None,
            s.ism330dhcx2 is None,
    {
        AllSensorData {
            ism330dhcx: None,
            lsm6dso32: None,
            bmp390: None,
            gps: None,
            adxl375: None,
            ism330dhcx2: None,
        }
    }

    /// Takes a new reading in: the last one written on a channel wins.
    pub fn update(&mut self, update: SensorUpdate)
        ensures
            *final(self) == old(self).updated(update),
    {
        match update {
            SensorUpdate::ISM330DHCX(r) => {
                self.ism330dhcx = Some(r);
            },
            SensorUpdate::LSM6DSO32(r) => {
                self.lsm6dso32 = Some(r);
            },
            SensorUpdate::BMP390(r) => {
                self.bmp390 = Some(r);
            },
            SensorUpdate::GPS(r) => {
                self.gps = Some(r);
            },
            SensorUpdate::ADXL375(r) => {
                self.adxl375 = Some(r);
            },
            SensorUpdate::ISM330DHCX2(r) => {
                self.ism330dhcx2 = Some(r);
            },
        }
    }

    /// The latest reading on the channel numbered `channel`, from `0` to `5`
    /// in the order of the fields, as the update that brought it.
    pub fn latest(&self, channel: u8) -> (r: Option<SensorUpdate>)
        ensures
            r == self.spec_latest(channel as int),
    {
        match channel {
            0 => match self.ism330dhcx {
                Some(r) => Some(SensorUpdate::ISM330DHCX(r)),
                None => None,
            },
            1 => match self.lsm6dso32 {
                Some(r) => Some(SensorUpdate::LSM6DSO32(r)),
                None => None,
            },
            2 => match self.bmp390 {
                Some(r) => Some(SensorUpdate::BMP390(r)),
                None => None,
            },
            3 => match self.gps {
                Some(r) => Some(SensorUpdate::GPS(r)),
                None => None,
            },
            4 => match self.adxl375 {
                Some(r) => Some(SensorUpdate::ADXL375(r)),
                None => None,
            },
            5 => match self.ism330dhcx2 {
                Some(r) => Some(SensorUpdate::ISM330DHCX2(r)),
                None => None,
            },
            _ => None,
        }
    }
}

/// After an update its channel holds the new reading, and every other
/// channel holds what it held.
pub proof fn lemma_update_touches_one_channel(s: AllSensorData, update: SensorUpdate, channel: int)
    ensures
        s.updated(update).spec_latest(update.spec_channel()) == Some(update),
        channel != update.spec_channel() ==> s.updated(update).spec_latest(channel)
            == s.spec_latest(channel),
{
}

/// Last write wins: of two updates on one channel only the second shows.
pub proof fn lemma_last_write_wins(s: AllSensorData, first: SensorUpdate, second: SensorUpdate)
    requires
        first.spec_channel() == second.spec_channel(),
    ensures
        s.updated(first).updated(second) == s.updated(second),
{
}

/// Updates on two channels may come in either order.
pub proof fn lemma_channels_are_independent(s: AllSensorData, a: SensorUpdate, b: SensorUpdate)
    requires
        a.spec_channel() != b.spec_channel(),
    ensures
        s.updated(a).updated(b) == s.updated(b).updated(a),
{
}

} // verus!
