//! The GPS fix: its quality, its position and its time.

use vstd::prelude::*;
use vstd::std_specs::convert::FromSpecImpl;
use crate::navsat::NavSat;

verus! {

/// The quality of a GPS fix.
#[derive(Debug, Clone, Copy, PartialEq, Eq, Structural)]
pub enum GpsFix {
    NoFix,
    DeadReckoningOnly,
    Fix2D,
    Fix3D,
    GPSPlusDeadReckoning,
    TimeOnlyFix,
}

impl GpsFix {
    /// The number that stands for this quality.
    pub open spec fn spec_code(self) -> u8 {
        match self {
            GpsFix::NoFix => 0,
            GpsFix::DeadReckoningOnly => 1,
            GpsFix::Fix2D => 2,
            GpsFix::Fix3D => 3,
            GpsFix::GPSPlusDeadReckoning => 4,
            GpsFix::TimeOnlyFix => 5,
        }
    }

    /// The quality that `code` stands for; a code that stands for none is
    /// read as `NoFix`.
    pub open spec fn spec_from_code(code: u8) -> GpsFix {
        if code == 1 {
            GpsFix::DeadReckoningOnly
        } else if code == 2 {
            GpsFix::Fix2D
        } else if code == 3 {
            GpsFix::Fix3D
        } else if code == 4 {
            GpsFix::GPSPlusDeadReckoning
        } else if code == 5 {
            GpsFix::TimeOnlyFix
        } else {
            GpsFix::NoFix
        }
    }
}

impl Default for GpsFix {
    fn default() -> (fix: GpsFix)
        ensures
            fix == GpsFix::NoFix,
    {
        GpsFix::NoFix
    }
}

impl From<u8> for GpsFix {
    /// Reads a quality from its code.  Never fails: a code that stands for
    /// no quality degrades to `NoFix`.
    fn from(value: u8) -> (fix: GpsFix) {
        match value {
            1 => GpsFix::DeadReckoningOnly,
            2 => GpsFix::Fix2D,
            3 => GpsFix::Fix3D,
            4 => GpsFix::GPSPlusDeadReckoning,
            5 => GpsFix::TimeOnlyFix,
            _ => GpsFix::NoFix,
        }
    }
}

impl FromSpecImpl<u8> for GpsFix {
    open spec fn obeys_from_spec() -> bool {
        true
    }

    open spec fn from_spec(value: u8) -> GpsFix {
        GpsFix::spec_from_code(value)
    }
}

impl From<GpsFix> for u8 {
    /// The code of a quality.
    fn from(value: GpsFix) -> (code: u8) {
        match value {
            GpsFix::NoFix => 0,
            GpsFix::DeadReckoningOnly => 1,
            GpsFix::Fix2D => 2,
            GpsFix::Fix3D => 3,
            GpsFix::GPSPlusDeadReckoning => 4,
            GpsFix::TimeOnlyFix => 5,
        }
    }
}

impl FromSpecImpl<GpsFix> for u8 {
    open spec fn obeys_from_spec() -> bool {
        true
    }

    open spec fn from_spec(value: GpsFix) -> u8 {
        value.spec_code()
    }
}

/// A quality comes back from its code, and a code above `5` is read as
/// `NoFix`.
pub proof fn lemma_fix_code_round_trip(fix: GpsFix, code: u8)
    ensures
        GpsFix::spec_from_code(fix.spec_code()) == fix,
        code <= 5 ==> GpsFix::spec_from_code(code).spec_code() == code,
        code > 5 ==> GpsFix::spec_from_code(code) == GpsFix::NoFix,
{
}

/// The time of a fix, as the receiver gives it.
#[derive(Debug, Clone, Copy, PartialEq, Eq, Structural)]
pub struct UTC {
    /// Time of week, in milliseconds.
    pub itow: u32,
    /// Estimate of the accuracy of the time, in nanoseconds.
    pub time_accuracy_estimate_ns: u32,
    /// Nanoseconds of the second, from `-1e9` to `1e9`.
    pub nanos: i32,
    /// Year, from 1999 to 2099.
    pub year: u16,
    /// Month, from 1 to 12.
    pub month: u8,
    /// Day of the month, from 1 to 31.
    pub day: u8,
    /// Hour of the day, from 0 to 23.
    pub hour: u8,
    /// Minute of the hour, from 0 to 59.
    pub min: u8,
    /// Second of the minute, from 0 to 59.
    pub sec: u8,
    /// Which parts of the time are valid.
    pub valid: u8,
}

impl Default for UTC {
    fn default() -> (t: UTC)
        ensures
            t == (UTC {
                itow: 0,
                time_accuracy_estimate_ns: 0,
                nanos: 0,
                year: 0,
                month: 0,
                day: 0,
                hour: 0,
                min: 0,
                sec: 0,
                valid: 0,
            }),
    {
        UTC {
            itow: 0,
            time_accuracy_estimate_ns: 0,
            nanos: 0,
            year: 0,
            month: 0,
            day: 0,
            hour: 0,
            min: 0,
            sec: 0,
            valid: 0,
        }
    }
}

/// One reading of the GPS receiver.
///
/// The position is kept as the receiver gave it: each of the four quantities
/// is the bit pattern of an IEEE 754 double, which the library stores and
/// hands on without reading it.
#[derive(Debug, Clone, Copy, PartialEq, Eq)]
pub struct GPS {
    /// Latitude in degrees, as the bits of a double.
    pub latitude: u64,
    /// Longitude in degrees, as the bits of a double.
    pub longitude: u64,
    /// Height above the ellipsoid in metres, as the bits of a double.
    pub altitude: u64,
    /// Height above mean sea level in metres, as the bits of a double.
    pub altitude_msl: u64,
    /// Number of satellites used in the fix.
    pub num_sats: u8,
    pub fix_type: GpsFix,
    pub utc_time: UTC,
    pub sats_data: NavSat,
}

/// A position alone, for display on the ground; it is never transmitted.
///
/// Each quantity is the bit pattern of an IEEE 754 double, as in [`GPS`].
#[derive(Debug, Clone, Copy, PartialEq, Eq, Structural)]
pub struct MiniData {
    /// Latitude in degrees, as the bits of a double.
    pub lat: u64,
    /// Longitude in degrees, as the bits of a double.
    pub lon: u64,
    /// Height above the ellipsoid in metres, as the bits of a double.
    pub alt: u64,
}

impl Default for MiniData {
    /// The position whose three quantities are zero.
    fn default() -> (p: MiniData)
        ensures
            p == (MiniData { lat: 0, lon: 0, alt: 0 }),
    {
        MiniData { lat: 0, lon: 0, alt: 0 }
    }
}

impl GPS {
    /// The position of the reading, without its time and its satellites.
    pub fn position(&self) -> (p: MiniData)
        ensures
            p == (MiniData { lat: self.latitude, lon: self.longitude, alt: self.altitude }),
    {
        MiniData { lat: self.latitude, lon: self.longitude, alt: self.altitude }
    }
}

} // verus!
