//! Every record of the protocol under one roof.

pub use crate::ads::{AdsChannels, AdsCompressed, AdsUncompressed};
pub use crate::comment::{Acknowledgement, Comment, DeviceType, MessageType, Routing};
pub use crate::envelope::{
    APRSGPSFix, AprsCompressedPositionReport, CompressionOrigin, CompressionType, NMEASource,
};
pub use crate::error::{DecodeLengthError, EnvelopeDecodeError, RangeError, WireField};
pub use crate::gps::{GpsFix, MiniData, GPS, UTC};
pub use crate::navsat::{
    NavSat, NavSatOrbitSource, NavSatQualityIndicator, NavSatSvFlags, NavSatSvHealth, NavSatSvInfo,
};
pub use crate::quantize::Channel;
pub use crate::sensors::{AllSensorData, SensorUpdate, ADXL375, BMP390, ISM330DHCX, LSM6DSO32};
