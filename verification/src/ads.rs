//! The state vector of the active drag system, wide and compressed.

use vstd::prelude::*;
use vstd::arithmetic::power2::{lemma2_to64, pow2};
use crate::bits::{apart, field, read_bits, write_bits};
use crate::quantize::{
    decode_timestamp,
    encode_timestamp,
    lemma_round_trip_within_resolution,
    lemma_signed_code_survives_round_trip,
    spec_decode_timestamp,
    spec_encode_timestamp,
    Channel,
    TIMESTAMP_MAX,
};

verus! {

/// Width in bits of the compressed state vector on the wire.
pub const ADS_BITS: usize = 208;

/// Width in bits of its first part: position, velocity and acceleration.
pub const ADS_FIRST_BITS: usize = 128;

/// Width in bits of its second part: altitude, predicted apogee, flap angle
/// and timestamp.
pub const ADS_SECOND_BITS: usize = 80;

/// The state vector as the ground station keeps it: eleven channels of 32
/// bits and a 64-bit timestamp.
///
/// A channel holds a signed fixed-point quantity in the base unit of that
/// channel; a channel that was not measured holds zero.  The timestamp counts
/// ticks of the mission clock.
#[derive(Debug, Clone, Copy, PartialEq, Eq, Structural)]
pub struct AdsUncompressed {
    pub lat: i32,
    pub lon: i32,
    pub alt: i32,
    pub vel_x: i32,
    pub vel_y: i32,
    pub vel_z: i32,
    pub acc_x: i32,
    pub acc_y: i32,
    pub acc_z: i32,
    pub predicted_apogee: i32,
    pub flap_deploy_angle: i32,
    pub timestamp: u64,
}

/// The state vector as it is transmitted: eleven signed 16-bit codes and an
/// unsigned 32-bit timestamp, 208 bits in all.
#[derive(Debug, Clone, Copy, PartialEq, Eq, Structural)]
pub struct AdsCompressed {
    pub lat: i16,
    pub lon: i16,
    pub vel_x: i16,
    pub vel_y: i16,
    pub vel_z: i16,
    pub acc_x: i16,
    pub acc_y: i16,
    pub acc_z: i16,
    pub alt: i16,
    pub predicted_apogee: i16,
    pub flap_deploy_angle: i16,
    pub timestamp: u32,
}

impl AdsCompressed {
    /// The compressed state vector whose every code is zero.
    pub open spec fn zero() -> AdsCompressed {
        AdsCompressed {
            lat: 0,
            lon: 0,
            vel_x: 0,
            vel_y: 0,
            vel_z: 0,
            acc_x: 0,
            acc_y: 0,
            acc_z: 0,
            alt: 0,
            predicted_apogee: 0,
            flap_deploy_angle: 0,
            timestamp: 0,
        }
    }
}

impl Default for AdsCompressed {
    fn default() -> (a: AdsCompressed)
        ensures
            a == AdsCompressed::zero(),
    {
        AdsCompressed {
            lat: 0,
            lon: 0,
            vel_x: 0,
            vel_y: 0,
            vel_z: 0,
            acc_x: 0,
            acc_y: 0,
            acc_z: 0,
            alt: 0,
            predicted_apogee: 0,
            flap_deploy_angle: 0,
            timestamp: 0,
        }
    }
}

impl AdsUncompressed {
    /// The state vector in which nothing was measured: every channel and the
    /// timestamp are zero.
    pub fn new() -> (a: AdsUncompressed)
        ensures
            a == (AdsUncompressed {
                lat: 0,
                lon: 0,
                alt: 0,
                vel_x: 0,
                vel_y: 0,
                vel_z: 0,
                acc_x: 0,
                acc_y: 0,
                acc_z: 0,
                predicted_apogee: 0,
                flap_deploy_angle: 0,
                timestamp: 0,
            }),
    {
        AdsUncompressed {
            lat: 0,
            lon: 0,
            alt: 0,
            vel_x: 0,
            vel_y: 0,
            vel_z: 0,
            acc_x: 0,
            acc_y: 0,
            acc_z: 0,
            predicted_apogee: 0,
            flap_deploy_angle: 0,
            timestamp: 0,
        }
    }
}

/// The 16-bit two's-complement pattern of a signed code, as a number.
pub open spec fn pattern16(code: i16) -> int {
    if code >= 0 {
        code as int
    } else {
        code + 65536
    }
}

/// The signed code that a 16-bit two's-complement pattern stands for.
pub open spec fn signed16(pattern: int) -> i16 {
    if pattern < 32768 {
        pattern as i16
    } else {
        (pattern - 65536) as i16
    }
}

fn to_pattern(code: i16) -> (p: u64)
    ensures
        p == pattern16(code),
        p < pow2(16),
{
    proof {
        lemma2_to64();
    }
    if code >= 0 {
        code as u64
    } else {
        (code as i32 + 65536) as u64
    }
}

fn from_pattern(pattern: u64) -> (code: i16)
    requires
        pattern < pow2(16),
    ensures
        code == signed16(pattern as int),
{
    proof {
        lemma2_to64();
    }
    if pattern < 32768 {
        pattern as i16
    } else {
        (pattern as i32 - 65536) as i16
    }
}

impl AdsCompressed {
    /// The 128 bits of `bytes` from bit `at` on hold the first part of this
    /// state vector: position, velocity and acceleration.
    pub open spec fn first_part_held_at(&self, bytes: Seq<u8>, at: int) -> bool {
        &&& field(bytes, at, 16) == pattern16(self.lat)
        &&& field(bytes, at + 16, 16) == pattern16(self.lon)
        &&& field(bytes, at + 32, 16) == pattern16(self.vel_x)
        &&& field(bytes, at + 48, 16) == pattern16(self.vel_y)
        &&& field(bytes, at + 64, 16) == pattern16(self.vel_z)
        &&& field(bytes, at + 80, 16) == pattern16(self.acc_x)
        &&& field(bytes, at + 96, 16) == pattern16(self.acc_y)
        &&& field(bytes, at + 112, 16) == pattern16(self.acc_z)
    }

    /// The 80 bits of `bytes` from bit `at` on hold the second part of this
    /// state vector: altitude, predicted apogee, flap angle and timestamp.
    pub open spec fn second_part_held_at(&self, bytes: Seq<u8>, at: int) -> bool {
        &&& field(bytes, at, 16) == pattern16(self.alt)
        &&& field(bytes, at + 16, 16) == pattern16(self.predicted_apogee)
        &&& field(bytes, at + 32, 16) == pattern16(self.flap_deploy_angle)
        &&& field(bytes, at + 48, 32) == self.timestamp
    }

    /// The 208 bits of `bytes` from bit `at` on hold this state vector, its
    /// first part and then its second.
    pub open spec fn held_at(&self, bytes: Seq<u8>, at: int) -> bool {
        &&& self.first_part_held_at(bytes, at)
        &&& self.second_part_held_at(bytes, at + ADS_FIRST_BITS)
    }

    /// The state vector that the 208 bits of `bytes` from bit `at` on hold.
    pub open spec fn parse_at(bytes: Seq<u8>, at: int) -> AdsCompressed {
        AdsCompressed {
            lat: signed16(field(bytes, at, 16)),
            lon: signed16(field(bytes, at + 16, 16)),
            vel_x: signed16(field(bytes, at + 32, 16)),
            vel_y: signed16(field(bytes, at + 48, 16)),
            vel_z: signed16(field(bytes, at + 64, 16)),
            acc_x: signed16(field(bytes, at + 80, 16)),
            acc_y: signed16(field(bytes, at + 96, 16)),
            acc_z: signed16(field(bytes, at + 112, 16)),
            alt: signed16(field(bytes, at + 128, 16)),
            predicted_apogee: signed16(field(bytes, at + 144, 16)),
            flap_deploy_angle: signed16(field(bytes, at + 160, 16)),
            timestamp: field(bytes, at + 176, 32) as u32,
        }
    }

    /// Writes the first part of the state vector into the 128 bits of `buf`
    /// from bit `at` on and leaves every other bit as it was.
    fn write_first_part<const N: usize>(&self, buf: &mut [u8; N], at: usize)
        requires
            at + ADS_FIRST_BITS <= 8 * N,
            at + ADS_FIRST_BITS <= usize::MAX,
        ensures
            self.first_part_held_at(final(buf)@, at as int),
            forall|o: int, n: nat|
                apart(o, n, at as int, ADS_FIRST_BITS as nat, 8 * N) ==> #[trigger] field(
                    final(buf)@,
                    o,
                    n,
                ) == field(old(buf)@, o, n),
    {
        write_bits(buf, at, 16, to_pattern(self.lat));
        write_bits(buf, at + 16, 16, to_pattern(self.lon));
        write_bits(buf, at + 32, 16, to_pattern(self.vel_x));
        write_bits(buf, at + 48, 16, to_pattern(self.vel_y));
        write_bits(buf, at + 64, 16, to_pattern(self.vel_z));
        write_bits(buf, at + 80, 16, to_pattern(self.acc_x));
        write_bits(buf, at + 96, 16, to_pattern(self.acc_y));
        write_bits(buf, at + 112, 16, to_pattern(self.acc_z));
    }

    /// Writes the second part of the state vector into the 80 bits of `buf`
    /// from bit `at` on and leaves every other bit as it was.
    fn write_second_part<const N: usize>(&self, buf: &mut [u8; N], at: usize)
        requires
            at + ADS_SECOND_BITS <= 8 * N,
            at + ADS_SECOND_BITS <= usize::MAX,
        ensures
            self.second_part_held_at(final(buf)@, at as int),
            forall|o: int, n: nat|
                apart(o, n, at as int, ADS_SECOND_BITS as nat, 8 * N) ==> #[trigger] field(
                    final(buf)@,
                    o,
                    n,
                ) == field(old(buf)@, o, n),
    {
        proof {
            lemma2_to64();
        }
        write_bits(buf, at, 16, to_pattern(self.alt));
        write_bits(buf, at + 16, 16, to_pattern(self.predicted_apogee));
        write_bits(buf, at + 32, 16, to_pattern(self.flap_deploy_angle));
        write_bits(buf, at + 48, 32, self.timestamp as u64);
    }

    /// Writes the state vector into the 208 bits of `buf` from bit `at` on and
    /// leaves every other bit as it was.
    pub fn write_at<const N: usize>(&self, buf: &mut [u8; N], at: usize)
        requires
            at + ADS_BITS <= 8 * N,
            at + ADS_BITS <= usize::MAX,
        ensures
            self.held_at(final(buf)@, at as int),
            forall|o: int, n: nat|
                apart(o, n, at as int, ADS_BITS as nat, 8 * N) ==> #[trigger] field(
                    final(buf)@,
                    o,
                    n,
                ) == field(old(buf)@, o, n),
    {
        self.write_first_part(buf, at);
        self.write_second_part(buf, at + ADS_FIRST_BITS);
    }

    /// Reads the state vector from the 208 bits of `bytes` from bit `at` on.
    pub fn read_at(bytes: &[u8], at: usize) -> (ads: AdsCompressed)
        requires
            at + ADS_BITS <= 8 * bytes@.len(),
            at + ADS_BITS <= usize::MAX,
        ensures
            ads == AdsCompressed::parse_at(bytes@, at as int),
    {
        proof {
            lemma2_to64();
        }
        AdsCompressed {
            lat: from_pattern(read_bits(bytes, at, 16)),
            lon: from_pattern(read_bits(bytes, at + 16, 16)),
            vel_x: from_pattern(read_bits(bytes, at + 32, 16)),
            vel_y: from_pattern(read_bits(bytes, at + 48, 16)),
            vel_z: from_pattern(read_bits(bytes, at + 64, 16)),
            acc_x: from_pattern(read_bits(bytes, at + 80, 16)),
            acc_y: from_pattern(read_bits(bytes, at + 96, 16)),
            acc_z: from_pattern(read_bits(bytes, at + 112, 16)),
            alt: from_pattern(read_bits(bytes, at + 128, 16)),
            predicted_apogee: from_pattern(read_bits(bytes, at + 144, 16)),
            flap_deploy_angle: from_pattern(read_bits(bytes, at + 160, 16)),
            timestamp: read_bits(bytes, at + 176, 32) as u32,
        }
    }
}

/// Number of bytes of the wide state vector in the ground log.
pub const ADS_WIDE_LEN: usize = 52;

/// The 32-bit two's-complement pattern of a signed quantity, as a number.
pub open spec fn pattern32(quantity: i32) -> int {
    if quantity >= 0 {
        quantity as int
    } else {
        quantity + 0x1_0000_0000
    }
}

/// The signed quantity that a 32-bit two's-complement pattern stands for.
pub open spec fn signed32(pattern: int) -> i32 {
    if pattern < 0x8000_0000 {
        pattern as i32
    } else {
        (pattern - 0x1_0000_0000) as i32
    }
}

/// The number that the four bytes from `at` on hold, least significant byte
/// first.
pub open spec fn le32(bytes: Seq<u8>, at: int) -> int {
    bytes[at] + 0x100 * bytes[at + 1] + 0x1_0000 * bytes[at + 2] + 0x100_0000 * bytes[at + 3]
}

/// The number that the eight bytes from `at` on hold, least significant byte
/// first.
pub open spec fn le64(bytes: Seq<u8>, at: int) -> int {
    le32(bytes, at) + 0x1_0000_0000 * le32(bytes, at + 4)
}

/// Writes `value` into the four bytes from `at` on, least significant byte
/// first.
fn write_le32(buf: &mut [u8; 52], at: usize, value: u32)
    requires
        at + 4 <= 52,
    ensures
        le32(final(buf)@, at as int) == value,
        forall|i: int| 0 <= i < 52 && !(at <= i < at + 4) ==> final(buf)[i] == old(buf)[i],
{
    buf[at] = (value % 0x100) as u8;
    buf[at + 1] = ((value / 0x100) % 0x100) as u8;
    buf[at + 2] = ((value / 0x1_0000) % 0x100) as u8;
    buf[at + 3] = (value / 0x100_0000) as u8;
}

/// Reads the number in the four bytes from `at` on, least significant byte
/// first.
fn read_le32(bytes: &[u8; 52], at: usize) -> (value: u32)
    requires
        at + 4 <= 52,
    ensures
        value == le32(bytes@, at as int),
{
    bytes[at] as u32 + 0x100 * (bytes[at + 1] as u32) + 0x1_0000 * (bytes[at + 2] as u32)
        + 0x100_0000 * (bytes[at + 3] as u32)
}

fn to_pattern32(quantity: i32) -> (p: u32)
    ensures
        p == pattern32(quantity),
{
    if quantity >= 0 {
        quantity as u32
    } else {
        (quantity as i64 + 0x1_0000_0000) as u32
    }
}

fn from_pattern32(pattern: u32) -> (quantity: i32)
    ensures
        quantity == signed32(pattern as int),
{
    if pattern < 0x8000_0000 {
        pattern as i32
    } else {
        (pattern as i64 - 0x1_0000_0000) as i32
    }
}

impl AdsUncompressed {
    /// `bytes` is this state vector in the ground log: the eleven channels in
    /// the order of the fields, four bytes each, then the timestamp in eight
    /// bytes, every number with its least significant byte first.
    pub open spec fn stored_in(&self, bytes: Seq<u8>) -> bool {
        &&& bytes.len() == ADS_WIDE_LEN
        &&& le32(bytes, 0) == pattern32(self.lat)
        &&& le32(bytes, 4) == pattern32(self.lon)
        &&& le32(bytes, 8) == pattern32(self.alt)
        &&& le32(bytes, 12) == pattern32(self.vel_x)
        &&& le32(bytes, 16) == pattern32(self.vel_y)
        &&& le32(bytes, 20) == pattern32(self.vel_z)
        &&& le32(bytes, 24) == pattern32(self.acc_x)
        &&& le32(bytes, 28) == pattern32(self.acc_y)
        &&& le32(bytes, 32) == pattern32(self.acc_z)
        &&& le32(bytes, 36) == pattern32(self.predicted_apogee)
        &&& le32(bytes, 40) == pattern32(self.flap_deploy_angle)
        &&& le64(bytes, 44) == self.timestamp
    }

    /// The state vector that the 52 bytes `bytes` hold.
    pub open spec fn of_bytes(bytes: Seq<u8>) -> AdsUncompressed {
        AdsUncompressed {
            lat: signed32(le32(bytes, 0)),
            lon: signed32(le32(bytes, 4)),
            alt: signed32(le32(bytes, 8)),
            vel_x: signed32(le32(bytes, 12)),
            vel_y: signed32(le32(bytes, 16)),
            vel_z: signed32(le32(bytes, 20)),
            acc_x: signed32(le32(bytes, 24)),
            acc_y: signed32(le32(bytes, 28)),
            acc_z: signed32(le32(bytes, 32)),
            predicted_apogee: signed32(le32(bytes, 36)),
            flap_deploy_angle: signed32(le32(bytes, 40)),
            timestamp: le64(bytes, 44) as u64,
        }
    }

    /// Packs the state vector into the 52 bytes it has in the ground log.
    pub fn into_bytes(self) -> (bytes: [u8; 52])
        ensures
            self.stored_in(bytes@),
    {
        let mut buf: [u8; 52] = [0u8; 52];
        write_le32(&mut buf, 0, to_pattern32(self.lat));
        write_le32(&mut buf, 4, to_pattern32(self.lon));
        write_le32(&mut buf, 8, to_pattern32(self.alt));
        write_le32(&mut buf, 12, to_pattern32(self.vel_x));
        write_le32(&mut buf, 16, to_pattern32(self.vel_y));
        write_le32(&mut buf, 20, to_pattern32(self.vel_z));
        write_le32(&mut buf, 24, to_pattern32(self.acc_x));
        write_le32(&mut buf, 28, to_pattern32(self.acc_y));
        write_le32(&mut buf, 32, to_pattern32(self.acc_z));
        write_le32(&mut buf, 36, to_pattern32(self.predicted_apogee));
        write_le32(&mut buf, 40, to_pattern32(self.flap_deploy_angle));
        write_le32(&mut buf, 44, (self.timestamp % 0x1_0000_0000) as u32);
        write_le32(&mut buf, 48, (self.timestamp / 0x1_0000_0000) as u32);
        buf
    }

    /// Unpacks a state vector from its 52 bytes.  Never fails: every pattern
    /// stands for a state vector.
    pub fn from_bytes(bytes: [u8; 52]) -> (a: AdsUncompressed)
        ensures
            a == AdsUncompressed::of_bytes(bytes@),
    {
        let low = read_le32(&bytes, 44) as u64;
        let high = read_le32(&bytes, 48) as u64;
        AdsUncompressed {
            lat: from_pattern32(read_le32(&bytes, 0)),
            lon: from_pattern32(read_le32(&bytes, 4)),
            alt: from_pattern32(read_le32(&bytes, 8)),
            vel_x: from_pattern32(read_le32(&bytes, 12)),
            vel_y: from_pattern32(read_le32(&bytes, 16)),
            vel_z: from_pattern32(read_le32(&bytes, 20)),
            acc_x: from_pattern32(read_le32(&bytes, 24)),
            acc_y: from_pattern32(read_le32(&bytes, 28)),
            acc_z: from_pattern32(read_le32(&bytes, 32)),
            predicted_apogee: from_pattern32(read_le32(&bytes, 36)),
            flap_deploy_angle: from_pattern32(read_le32(&bytes, 40)),
            timestamp: low + 0x1_0000_0000 * high,
        }
    }
}

/// Unpacking the bytes of a wide state vector gives it back.
pub proof fn lemma_wide_bytes_round_trip(wide: AdsUncompressed, bytes: Seq<u8>)
    requires
        wide.stored_in(bytes),
    ensures
        AdsUncompressed::of_bytes(bytes) == wide,
{
}

/// Any 52 bytes are the bytes of the wide state vector they hold.
pub proof fn lemma_wide_bytes_hold_what_they_store(bytes: Seq<u8>)
    requires
        bytes.len() == ADS_WIDE_LEN,
    ensures
        AdsUncompressed::of_bytes(bytes).stored_in(bytes),
{
}

/// The channels of the state vector: the interval of each of the eleven
/// quantities, and the time that timestamps are counted from.
///
/// The intervals belong to the wire contract: two stations that disagree on
/// one of them read different quantities from the same bits.
#[derive(Debug, Clone, Copy, PartialEq, Eq, Structural)]
pub struct AdsChannels {
    pub lat: Channel,
    pub lon: Channel,
    pub alt: Channel,
    pub vel_x: Channel,
    pub vel_y: Channel,
    pub vel_z: Channel,
    pub acc_x: Channel,
    pub acc_y: Channel,
    pub acc_z: Channel,
    pub predicted_apogee: Channel,
    pub flap_deploy_angle: Channel,
    /// The mission epoch, in ticks of the mission clock.
    pub epoch: u64,
}

/// A well-formed channel whose code has the 16 bits that the compressed state
/// vector gives it.
pub open spec fn sixteen(ch: Channel) -> bool {
    ch.wf() && ch.bits == 16
}

/// The signed 16-bit code of `value` on `ch`.
pub open spec fn narrow16(ch: Channel, value: i32) -> i16 {
    ch.spec_encode_signed(value as int) as i16
}

/// The quantity that the signed 16-bit code `code` stands for on `ch`.
pub open spec fn widen16(ch: Channel, code: i16) -> i32 {
    ch.spec_decode_signed(code as int) as i32
}

fn narrow(ch: &Channel, value: i32) -> (code: i16)
    requires
        sixteen(*ch),
    ensures
        code == narrow16(*ch, value),
        code == ch.spec_encode_signed(value as int),
{
    proof {
        lemma2_to64();
    }
    ch.encode_signed(value) as i16
}

impl AdsChannels {
    /// Every channel is well formed and 16 bits wide.
    pub open spec fn wf(&self) -> bool {
        &&& sixteen(self.lat)
        &&& sixteen(self.lon)
        &&& sixteen(self.alt)
        &&& sixteen(self.vel_x)
        &&& sixteen(self.vel_y)
        &&& sixteen(self.vel_z)
        &&& sixteen(self.acc_x)
        &&& sixteen(self.acc_y)
        &&& sixteen(self.acc_z)
        &&& sixteen(self.predicted_apogee)
        &&& sixteen(self.flap_deploy_angle)
    }

    /// One step of every code is worth at least one base unit, and the
    /// largest timestamp code does not pass the end of the clock.
    pub open spec fn coarse(&self) -> bool {
        &&& self.lat.span() >= 65535
        &&& self.lon.span() >= 65535
        &&& self.alt.span() >= 65535
        &&& self.vel_x.span() >= 65535
        &&& self.vel_y.span() >= 65535
        &&& self.vel_z.span() >= 65535
        &&& self.acc_x.span() >= 65535
        &&& self.acc_y.span() >= 65535
        &&& self.acc_z.span() >= 65535
        &&& self.predicted_apogee.span() >= 65535
        &&& self.flap_deploy_angle.span() >= 65535
        &&& self.epoch + TIMESTAMP_MAX <= u64::MAX
    }

    /// Every quantity of `wide` lies in the interval of its channel, and its
    /// time lies within `2^32 - 1` ticks after the epoch.
    pub open spec fn holds(&self, wide: AdsUncompressed) -> bool {
        &&& self.lat.holds(wide.lat as int)
        &&& self.lon.holds(wide.lon as int)
        &&& self.alt.holds(wide.alt as int)
        &&& self.vel_x.holds(wide.vel_x as int)
        &&& self.vel_y.holds(wide.vel_y as int)
        &&& self.vel_z.holds(wide.vel_z as int)
        &&& self.acc_x.holds(wide.acc_x as int)
        &&& self.acc_y.holds(wide.acc_y as int)
        &&& self.acc_z.holds(wide.acc_z as int)
        &&& self.predicted_apogee.holds(wide.predicted_apogee as int)
        &&& self.flap_deploy_angle.holds(wide.flap_deploy_angle as int)
        &&& self.epoch <= wide.timestamp <= self.epoch + TIMESTAMP_MAX
    }

    /// Every quantity of `b` lies at most one resolution unit of its channel
    /// from that of `a`, and the two have the same time.
    pub open spec fn within_resolution(&self, a: AdsUncompressed, b: AdsUncompressed) -> bool {
        &&& self.lat.within_resolution(a.lat as int, b.lat as int)
        &&& self.lon.within_resolution(a.lon as int, b.lon as int)
        &&& self.alt.within_resolution(a.alt as int, b.alt as int)
        &&& self.vel_x.within_resolution(a.vel_x as int, b.vel_x as int)
        &&& self.vel_y.within_resolution(a.vel_y as int, b.vel_y as int)
        &&& self.vel_z.within_resolution(a.vel_z as int, b.vel_z as int)
        &&& self.acc_x.within_resolution(a.acc_x as int, b.acc_x as int)
        &&& self.acc_y.within_resolution(a.acc_y as int, b.acc_y as int)
        &&& self.acc_z.within_resolution(a.acc_z as int, b.acc_z as int)
        &&& self.predicted_apogee.within_resolution(
            a.predicted_apogee as int,
            b.predicted_apogee as int,
        )
        &&& self.flap_deploy_angle.within_resolution(
            a.flap_deploy_angle as int,
            b.flap_deploy_angle as int,
        )
        &&& a.timestamp == b.timestamp
    }

    /// The compressed form of `wide`: every channel narrowed to its signed
    /// code, the timestamp to its ticks since the epoch.
    pub open spec fn spec_compress(&self, wide: AdsUncompressed) -> AdsCompressed {
        AdsCompressed {
            lat: narrow16(self.lat, wide.lat),
            lon: narrow16(self.lon, wide.lon),
            vel_x: narrow16(self.vel_x, wide.vel_x),
            vel_y: narrow16(self.vel_y, wide.vel_y),
            vel_z: narrow16(self.vel_z, wide.vel_z),
            acc_x: narrow16(self.acc_x, wide.acc_x),
            acc_y: narrow16(self.acc_y, wide.acc_y),
            acc_z: narrow16(self.acc_z, wide.acc_z),
            alt: narrow16(self.alt, wide.alt),
            predicted_apogee: narrow16(self.predicted_apogee, wide.predicted_apogee),
            flap_deploy_angle: narrow16(self.flap_deploy_angle, wide.flap_deploy_angle),
            timestamp: spec_encode_timestamp(wide.timestamp as int, self.epoch as int) as u32,
        }
    }

    /// The wide form of `narrow`: every code widened to the quantity it
    /// stands for.
    pub open spec fn spec_decompress(&self, narrow: AdsCompressed) -> AdsUncompressed {
        AdsUncompressed {
            lat: widen16(self.lat, narrow.lat),
            lon: widen16(self.lon, narrow.lon),
            alt: widen16(self.alt, narrow.alt),
            vel_x: widen16(self.vel_x, narrow.vel_x),
            vel_y: widen16(self.vel_y, narrow.vel_y),
            vel_z: widen16(self.vel_z, narrow.vel_z),
            acc_x: widen16(self.acc_x, narrow.acc_x),
            acc_y: widen16(self.acc_y, narrow.acc_y),
            acc_z: widen16(self.acc_z, narrow.acc_z),
            predicted_apogee: widen16(self.predicted_apogee, narrow.predicted_apogee),
            flap_deploy_angle: widen16(self.flap_deploy_angle, narrow.flap_deploy_angle),
            timestamp: spec_decode_timestamp(narrow.timestamp as int, self.epoch as int) as u64,
        }
    }

    /// Whether every channel is well formed and 16 bits wide.
    pub fn is_valid(&self) -> (ok: bool)
        ensures
            ok == self.wf(),
    {
        self.lat.is_valid() && self.lat.bits == 16 && self.lon.is_valid() && self.lon.bits == 16
            && self.alt.is_valid() && self.alt.bits == 16 && self.vel_x.is_valid()
            && self.vel_x.bits == 16 && self.vel_y.is_valid() && self.vel_y.bits == 16
            && self.vel_z.is_valid() && self.vel_z.bits == 16 && self.acc_x.is_valid()
            && self.acc_x.bits == 16 && self.acc_y.is_valid() && self.acc_y.bits == 16
            && self.acc_z.is_valid() && self.acc_z.bits == 16 && self.predicted_apogee.is_valid()
            && self.predicted_apogee.bits == 16 && self.flap_deploy_angle.is_valid()
            && self.flap_deploy_angle.bits == 16
    }

    /// Builds the compressed state vector from the wide one.  No channel is
    /// left out, and a quantity outside its interval saturates.
    pub fn compress(&self, wide: &AdsUncompressed) -> (narrowed: AdsCompressed)
        requires
            self.wf(),
        ensures
            narrowed == self.spec_compress(*wide),
    {
        AdsCompressed {
            lat: narrow(&self.lat, wide.lat),
            lon: narrow(&self.lon, wide.lon),
            vel_x: narrow(&self.vel_x, wide.vel_x),
            vel_y: narrow(&self.vel_y, wide.vel_y),
            vel_z: narrow(&self.vel_z, wide.vel_z),
            acc_x: narrow(&self.acc_x, wide.acc_x),
            acc_y: narrow(&self.acc_y, wide.acc_y),
            acc_z: narrow(&self.acc_z, wide.acc_z),
            alt: narrow(&self.alt, wide.alt),
            predicted_apogee: narrow(&self.predicted_apogee, wide.predicted_apogee),
            flap_deploy_angle: narrow(&self.flap_deploy_angle, wide.flap_deploy_angle),
            timestamp: encode_timestamp(wide.timestamp, self.epoch),
        }
    }

    /// Rebuilds the wide state vector, at the resolution of the channels,
    /// from the compressed one.
    pub fn decompress(&self, narrow: &AdsCompressed) -> (wide: AdsUncompressed)
        requires
            self.wf(),
        ensures
            wide == self.spec_decompress(*narrow),
    {
        AdsUncompressed {
            lat: self.lat.decode_signed(narrow.lat as i32),
            lon: self.lon.decode_signed(narrow.lon as i32),
            alt: self.alt.decode_signed(narrow.alt as i32),
            vel_x: self.vel_x.decode_signed(narrow.vel_x as i32),
            vel_y: self.vel_y.decode_signed(narrow.vel_y as i32),
            vel_z: self.vel_z.decode_signed(narrow.vel_z as i32),
            acc_x: self.acc_x.decode_signed(narrow.acc_x as i32),
            acc_y: self.acc_y.decode_signed(narrow.acc_y as i32),
            acc_z: self.acc_z.decode_signed(narrow.acc_z as i32),
            predicted_apogee: self.predicted_apogee.decode_signed(narrow.predicted_apogee as i32),
            flap_deploy_angle: self.flap_deploy_angle.decode_signed(
                narrow.flap_deploy_angle as i32,
            ),
            timestamp: decode_timestamp(narrow.timestamp, self.epoch),
        }
    }
}

/// One 16-bit channel gives a quantity of its interval back within one
/// resolution unit.
proof fn lemma_quantity16_survives(ch: Channel, value: i32)
    requires
        sixteen(ch),
        ch.holds(value as int),
    ensures
        ch.within_resolution(value as int, widen16(ch, narrow16(ch, value)) as int),
{
    lemma2_to64();
    ch.lemma_levels();
    ch.lemma_decode_in_range(ch.spec_encode(value as int));
    lemma_round_trip_within_resolution(ch, value as int);
}

/// A state vector whose quantities lie in the intervals of their channels
/// comes back from its compressed form within one resolution unit on every
/// channel, and with its time unchanged.
pub proof fn lemma_decompress_within_resolution(channels: AdsChannels, wide: AdsUncompressed)
    requires
        channels.wf(),
        channels.holds(wide),
    ensures
        channels.within_resolution(wide, channels.spec_decompress(channels.spec_compress(wide))),
{
    lemma_quantity16_survives(channels.lat, wide.lat);
    lemma_quantity16_survives(channels.lon, wide.lon);
    lemma_quantity16_survives(channels.alt, wide.alt);
    lemma_quantity16_survives(channels.vel_x, wide.vel_x);
    lemma_quantity16_survives(channels.vel_y, wide.vel_y);
    lemma_quantity16_survives(channels.vel_z, wide.vel_z);
    lemma_quantity16_survives(channels.acc_x, wide.acc_x);
    lemma_quantity16_survives(channels.acc_y, wide.acc_y);
    lemma_quantity16_survives(channels.acc_z, wide.acc_z);
    lemma_quantity16_survives(channels.predicted_apogee, wide.predicted_apogee);
    lemma_quantity16_survives(channels.flap_deploy_angle, wide.flap_deploy_angle);
}

/// One 16-bit channel keeps the bit pattern of a code through widening and
/// narrowing.
proof fn lemma_code16_survives(ch: Channel, code: i16)
    requires
        sixteen(ch),
        ch.span() >= 65535,
    ensures
        narrow16(ch, widen16(ch, code)) == code,
{
    lemma2_to64();
    ch.lemma_levels();
    ch.lemma_decode_in_range(code + ch.half());
    lemma_signed_code_survives_round_trip(ch, code as int);
}

/// Compressing what was decompressed gives the same compressed state vector
/// back, bit for bit, where no step of a code is finer than one base unit.
pub proof fn lemma_compress_inverts_decompress(channels: AdsChannels, narrow: AdsCompressed)
    requires
        channels.wf(),
        channels.coarse(),
    ensures
        channels.spec_compress(channels.spec_decompress(narrow)) == narrow,
{
    lemma_code16_survives(channels.lat, narrow.lat);
    lemma_code16_survives(channels.lon, narrow.lon);
    lemma_code16_survives(channels.alt, narrow.alt);
    lemma_code16_survives(channels.vel_x, narrow.vel_x);
    lemma_code16_survives(channels.vel_y, narrow.vel_y);
    lemma_code16_survives(channels.vel_z, narrow.vel_z);
    lemma_code16_survives(channels.acc_x, narrow.acc_x);
    lemma_code16_survives(channels.acc_y, narrow.acc_y);
    lemma_code16_survives(channels.acc_z, narrow.acc_z);
    lemma_code16_survives(channels.predicted_apogee, narrow.predicted_apogee);
    lemma_code16_survives(channels.flap_deploy_angle, narrow.flap_deploy_angle);
}

} // verus!
