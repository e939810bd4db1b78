//! The position report: the APRS compressed position report that carries a
//! comment record.
//!
//! | field               | first byte | bytes |
//! |---------------------|------------|-------|
//! | compression_format  | 0          | 1     |
//! | time                | 1          | 7     |
//! | symbol_table        | 8          | 1     |
//! | compressed_lat      | 9          | 4     |
//! | compressed_long     | 13         | 4     |
//! | symbol_code         | 17         | 1     |
//! | compressed_altitude | 18         | 2     |
//! | compression_type    | 20         | 1     |
//! | comment             | 21         | 32    |
//!
//! Latitude, longitude and altitude arrive already encoded and pass through
//! byte for byte.

use vstd::prelude::*;
use vstd::arithmetic::power2::lemma2_to64;
use vstd::slice::slice_subrange;
use crate::ads::{lemma_decompress_within_resolution, AdsChannels, AdsCompressed, AdsUncompressed};
use crate::bits::{bit_at, field, lemma_field_agree_shifted, lemma_field_bound};
use crate::comment::{
    lemma_decode_inverts_encode,
    lemma_encode_inverts_decode,
    Comment,
    DeviceType,
    MessageType,
    COMMENT_LEN,
    RESERVED_AT,
};
use crate::error::{refusal, DecodeLengthError, EnvelopeDecodeError, RangeError, WireField};

verus! {

/// Number of bytes of a position report.
pub const ENVELOPE_LEN: usize = 53;

/// First byte of the comment record inside a position report.
pub const COMMENT_AT: usize = 21;

/// Whether the position is fresh, one bit.
#[derive(Debug, Clone, Copy, PartialEq, Eq, Structural)]
pub enum APRSGPSFix {
    LastKnown,
    Current,
}

/// The NMEA sentence the position was taken from, two bits.
#[derive(Debug, Clone, Copy, PartialEq, Eq, Structural)]
pub enum NMEASource {
    Other,
    GLL,
    GGA,
    RMC,
}

/// What compressed the position, three bits.
#[derive(Debug, Clone, Copy, PartialEq, Eq, Structural)]
pub enum CompressionOrigin {
    Compressed,
    TNCBText,
    Software,
    TBD,
    KPC3,
    Pico,
    OtherTracker,
    Digipeater,
}

impl APRSGPSFix {
    /// The number that stands for this value in its bit.
    pub open spec fn spec_code(self) -> u8 {
        match self {
            APRSGPSFix::LastKnown => 0,
            APRSGPSFix::Current => 1,
        }
    }

    /// The value that `bits` stands for; any number but `1` is read as
    /// `LastKnown`.
    pub open spec fn spec_from_bits(bits: u8) -> APRSGPSFix {
        if bits == 1 {
            APRSGPSFix::Current
        } else {
            APRSGPSFix::LastKnown
        }
    }

    /// The number that stands for this value in its bit.
    #[verifier::when_used_as_spec(spec_code)]
    pub fn code(self) -> (c: u8)
        ensures
            c == self.spec_code(),
            c < 2,
    {
        match self {
            APRSGPSFix::LastKnown => 0,
            APRSGPSFix::Current => 1,
        }
    }

    /// Reads the value from received bits.  Never fails.
    #[verifier::when_used_as_spec(spec_from_bits)]
    pub fn from_bits(bits: u8) -> (f: APRSGPSFix)
        ensures
            f == APRSGPSFix::spec_from_bits(bits),
            bits < 2 ==> f.spec_code() == bits,
            bits >= 2 ==> f == APRSGPSFix::LastKnown,
    {
        match bits {
            1 => APRSGPSFix::Current,
            _ => APRSGPSFix::LastKnown,
        }
    }
}

impl NMEASource {
    /// The number that stands for this source in its two bits.
    pub open spec fn spec_code(self) -> u8 {
        match self {
            NMEASource::Other => 0,
            NMEASource::GLL => 1,
            NMEASource::GGA => 2,
            NMEASource::RMC => 3,
        }
    }

    /// The source that `bits` stands for; a number above `3` is read as
    /// `Other`.
    pub open spec fn spec_from_bits(bits: u8) -> NMEASource {
        if bits == 1 {
            NMEASource::GLL
        } else if bits == 2 {
            NMEASource::GGA
        } else if bits == 3 {
            NMEASource::RMC
        } else {
            NMEASource::Other
        }
    }

    /// The number that stands for this source in its two bits.
    #[verifier::when_used_as_spec(spec_code)]
    pub fn code(self) -> (c: u8)
        ensures
            c == self.spec_code(),
            c < 4,
    {
        match self {
            NMEASource::Other => 0,
            NMEASource::GLL => 1,
            NMEASource::GGA => 2,
            NMEASource::RMC => 3,
        }
    }

    /// Reads the source from received bits.  Never fails.
    #[verifier::when_used_as_spec(spec_from_bits)]
    pub fn from_bits(bits: u8) -> (s: NMEASource)
        ensures
            s == NMEASource::spec_from_bits(bits),
            bits < 4 ==> s.spec_code() == bits,
            bits >= 4 ==> s == NMEASource::Other,
    {
        match bits {
            1 => NMEASource::GLL,
            2 => NMEASource::GGA,
            3 => NMEASource::RMC,
            _ => NMEASource::Other,
        }
    }
}

impl CompressionOrigin {
    /// The number that stands for this origin in its three bits.
    pub open spec fn spec_code(self) -> u8 {
        match self {
            CompressionOrigin::Compressed => 0,
            CompressionOrigin::TNCBText => 1,
            CompressionOrigin::Software => 2,
            CompressionOrigin::TBD => 3,
            CompressionOrigin::KPC3 => 4,
            CompressionOrigin::Pico => 5,
            CompressionOrigin::OtherTracker => 6,
            CompressionOrigin::Digipeater => 7,
        }
    }

    /// The origin that `bits` stands for; a number above `7` is read as
    /// `Compressed`.
    pub open spec fn spec_from_bits(bits: u8) -> CompressionOrigin {
        if bits == 1 {
            CompressionOrigin::TNCBText
        } else if bits == 2 {
            CompressionOrigin::Software
        } else if bits == 3 {
            CompressionOrigin::TBD
        } else if bits == 4 {
            CompressionOrigin::KPC3
        } else if bits == 5 {
            CompressionOrigin::Pico
        } else if bits == 6 {
            CompressionOrigin::OtherTracker
        } else if bits == 7 {
            CompressionOrigin::Digipeater
        } else {
            CompressionOrigin::Compressed
        }
    }

    /// The number that stands for this origin in its three bits.
    #[verifier::when_used_as_spec(spec_code)]
    pub fn code(self) -> (c: u8)
        ensures
            c == self.spec_code(),
            c < 8,
    {
        match self {
            CompressionOrigin::Compressed => 0,
            CompressionOrigin::TNCBText => 1,
            CompressionOrigin::Software => 2,
            CompressionOrigin::TBD => 3,
            CompressionOrigin::KPC3 => 4,
            CompressionOrigin::Pico => 5,
            CompressionOrigin::OtherTracker => 6,
            CompressionOrigin::Digipeater => 7,
        }
    }

    /// Reads the origin from received bits.  Never fails.
    #[verifier::when_used_as_spec(spec_from_bits)]
    pub fn from_bits(bits: u8) -> (o: CompressionOrigin)
        ensures
            o == CompressionOrigin::spec_from_bits(bits),
            bits < 8 ==> o.spec_code() == bits,
            bits >= 8 ==> o == CompressionOrigin::Compressed,
    {
        match bits {
            1 => CompressionOrigin::TNCBText,
            2 => CompressionOrigin::Software,
            3 => CompressionOrigin::TBD,
            4 => CompressionOrigin::KPC3,
            5 => CompressionOrigin::Pico,
            6 => CompressionOrigin::OtherTracker,
            7 => CompressionOrigin::Digipeater,
            _ => CompressionOrigin::Compressed,
        }
    }
}

/// The compression type of a position report, one byte.
///
/// The byte is filled from its least significant end: two unused bits, one
/// bit of `gps_fix`, two bits of `nmea_source`, three bits of
/// `compression_origin`.  The unused bits are written as zero and ignored
/// when read.
#[derive(Debug, Clone, Copy, PartialEq, Eq, Structural)]
pub struct CompressionType {
    pub gps_fix: APRSGPSFix,
    pub nmea_source: NMEASource,
    pub compression_origin: CompressionOrigin,
}

impl CompressionType {
    /// The byte that holds this compression type.
    pub open spec fn spec_byte(&self) -> int {
        4 * self.gps_fix.spec_code() + 8 * self.nmea_source.spec_code() + 32
            * self.compression_origin.spec_code()
    }

    /// The compression type that `byte` holds.
    pub open spec fn spec_of_byte(byte: u8) -> CompressionType {
        CompressionType {
            gps_fix: APRSGPSFix::spec_from_bits(((byte as int / 4) % 2) as u8),
            nmea_source: NMEASource::spec_from_bits(((byte as int / 8) % 4) as u8),
            compression_origin: CompressionOrigin::spec_from_bits((byte as int / 32) as u8),
        }
    }

    /// The compression type whose byte is zero.
    pub fn new() -> (c: CompressionType)
        ensures
            c.spec_byte() == 0,
            c == (CompressionType {
                gps_fix: APRSGPSFix::LastKnown,
                nmea_source: NMEASource::Other,
                compression_origin: CompressionOrigin::Compressed,
            }),
    {
        CompressionType {
            gps_fix: APRSGPSFix::LastKnown,
            nmea_source: NMEASource::Other,
            compression_origin: CompressionOrigin::Compressed,
        }
    }

    /// Packs the compression type into its byte.
    pub fn into_bytes(self) -> (bytes: [u8; 1])
        ensures
            bytes[0] == self.spec_byte(),
    {
        let fix = 4 * self.gps_fix.code();
        let source = 8 * self.nmea_source.code();
        let origin = 32 * self.compression_origin.code();
        [fix + source + origin]
    }

    /// Unpacks a compression type from its byte.  Never fails: every byte
    /// holds one.
    pub fn from_bytes(bytes: [u8; 1]) -> (c: CompressionType)
        ensures
            c == CompressionType::spec_of_byte(bytes[0]),
    {
        let byte = bytes[0];
        CompressionType {
            gps_fix: APRSGPSFix::from_bits((byte / 4) % 2),
            nmea_source: NMEASource::from_bits((byte / 8) % 4),
            compression_origin: CompressionOrigin::from_bits(byte / 32),
        }
    }
}

/// Unpacking the byte of a compression type gives it back.
pub proof fn lemma_compression_type_round_trip(c: CompressionType)
    ensures
        0 <= c.spec_byte() < 256,
        CompressionType::spec_of_byte(c.spec_byte() as u8) == c,
{
}

/// Packing what a byte holds gives the byte back with its two unused bits
/// cleared.
pub proof fn lemma_compression_type_byte(byte: u8)
    ensures
        CompressionType::spec_of_byte(byte).spec_byte() == byte - byte % 4,
{
}

/// An APRS compressed position report with its comment record.
#[derive(Debug, Clone, Copy, PartialEq, Eq)]
pub struct AprsCompressedPositionReport {
    /// The data type identifier that opens the report, `/` or `@`.
    pub compression_format: char,
    /// The time of the fix, in its seven-character form.
    pub time: [u8; 7],
    /// The symbol table identifier.
    pub symbol_table: char,
    /// The latitude, already encoded.
    pub compressed_lat: [u8; 4],
    /// The longitude, already encoded.
    pub compressed_long: [u8; 4],
    /// The symbol code.
    pub symbol_code: char,
    /// Altitude, or course and speed, already encoded.
    pub compressed_altitude: [u8; 2],
    /// The compression type, as the character that holds its byte.
    pub compression_type: char,
    /// The comment record.
    pub comment: Comment,
}

/// The byte of a character that has one.
fn byte_of(c: char, field: WireField) -> (r: Result<u8, RangeError>)
    ensures
        (c as u32) < 256 ==> r == Ok::<u8, RangeError>(c as u8),
        (c as u32) >= 256 ==> r == Err::<u8, RangeError>(
            RangeError { field, value: c as u32, bits: 8 },
        ),
{
    let n: u32 = c as u32;
    if n < 256 {
        Ok(n as u8)
    } else {
        Err(RangeError { field, value: n, bits: 8 })
    }
}

impl AprsCompressedPositionReport {
    /// The first field, in wire order, whose value does not fit its width: a
    /// character beyond one byte, or a relay budget beyond three bits.
    pub open spec fn misfit(&self) -> Option<RangeError> {
        if self.compression_format as u32 >= 256 {
            refusal(WireField::CompressionFormat, self.compression_format as u32, 8)
        } else if self.symbol_table as u32 >= 256 {
            refusal(WireField::SymbolTable, self.symbol_table as u32, 8)
        } else if self.symbol_code as u32 >= 256 {
            refusal(WireField::SymbolCode, self.symbol_code as u32, 8)
        } else if self.compression_type as u32 >= 256 {
            refusal(WireField::CompressionType, self.compression_type as u32, 8)
        } else if !self.comment.fits() {
            refusal(WireField::HopsLeft, self.comment.hops_left as u32, 3)
        } else {
            None
        }
    }

    /// Every field fits the width it has on the wire.
    pub open spec fn fits(&self) -> bool {
        self.misfit() is None
    }

    /// The 21 bytes before the comment record are those of this report.
    pub open spec fn framed_by(&self, bytes: Seq<u8>) -> bool {
        &&& bytes.len() == ENVELOPE_LEN
        &&& bytes[0] == self.compression_format as u32
        &&& bytes.subrange(1, 8) =~= self.time@
        &&& bytes[8] == self.symbol_table as u32
        &&& bytes.subrange(9, 13) =~= self.compressed_lat@
        &&& bytes.subrange(13, 17) =~= self.compressed_long@
        &&& bytes[17] == self.symbol_code as u32
        &&& bytes.subrange(18, 20) =~= self.compressed_altitude@
        &&& bytes[20] == self.compression_type as u32
    }

    /// `bytes` is this report on the wire.
    pub open spec fn laid_out(&self, bytes: Seq<u8>) -> bool {
        &&& self.framed_by(bytes)
        &&& self.comment.laid_out(bytes.subrange(COMMENT_AT as int, ENVELOPE_LEN as int))
    }

    /// This report is what `bytes` holds.
    pub open spec fn read_from(&self, bytes: Seq<u8>) -> bool {
        &&& self.framed_by(bytes)
        &&& self.comment == Comment::parse(bytes.subrange(COMMENT_AT as int, ENVELOPE_LEN as int))
    }

    /// Assembles the report into its 53 bytes, whatever it carries.
    ///
    /// Fails exactly when a field does not fit its width, and then names the
    /// first such field in wire order: a character beyond one byte, or a
    /// relay budget beyond three bits.
    pub fn encode(&self) -> (r: Result<[u8; 53], RangeError>)
        ensures
            self.misfit() is None ==> r is Ok && self.laid_out(r->Ok_0@),
            self.misfit() is Some ==> r == Err::<[u8; 53], RangeError>(self.misfit()->Some_0),
            r is Ok ==> r->Ok_0@.len() == ENVELOPE_LEN,
    {
        let format = match byte_of(self.compression_format, WireField::CompressionFormat) {
            Ok(b) => b,
            Err(e) => {
                return Err(e);
            },
        };
        let table = match byte_of(self.symbol_table, WireField::SymbolTable) {
            Ok(b) => b,
            Err(e) => {
                return Err(e);
            },
        };
        let code = match byte_of(self.symbol_code, WireField::SymbolCode) {
            Ok(b) => b,
            Err(e) => {
                return Err(e);
            },
        };
        let kind = match byte_of(self.compression_type, WireField::CompressionType) {
            Ok(b) => b,
            Err(e) => {
                return Err(e);
            },
        };
        let comment = match self.comment.encode() {
            Ok(bytes) => bytes,
            Err(e) => {
                return Err(e);
            },
        };
        let mut out: [u8; 53] = [0u8; 53];
        out[0] = format;
        out[8] = table;
        out[17] = code;
        out[20] = kind;
        let mut i: usize = 0;
        while i < 7
            invariant
                i <= 7,
                out[0] == format,
                out[8] == table,
                out[17] == code,
                out[20] == kind,
                forall|j: int| 0 <= j < i ==> out[1 + j] == self.time[j],
            decreases 7 - i,
        {
            out[1 + i] = self.time[i];
            i += 1;
        }
        let mut i: usize = 0;
        while i < 4
            invariant
                i <= 4,
                out[0] == format,
                out[8] == table,
                out[17] == code,
                out[20] == kind,
                forall|j: int| 0 <= j < 7 ==> out[1 + j] == self.time[j],
                forall|j: int| 0 <= j < i ==> out[9 + j] == self.compressed_lat[j],
                forall|j: int| 0 <= j < i ==> out[13 + j] == self.compressed_long[j],
            decreases 4 - i,
        {
            out[9 + i] = self.compressed_lat[i];
            out[13 + i] = self.compressed_long[i];
            i += 1;
        }
        out[18] = self.compressed_altitude[0];
        out[19] = self.compressed_altitude[1];
        let mut i: usize = 0;
        while i < COMMENT_LEN
            invariant
                i <= COMMENT_LEN,
                out[0] == format,
                out[8] == table,
                out[17] == code,
                out[20] == kind,
                out[18] == self.compressed_altitude[0],
                out[19] == self.compressed_altitude[1],
                forall|j: int| 0 <= j < 7 ==> out[1 + j] == self.time[j],
                forall|j: int| 0 <= j < 4 ==> out[9 + j] == self.compressed_lat[j],
                forall|j: int| 0 <= j < 4 ==> out[13 + j] == self.compressed_long[j],
                forall|j: int| 0 <= j < i ==> out[COMMENT_AT + j] == comment[j],
            decreases COMMENT_LEN - i,
        {
            out[COMMENT_AT + i] = comment[i];
            i += 1;
        }
        proof {
            assert(out@.subrange(COMMENT_AT as int, ENVELOPE_LEN as int) =~= comment@);
            assert(out@.subrange(1, 8) =~= self.time@);
            assert(out@.subrange(9, 13) =~= self.compressed_lat@);
            assert(out@.subrange(13, 17) =~= self.compressed_long@);
            assert(out@.subrange(18, 20) =~= self.compressed_altitude@);
        }
        Ok(out)
    }

    /// Takes a received report apart.
    ///
    /// Fails exactly when `bytes` is not 53 bytes long; nothing is recovered
    /// from a report of another size.  Of 53 bytes every pattern is read.
    pub fn decode(bytes: &[u8]) -> (r: Result<AprsCompressedPositionReport, EnvelopeDecodeError>)
        ensures
            bytes@.len() == ENVELOPE_LEN ==> r is Ok && r->Ok_0.read_from(bytes@),
            bytes@.len() != ENVELOPE_LEN ==> r == Err::<
                AprsCompressedPositionReport,
                EnvelopeDecodeError,
            >(
                EnvelopeDecodeError::Length(
                    DecodeLengthError { expected: ENVELOPE_LEN, actual: bytes@.len() as usize },
                ),
            ),
    {
        if bytes.len() != ENVELOPE_LEN {
            return Err(
                EnvelopeDecodeError::Length(
                    DecodeLengthError { expected: ENVELOPE_LEN, actual: bytes.len() },
                ),
            );
        }
        let comment = Comment::unpack(slice_subrange(bytes, COMMENT_AT, ENVELOPE_LEN));
        let report = AprsCompressedPositionReport {
            compression_format: bytes[0] as char,
            time: [bytes[1], bytes[2], bytes[3], bytes[4], bytes[5], bytes[6], bytes[7]],
            symbol_table: bytes[8] as char,
            compressed_lat: [bytes[9], bytes[10], bytes[11], bytes[12]],
            compressed_long: [bytes[13], bytes[14], bytes[15], bytes[16]],
            symbol_code: bytes[17] as char,
            compressed_altitude: [bytes[18], bytes[19]],
            compression_type: bytes[20] as char,
            comment,
        };
        Ok(report)
    }

    /// This report with the state vector `ads` in its comment record.
    pub open spec fn carrying(self, ads: AdsCompressed) -> AprsCompressedPositionReport {
        AprsCompressedPositionReport { comment: Comment { ads, ..self.comment }, ..self }
    }

    /// The report that carries the state vector `wide`, compressed on
    /// `channels`.  Every channel is carried, measured or not.
    pub fn with_telemetry(&self, channels: &AdsChannels, wide: &AdsUncompressed) -> (r:
        AprsCompressedPositionReport)
        requires
            channels.wf(),
        ensures
            r == self.carrying(channels.spec_compress(*wide)),
            r.fits() == self.fits(),
    {
        let mut r = *self;
        r.comment.ads = channels.compress(wide);
        r
    }

    /// The state vector that the report carries, widened on `channels`.
    pub fn telemetry(&self, channels: &AdsChannels) -> (wide: AdsUncompressed)
        requires
            channels.wf(),
        ensures
            wide == channels.spec_decompress(self.comment.ads),
    {
        channels.decompress(&self.comment.ads)
    }

    /// The report with the compression type `compression` as its compression
    /// type character; every other field stays.
    pub fn with_compression(&self, compression: CompressionType) -> (r:
        AprsCompressedPositionReport)
        ensures
            r.compression_type as u32 == compression.spec_byte(),
            r == (AprsCompressedPositionReport { compression_type: r.compression_type, ..*self }),
            CompressionType::spec_of_byte(r.compression_type as u8) == compression,
    {
        proof {
            lemma_compression_type_round_trip(compression);
        }
        let mut r = *self;
        r.compression_type = compression.into_bytes()[0] as char;
        r
    }

    /// The compression type that the report carries, if its character holds
    /// a byte.
    pub fn compression(&self) -> (r: Option<CompressionType>)
        ensures
            r == (if (self.compression_type as u32) < 256 {
                Some(CompressionType::spec_of_byte(self.compression_type as u8))
            } else {
                None::<CompressionType>
            }),
    {
        let n: u32 = self.compression_type as u32;
        if n < 256 {
            Some(CompressionType::from_bytes([n as u8]))
        } else {
            None
        }
    }
}

impl Default for AprsCompressedPositionReport {
    /// The report whose every byte is zero but for the comment record, which
    /// is the default one.
    fn default() -> (r: AprsCompressedPositionReport)
        ensures
            r.compression_format as u32 == 0,
            r.symbol_table as u32 == 0,
            r.symbol_code as u32 == 0,
            r.compression_type as u32 == 0,
            r.time@ =~= seq![0u8, 0u8, 0u8, 0u8, 0u8, 0u8, 0u8],
            r.compressed_lat@ =~= seq![0u8, 0u8, 0u8, 0u8],
            r.compressed_long@ =~= seq![0u8, 0u8, 0u8, 0u8],
            r.compressed_altitude@ =~= seq![0u8, 0u8],
            r.comment == (Comment {
                uid: 0,
                destination_uid: 0,
                msg_id: 0,
                hops_left: 0,
                comment_type: DeviceType::Ground,
                msg_type: MessageType::Data,
                team_number: 0,
                ads: AdsCompressed::zero(),
            }),
            r.fits(),
    {
        AprsCompressedPositionReport {
            compression_format: 0u8 as char,
            time: [0, 0, 0, 0, 0, 0, 0],
            symbol_table: 0u8 as char,
            compressed_lat: [0, 0, 0, 0],
            compressed_long: [0, 0, 0, 0],
            symbol_code: 0u8 as char,
            compressed_altitude: [0, 0],
            compression_type: 0u8 as char,
            comment: Comment::default(),
        }
    }
}

/// Taking apart what was assembled gives the report back, field for field.
pub proof fn lemma_report_round_trip(
    sent: AprsCompressedPositionReport,
    bytes: Seq<u8>,
    received: AprsCompressedPositionReport,
)
    requires
        sent.fits(),
        sent.laid_out(bytes),
        received.read_from(bytes),
    ensures
        received == sent,
{
    let tail = bytes.subrange(COMMENT_AT as int, ENVELOPE_LEN as int);
    lemma_decode_inverts_encode(sent.comment, tail);
    assert(received.time =~= sent.time);
    assert(received.compressed_lat =~= sent.compressed_lat);
    assert(received.compressed_long =~= sent.compressed_long);
    assert(received.compressed_altitude =~= sent.compressed_altitude);
    assert(received.compression_format as u32 == sent.compression_format as u32);
}

/// From the sensors to the ground: a state vector whose quantities lie in
/// the intervals of their channels, sent in a report that fits, arrives with
/// the report unchanged, with every quantity at most one resolution unit of
/// its channel away, and with its time unchanged.
pub proof fn lemma_telemetry_arrives(
    channels: AdsChannels,
    frame: AprsCompressedPositionReport,
    wide: AdsUncompressed,
    bytes: Seq<u8>,
    received: AprsCompressedPositionReport,
)
    requires
        channels.wf(),
        channels.holds(wide),
        frame.fits(),
        frame.carrying(channels.spec_compress(wide)).laid_out(bytes),
        received.read_from(bytes),
    ensures
        received == frame.carrying(channels.spec_compress(wide)),
        channels.within_resolution(wide, channels.spec_decompress(received.comment.ads)),
{
    lemma_report_round_trip(frame.carrying(channels.spec_compress(wide)), bytes, received);
    lemma_decompress_within_resolution(channels, wide);
}

/// What was taken apart can be assembled again: every field of a received
/// report fits its width, and where the reserved bits of its comment record
/// were zero the received bytes are its wire form.
pub proof fn lemma_received_report_fits(bytes: Seq<u8>, received: AprsCompressedPositionReport)
    requires
        received.read_from(bytes),
    ensures
        received.fits(),
        field(bytes, 8 * COMMENT_AT + RESERVED_AT, 9) == 0 ==> received.laid_out(bytes),
{
    let tail = bytes.subrange(COMMENT_AT as int, ENVELOPE_LEN as int);
    lemma_field_bound(tail, 24, 3);
    lemma2_to64();
    assert forall|i: int|
        8 * COMMENT_AT + RESERVED_AT <= i < 8 * ENVELOPE_LEN implies #[trigger] bit_at(bytes, i)
        == bit_at(tail, i - 8 * COMMENT_AT) by {
        assert(tail[(i - 8 * COMMENT_AT) / 8] == bytes[i / 8]);
    }
    lemma_field_agree_shifted(bytes, tail, 8 * COMMENT_AT + RESERVED_AT, RESERVED_AT as int, 9);
    if field(bytes, 8 * COMMENT_AT + RESERVED_AT, 9) == 0 {
        lemma_encode_inverts_decode(tail);
    }
}

} // verus!
