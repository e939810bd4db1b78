use aprs_telemetry::protocol::{
    APRSGPSFix, AdsChannels, AdsCompressed, AdsUncompressed, AprsCompressedPositionReport, Channel,
    Comment, CompressionOrigin, CompressionType, DecodeLengthError, DeviceType,
    EnvelopeDecodeError, MessageType, NMEASource, RangeError, WireField,
};
use aprs_telemetry::envelope::{COMMENT_AT, ENVELOPE_LEN};

fn report() -> AprsCompressedPositionReport {
    AprsCompressedPositionReport {
        compression_format: '/',
        time: *b"092345z",
        symbol_table: '/',
        compressed_lat: *b"5L!!",
        compressed_long: *b"<*e7",
        symbol_code: '{',
        compressed_altitude: *b"?!",
        compression_type: 'T',
        comment: Comment {
            uid: 1,
            destination_uid: 2,
            msg_id: 3,
            hops_left: 4,
            comment_type: DeviceType::Ground,
            msg_type: MessageType::Data,
            team_number: 5,
            ads: AdsCompressed {
                lat: 100,
                lon: 200,
                vel_x: 300,
                vel_y: 400,
                vel_z: 500,
                acc_x: 600,
                acc_y: 700,
                acc_z: 800,
                alt: 900,
                predicted_apogee: 1000,
                flap_deploy_angle: 1100,
                timestamp: 1200,
            },
        },
    }
}

const COMMENT_BYTES: [u8; 32] = [
    1, 2, 3, 130, 10, 0, 200, 1, 144, 2, 88, 3, 32, 3, 232, 4, 176, 5, 120, 6, 64, 7, 8, 7, 208, 8,
    152, 0, 0, 9, 96, 0,
];

#[test]
fn test_aprs_compressed_position_report() {
    let report = report();

    assert_eq!(report.time, *b"092345z");
    assert_eq!(report.symbol_table, '/');
    assert_eq!(report.compressed_lat, *b"5L!!");
    assert_eq!(report.compressed_long, *b"<*e7");
    assert_eq!(report.symbol_code, '{');
    assert_eq!(report.compressed_altitude, *b"?!");
    assert_eq!(report.compression_type, 'T');
}

#[test]
fn report_has_its_exact_bytes() {
    let bytes = report().encode().unwrap();
    let mut expected = Vec::new();
    expected.extend_from_slice(b"/092345z/5L!!<*e7{?!T");
    expected.extend_from_slice(&COMMENT_BYTES);
    assert_eq!(bytes.to_vec(), expected);
    assert_eq!(&bytes[COMMENT_AT..], &report().comment.encode().unwrap());
}

#[test]
fn report_round_trips() {
    let sent = report();
    let bytes = sent.encode().unwrap();
    let received = AprsCompressedPositionReport::decode(&bytes).unwrap();
    assert_eq!(received, sent);
    assert_eq!(received.comment.ads.timestamp, 1200);
}

#[test]
fn report_length_is_fixed() {
    assert_eq!(ENVELOPE_LEN, 53);
    assert_eq!(report().encode().unwrap().len(), 53);
    assert_eq!(AprsCompressedPositionReport::default().encode().unwrap().len(), 53);
    let mut other = report();
    other.comment.ads = AdsCompressed::default();
    other.comment.msg_type = MessageType::Ack;
    other.comment.hops_left = 0;
    assert_eq!(other.encode().unwrap().len(), 53);
}

#[test]
fn report_passes_encoded_position_through() {
    let mut sent = report();
    sent.compressed_lat = [0, 255, 128, 7];
    sent.compressed_long = [255, 255, 0, 1];
    sent.compressed_altitude = [200, 100];
    sent.time = [1, 2, 3, 4, 5, 6, 7];
    let bytes = sent.encode().unwrap();
    assert_eq!(&bytes[1..8], &[1, 2, 3, 4, 5, 6, 7]);
    assert_eq!(&bytes[9..13], &[0, 255, 128, 7]);
    assert_eq!(&bytes[13..17], &[255, 255, 0, 1]);
    assert_eq!(&bytes[18..20], &[200, 100]);
    assert_eq!(AprsCompressedPositionReport::decode(&bytes).unwrap(), sent);
}

#[test]
fn report_decode_refuses_other_lengths() {
    for len in [0usize, 1, 20, 21, 32, 52, 54, 61, 100] {
        let bytes = vec![b'/'; len];
        assert_eq!(
            AprsCompressedPositionReport::decode(&bytes),
            Err(EnvelopeDecodeError::Length(DecodeLengthError { expected: 53, actual: len }))
        );
    }
}

#[test]
fn report_decode_reads_any_53_bytes() {
    let mut state: u32 = 0xBEEF_0001;
    for _ in 0..100 {
        let mut bytes = [0u8; 53];
        for b in bytes.iter_mut() {
            state = state.wrapping_mul(1_664_525).wrapping_add(1_013_904_223);
            *b = (state >> 24) as u8;
        }
        let report = AprsCompressedPositionReport::decode(&bytes).unwrap();
        assert_eq!(report.compression_format as u32, bytes[0] as u32);
        assert_eq!(report.symbol_table as u32, bytes[8] as u32);
        assert_eq!(report.comment, Comment::decode(&bytes[21..]).unwrap());
        let again = report.encode().unwrap();
        assert_eq!(again[..51], bytes[..51]);
    }
}

#[test]
fn report_encode_refuses_a_character_beyond_one_byte() {
    let mut r = report();
    r.compression_format = '\u{100}';
    assert_eq!(
        r.encode(),
        Err(RangeError { field: WireField::CompressionFormat, value: 0x100, bits: 8 })
    );
    let mut r = report();
    r.symbol_table = '\u{20ac}';
    assert_eq!(
        r.encode(),
        Err(RangeError { field: WireField::SymbolTable, value: 0x20ac, bits: 8 })
    );
    let mut r = report();
    r.symbol_code = '\u{1f680}';
    assert_eq!(
        r.encode(),
        Err(RangeError { field: WireField::SymbolCode, value: 0x1f680, bits: 8 })
    );
    let mut r = report();
    r.compression_type = '\u{3b1}';
    assert_eq!(
        r.encode(),
        Err(RangeError { field: WireField::CompressionType, value: 0x3b1, bits: 8 })
    );
    let mut r = report();
    r.compression_format = '\u{ff}';
    assert_eq!(r.encode().unwrap()[0], 0xff);
}

#[test]
fn report_encode_refuses_wide_hops_left() {
    let mut r = report();
    r.comment.hops_left = 8;
    assert_eq!(r.encode(), Err(RangeError { field: WireField::HopsLeft, value: 8, bits: 3 }));
}

#[test]
fn report_encode_names_the_first_misfit() {
    let mut r = report();
    r.comment.hops_left = 200;
    r.compression_type = '\u{400}';
    r.symbol_code = '\u{300}';
    assert_eq!(
        r.encode(),
        Err(RangeError { field: WireField::SymbolCode, value: 0x300, bits: 8 })
    );
    r.symbol_code = '{';
    assert_eq!(
        r.encode(),
        Err(RangeError { field: WireField::CompressionType, value: 0x400, bits: 8 })
    );
}

#[test]
fn compression_type_fills_its_byte_from_the_low_end() {
    let c = CompressionType {
        gps_fix: APRSGPSFix::Current,
        nmea_source: NMEASource::GGA,
        compression_origin: CompressionOrigin::Software,
    };
    assert_eq!(c.into_bytes(), [0b010_10_1_00]);
    assert_eq!(c.into_bytes(), [b'T']);
    let all = CompressionType {
        gps_fix: APRSGPSFix::Current,
        nmea_source: NMEASource::RMC,
        compression_origin: CompressionOrigin::Digipeater,
    };
    assert_eq!(all.into_bytes(), [0b111_11_1_00]);
    assert_eq!(CompressionType::new().into_bytes(), [0]);
    let fix_only = CompressionType { gps_fix: APRSGPSFix::Current, ..CompressionType::new() };
    assert_eq!(fix_only.into_bytes(), [4]);
    let source_only = CompressionType { nmea_source: NMEASource::GLL, ..CompressionType::new() };
    assert_eq!(source_only.into_bytes(), [8]);
    let origin_only = CompressionType {
        compression_origin: CompressionOrigin::TNCBText,
        ..CompressionType::new()
    };
    assert_eq!(origin_only.into_bytes(), [32]);
}

#[test]
fn compression_type_round_trips_and_ignores_unused_bits() {
    for byte in 0u8..=255 {
        let c = CompressionType::from_bytes([byte]);
        assert_eq!(c.into_bytes(), [byte & 0b1111_1100]);
        assert_eq!(CompressionType::from_bytes(c.into_bytes()), c);
    }
    assert_eq!(
        CompressionType::from_bytes([0b110_01_0_11]),
        CompressionType {
            gps_fix: APRSGPSFix::LastKnown,
            nmea_source: NMEASource::GLL,
            compression_origin: CompressionOrigin::OtherTracker,
        }
    );
}

#[test]
fn report_gives_its_compression_type() {
    assert_eq!(
        report().compression(),
        Some(CompressionType {
            gps_fix: APRSGPSFix::Current,
            nmea_source: NMEASource::GGA,
            compression_origin: CompressionOrigin::Software,
        })
    );
    let mut r = report();
    r.compression_type = '\u{100}';
    assert_eq!(r.compression(), None);
}

#[test]
fn compression_enumerants_fall_back() {
    assert_eq!(APRSGPSFix::from_bits(0), APRSGPSFix::LastKnown);
    assert_eq!(APRSGPSFix::from_bits(1), APRSGPSFix::Current);
    assert_eq!(APRSGPSFix::from_bits(2), APRSGPSFix::LastKnown);
    assert_eq!(APRSGPSFix::from_bits(255), APRSGPSFix::LastKnown);
    assert_eq!(NMEASource::from_bits(3), NMEASource::RMC);
    assert_eq!(NMEASource::from_bits(4), NMEASource::Other);
    assert_eq!(CompressionOrigin::from_bits(4), CompressionOrigin::KPC3);
    assert_eq!(CompressionOrigin::from_bits(5), CompressionOrigin::Pico);
    assert_eq!(CompressionOrigin::from_bits(7), CompressionOrigin::Digipeater);
    assert_eq!(CompressionOrigin::from_bits(8), CompressionOrigin::Compressed);
    for code in 0u8..8 {
        assert_eq!(CompressionOrigin::from_bits(code).code(), code);
    }
    for code in 0u8..4 {
        assert_eq!(NMEASource::from_bits(code).code(), code);
    }
    assert_eq!(APRSGPSFix::Current.code(), 1);
}

#[test]
fn report_default_is_all_zero() {
    let r = AprsCompressedPositionReport::default();
    assert_eq!(r.compression_format, '\0');
    assert_eq!(r.time, [0u8; 7]);
    assert_eq!(r.comment, Comment::default());
    let bytes = r.encode().unwrap();
    let mut expected = [0u8; 53];
    expected[24] = 0b0000_0010;
    assert_eq!(bytes, expected);
}

fn channels() -> AdsChannels {
    let position = Channel::new(-900_000_000, 900_000_000, 16).unwrap();
    let height = Channel::new(-1_000, 64_535, 16).unwrap();
    let velocity = Channel::new(-400_000, 400_000, 16).unwrap();
    let acceleration = Channel::new(-300_000, 300_000, 16).unwrap();
    AdsChannels {
        lat: position,
        lon: Channel::new(-1_800_000_000, 1_800_000_000, 16).unwrap(),
        alt: height,
        vel_x: velocity,
        vel_y: velocity,
        vel_z: velocity,
        acc_x: acceleration,
        acc_y: acceleration,
        acc_z: acceleration,
        predicted_apogee: height,
        flap_deploy_angle: Channel::new(0, 90_000, 16).unwrap(),
        epoch: 1_700_000_000_000,
    }
}

fn close(ch: &Channel, sent: i32, got: i32) -> bool {
    let span = ch.max as i64 - ch.min as i64;
    (sent as i64 - got as i64).abs() * ch.top_code() as i64 <= span
}

#[test]
fn telemetry_arrives_within_resolution() {
    let chs = channels();
    let wide = AdsUncompressed {
        lat: 434_723_000,
        lon: -805_449_000,
        alt: 3_290,
        vel_x: 12_345,
        vel_y: -399_999,
        vel_z: 270_000,
        acc_x: -9_810,
        acc_y: 150_001,
        acc_z: -299_000,
        predicted_apogee: 9_144,
        flap_deploy_angle: 45_000,
        timestamp: 1_700_000_123_456,
    };
    let sent = report().with_telemetry(&chs, &wide);
    assert_eq!(sent.comment.ads, chs.compress(&wide));
    assert_eq!(sent.comment.uid, 1);
    assert_eq!(sent.time, *b"092345z");
    let bytes = sent.encode().unwrap();
    assert_eq!(bytes.len(), 53);
    let received = AprsCompressedPositionReport::decode(&bytes).unwrap();
    assert_eq!(received, sent);
    let got = received.telemetry(&chs);
    assert!(close(&chs.lat, wide.lat, got.lat));
    assert!(close(&chs.lon, wide.lon, got.lon));
    assert!(close(&chs.alt, wide.alt, got.alt));
    assert!(close(&chs.vel_x, wide.vel_x, got.vel_x));
    assert!(close(&chs.vel_y, wide.vel_y, got.vel_y));
    assert!(close(&chs.vel_z, wide.vel_z, got.vel_z));
    assert!(close(&chs.acc_x, wide.acc_x, got.acc_x));
    assert!(close(&chs.acc_y, wide.acc_y, got.acc_y));
    assert!(close(&chs.acc_z, wide.acc_z, got.acc_z));
    assert!(close(&chs.predicted_apogee, wide.predicted_apogee, got.predicted_apogee));
    assert!(close(&chs.flap_deploy_angle, wide.flap_deploy_angle, got.flap_deploy_angle));
    assert_eq!(got.timestamp, wide.timestamp);
    // the height channels are exact: one step is one base unit
    assert_eq!(got.alt, 3_290);
    assert_eq!(got.predicted_apogee, 9_144);
    assert_eq!(got.lat, 434_721_904);
}

#[test]
fn report_length_does_not_depend_on_what_was_measured() {
    let chs = channels();
    let nothing = AdsUncompressed::new();
    let mut only_height = AdsUncompressed::new();
    only_height.alt = 12_000;
    let everything = AdsUncompressed {
        lat: i32::MAX,
        lon: i32::MIN,
        alt: 1,
        vel_x: 2,
        vel_y: 3,
        vel_z: 4,
        acc_x: 5,
        acc_y: 6,
        acc_z: 7,
        predicted_apogee: 8,
        flap_deploy_angle: 9,
        timestamp: u64::MAX,
    };
    for wide in [nothing, only_height, everything] {
        let bytes = report().with_telemetry(&chs, &wide).encode().unwrap();
        assert_eq!(bytes.len(), 53);
        assert_eq!(&bytes[..21], b"/092345z/5L!!<*e7{?!T");
    }
}

#[test]
fn report_takes_a_compression_type() {
    let c = CompressionType {
        gps_fix: APRSGPSFix::LastKnown,
        nmea_source: NMEASource::RMC,
        compression_origin: CompressionOrigin::Pico,
    };
    let r = report().with_compression(c);
    assert_eq!(r.compression_type as u32, 0b101_11_0_00);
    assert_eq!(r.compression(), Some(c));
    assert_eq!(r.time, report().time);
    assert_eq!(r.comment, report().comment);
    assert_eq!(r.encode().unwrap()[20], 0b101_11_0_00);
    let same = report().with_compression(report().compression().unwrap());
    assert_eq!(same, report());
}
