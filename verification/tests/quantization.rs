use aprs_telemetry::quantize::{decode_timestamp, encode_timestamp, Channel, TIMESTAMP_MAX};

fn eight() -> Channel {
    Channel::new(-100, 100, 8).unwrap()
}

fn sixteen() -> Channel {
    Channel::new(-300_000, 300_000, 16).unwrap()
}

#[test]
fn channel_new_checks_interval_and_width() {
    assert_eq!(Channel::new(-100, 100, 8), Some(Channel { min: -100, max: 100, bits: 8 }));
    assert_eq!(Channel::new(0, 1, 1), Some(Channel { min: 0, max: 1, bits: 1 }));
    assert_eq!(
        Channel::new(i32::MIN, i32::MAX, 32),
        Some(Channel { min: i32::MIN, max: i32::MAX, bits: 32 })
    );
    assert_eq!(Channel::new(5, 5, 8), None);
    assert_eq!(Channel::new(6, 5, 8), None);
    assert_eq!(Channel::new(0, 10, 0), None);
    assert_eq!(Channel::new(0, 10, 33), None);
    assert!(eight().is_valid());
    assert!(!Channel { min: 1, max: 0, bits: 8 }.is_valid());
    assert!(!Channel { min: 0, max: 1, bits: 40 }.is_valid());
}

#[test]
fn top_code_is_all_ones() {
    assert_eq!(eight().top_code(), 255);
    assert_eq!(sixteen().top_code(), 65535);
    assert_eq!(Channel::new(0, 1, 1).unwrap().top_code(), 1);
    assert_eq!(Channel::new(0, 1, 31).unwrap().top_code(), 0x7fff_ffff);
    assert_eq!(Channel::new(0, 1, 32).unwrap().top_code(), 0xffff_ffff);
}

#[test]
fn encode_follows_the_formula() {
    // round((v + 100) * 255 / 200)
    let ch = eight();
    assert_eq!(ch.encode(0), 128);
    assert_eq!(ch.encode(1), 129);
    assert_eq!(ch.encode(-1), 126);
    assert_eq!(ch.encode(50), 191);
    assert_eq!(ch.encode(37), 175);
    assert_eq!(ch.encode(-37), 80);
    assert_eq!(ch.encode(99), 254);
    assert_eq!(ch.encode(100), 255);
    assert_eq!(ch.encode(-100), 0);
    // round((v + 300000) * 65535 / 600000)
    let ch = sixteen();
    assert_eq!(ch.encode(0), 32768);
    assert_eq!(ch.encode(123_456), 46252);
    assert_eq!(ch.encode(-250_000), 5461);
    assert_eq!(ch.encode(5), 32768);
}

#[test]
fn decode_follows_the_formula() {
    let ch = eight();
    assert_eq!(ch.decode(0), -100);
    assert_eq!(ch.decode(255), 100);
    assert_eq!(ch.decode(128), 0);
    assert_eq!(ch.decode(80), -37);
    let ch = sixteen();
    assert_eq!(ch.decode(0), -300_000);
    assert_eq!(ch.decode(65535), 300_000);
    assert_eq!(ch.decode(32768), 5);
    assert_eq!(ch.decode(5461), -250_002);
    assert_eq!(ch.decode(46252), 123_456);
}

#[test]
fn encode_saturates_outside_the_interval() {
    let ch = eight();
    assert_eq!(ch.encode(101), ch.encode(100));
    assert_eq!(ch.encode(1000), 255);
    assert_eq!(ch.encode(i32::MAX), 255);
    assert_eq!(ch.encode(-101), ch.encode(-100));
    assert_eq!(ch.encode(-1000), 0);
    assert_eq!(ch.encode(i32::MIN), 0);
    let ch = sixteen();
    assert_eq!(ch.encode(300_001), 65535);
    assert_eq!(ch.encode(i32::MAX), 65535);
    assert_eq!(ch.encode(-300_001), 0);
    assert_eq!(ch.encode(i32::MIN), 0);
}

#[test]
fn decode_reads_a_code_above_the_largest_as_the_largest() {
    let ch = eight();
    assert_eq!(ch.decode(256), 100);
    assert_eq!(ch.decode(u32::MAX), 100);
    let ch = Channel::new(0, 10, 1).unwrap();
    assert_eq!(ch.decode(0), 0);
    assert_eq!(ch.decode(1), 10);
    assert_eq!(ch.decode(2), 10);
}

#[test]
fn round_trip_stays_within_one_resolution_unit() {
    for ch in [
        eight(),
        sixteen(),
        Channel::new(0, 3, 16).unwrap(),
        Channel::new(-7, 1000, 3).unwrap(),
        Channel::new(0, 10, 1).unwrap(),
        Channel::new(-2_000_000_000, 2_000_000_000, 16).unwrap(),
        Channel::new(i32::MIN, i32::MAX, 32).unwrap(),
        Channel::new(i32::MIN, i32::MAX, 5).unwrap(),
    ] {
        let span = ch.max as i128 - ch.min as i128;
        let levels = ch.top_code() as i128;
        let mut v = ch.min as i64;
        let step = (span / 997).max(1) as i64;
        while v <= ch.max as i64 {
            let back = ch.decode(ch.encode(v as i32)) as i128;
            let error = (back - v as i128).abs();
            assert!(error * levels <= span);
            assert!(back >= ch.min as i128 && back <= ch.max as i128);
            v += step;
        }
        assert_eq!(ch.decode(ch.encode(ch.max)), ch.max);
        assert_eq!(ch.decode(ch.encode(ch.min)), ch.min);
    }
}

#[test]
fn fine_channel_gives_every_quantity_back() {
    // one step of the code is worth less than one base unit
    let ch = Channel::new(0, 3, 16).unwrap();
    assert_eq!(ch.encode(1), 21845);
    assert_eq!(ch.encode(2), 43690);
    for v in 0..=3 {
        assert_eq!(ch.decode(ch.encode(v)), v);
    }
}

#[test]
fn codes_survive_widening_and_narrowing() {
    // one step of the code is worth at least one base unit
    for ch in [
        sixteen(),
        Channel::new(0, 255, 8).unwrap(),
        Channel::new(-1000, 1000, 8).unwrap(),
        Channel::new(-3, 4, 3).unwrap(),
    ] {
        for code in 0..=ch.top_code() {
            assert_eq!(ch.encode(ch.decode(code)), code);
        }
    }
    // a finer code does not survive: two codes stand for one quantity
    let fine = eight();
    assert_eq!(fine.decode(2), fine.decode(3));
    assert_eq!(fine.encode(fine.decode(2)), 3);
    let ch = Channel::new(i32::MIN, i32::MAX, 32).unwrap();
    for code in [0u32, 1, 2, 0x7fff_ffff, 0x8000_0000, 0xffff_fffe, 0xffff_ffff] {
        assert_eq!(ch.encode(ch.decode(code)), code);
    }
}

#[test]
fn full_width_channel_is_exact() {
    let ch = Channel::new(i32::MIN, i32::MAX, 32).unwrap();
    assert_eq!(ch.encode(i32::MAX), 4_294_967_295);
    assert_eq!(ch.encode(i32::MIN), 0);
    assert_eq!(ch.encode(0), 2_147_483_648);
    assert_eq!(ch.decode(4_294_967_295), i32::MAX);
    assert_eq!(ch.decode(0), i32::MIN);
    assert_eq!(ch.decode(2_147_483_648), 0);
    assert_eq!(ch.encode_signed(0), 0);
    assert_eq!(ch.encode_signed(i32::MIN), i32::MIN);
    assert_eq!(ch.encode_signed(i32::MAX), i32::MAX);
    assert_eq!(ch.decode_signed(i32::MIN), i32::MIN);
    assert_eq!(ch.decode_signed(-5), -5);
}

#[test]
fn signed_code_counts_from_the_middle() {
    let ch = eight();
    assert_eq!(ch.encode_signed(0), 0);
    assert_eq!(ch.encode_signed(-100), -128);
    assert_eq!(ch.encode_signed(100), 127);
    assert_eq!(ch.encode_signed(-5000), -128);
    assert_eq!(ch.encode_signed(5000), 127);
    assert_eq!(ch.encode_signed(-37), 80 - 128);
    assert_eq!(ch.decode_signed(0), 0);
    assert_eq!(ch.decode_signed(-128), -100);
    assert_eq!(ch.decode_signed(127), 100);
    assert_eq!(ch.decode_signed(-48), -37);
    let ch = sixteen();
    assert_eq!(ch.encode_signed(0), 0);
    assert_eq!(ch.encode_signed(123_456), 13484);
    assert_eq!(ch.encode_signed(-250_000), -27307);
    assert_eq!(ch.encode_signed(300_000), 32767);
    assert_eq!(ch.encode_signed(-300_000), -32768);
    assert_eq!(ch.decode_signed(13484), 123_456);
    assert_eq!(ch.decode_signed(-27307), -250_002);
}

#[test]
fn signed_code_outside_the_range_is_read_as_the_nearest() {
    let ch = eight();
    assert_eq!(ch.decode_signed(128), 100);
    assert_eq!(ch.decode_signed(i32::MAX), 100);
    assert_eq!(ch.decode_signed(-129), -100);
    assert_eq!(ch.decode_signed(i32::MIN), -100);
}

#[test]
fn timestamp_counts_from_the_epoch() {
    assert_eq!(encode_timestamp(1_000_000, 1_000_000), 0);
    assert_eq!(encode_timestamp(1_001_200, 1_000_000), 1200);
    assert_eq!(decode_timestamp(1200, 1_000_000), 1_001_200);
    assert_eq!(decode_timestamp(0, 77), 77);
    assert_eq!(encode_timestamp(u32::MAX as u64, 0), u32::MAX);
    assert_eq!(TIMESTAMP_MAX, u32::MAX);
}

#[test]
fn timestamp_saturates() {
    assert_eq!(encode_timestamp(999_999, 1_000_000), 0);
    assert_eq!(encode_timestamp(0, u64::MAX), 0);
    assert_eq!(encode_timestamp(1_000_000 + (1u64 << 32), 1_000_000), u32::MAX);
    assert_eq!(encode_timestamp(1_000_000 + (1u64 << 32) - 1, 1_000_000), u32::MAX);
    assert_eq!(encode_timestamp(1_000_000 + (1u64 << 32) - 2, 1_000_000), u32::MAX - 1);
    assert_eq!(encode_timestamp(u64::MAX, 0), u32::MAX);
    assert_eq!(decode_timestamp(u32::MAX, u64::MAX), u64::MAX);
    assert_eq!(decode_timestamp(1, u64::MAX), u64::MAX);
    assert_eq!(decode_timestamp(0, u64::MAX), u64::MAX);
    assert_eq!(decode_timestamp(5, u64::MAX - 5), u64::MAX);
    assert_eq!(decode_timestamp(5, u64::MAX - 6), u64::MAX - 1);
}

#[test]
fn timestamp_round_trips_within_its_range() {
    for epoch in [0u64, 1, 1_000_000, u64::MAX - u32::MAX as u64] {
        for offset in [0u64, 1, 1200, 0x7fff_ffff, 0xffff_fffe, 0xffff_ffff] {
            let ticks = epoch + offset;
            assert_eq!(decode_timestamp(encode_timestamp(ticks, epoch), epoch), ticks);
        }
    }
}
