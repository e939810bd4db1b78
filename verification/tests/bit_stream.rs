use aprs_telemetry::bits::{read_bits, write_bits};

#[test]
fn read_bits_takes_the_first_bit_as_most_significant() {
    let bytes = [0b1010_0000u8, 0b0000_0001, 0xff, 0x80];
    assert_eq!(read_bits(&bytes, 0, 1), 1);
    assert_eq!(read_bits(&bytes, 1, 1), 0);
    assert_eq!(read_bits(&bytes, 0, 3), 0b101);
    assert_eq!(read_bits(&bytes, 0, 8), 0xa0);
    assert_eq!(read_bits(&bytes, 0, 16), 0xa001);
    assert_eq!(read_bits(&bytes, 15, 2), 0b11);
    assert_eq!(read_bits(&bytes, 15, 10), 0b11_1111_1111);
    assert_eq!(read_bits(&bytes, 0, 32), 0xa001_ff80);
    assert_eq!(read_bits(&bytes, 31, 1), 0);
    assert_eq!(read_bits(&bytes, 24, 1), 1);
    assert_eq!(read_bits(&bytes, 7, 0), 0);
    assert_eq!(read_bits(&bytes, 32, 0), 0);
}

#[test]
fn write_bits_changes_its_field_and_nothing_else() {
    let mut buf = [0xffu8; 4];
    write_bits(&mut buf, 3, 7, 0);
    assert_eq!(buf, [0b1110_0000, 0b0011_1111, 0xff, 0xff]);
    write_bits(&mut buf, 3, 7, 0b101_0101);
    assert_eq!(buf, [0b1111_0101, 0b0111_1111, 0xff, 0xff]);
    let mut buf = [0u8; 4];
    write_bits(&mut buf, 0, 32, 0xdead_beef);
    assert_eq!(buf, [0xde, 0xad, 0xbe, 0xef]);
    write_bits(&mut buf, 12, 8, 0);
    assert_eq!(buf, [0xde, 0xa0, 0x0e, 0xef]);
    write_bits(&mut buf, 31, 1, 0);
    assert_eq!(buf, [0xde, 0xa0, 0x0e, 0xee]);
    write_bits(&mut buf, 5, 0, 0);
    assert_eq!(buf, [0xde, 0xa0, 0x0e, 0xee]);
}

#[test]
fn what_is_written_is_read() {
    for offset in 0usize..16 {
        for width in 0usize..=32 {
            let value = if width == 0 { 0 } else { 0x9e37_79b9u64 & ((1u64 << width) - 1) };
            let mut buf = [0x5au8; 6];
            write_bits(&mut buf, offset, width, value);
            assert_eq!(read_bits(&buf, offset, width), value);
            let fresh = [0x5au8; 6];
            assert_eq!(read_bits(&buf, 0, offset), read_bits(&fresh, 0, offset));
            let rest = 48 - offset - width;
            let tail = rest.min(32);
            assert_eq!(read_bits(&buf, 48 - tail, tail), read_bits(&fresh, 48 - tail, tail));
        }
    }
}
