// Scenario tests: a 16-byte region written with four u32 values at unit
// offsets, then read back at byte offsets whose 4-byte windows overlap the
// written values. The buffer stores values little-endian, so the expected
// overlapping reads are computed from the little-endian byte layout.

use membuf::MemBuffer;
use membuf::MemErr;

#[test]
fn test_0001() {
    let bytes = vec![0u8; 16];

    let mut buf = MemBuffer::from_bytes(bytes);

    buf.write_type_offset::<u32>(0, 0x11223344).unwrap();
    buf.write_type_offset::<u32>(1, 0x55667788).unwrap();
    buf.write_type_offset::<u32>(2, 0x99AABBCC).unwrap();
    buf.write_type_offset::<u32>(3, 0xDDEEFF00).unwrap();

    assert_eq!(buf.read_byte_offset::<u32>(0).unwrap(), 0x11223344);
    assert_eq!(buf.read_byte_offset::<u32>(1).unwrap(), 0x88112233);
    assert_eq!(buf.read_byte_offset::<u32>(2).unwrap(), 0x77881122);
    assert_eq!(buf.read_byte_offset::<u32>(3).unwrap(), 0x66778811);

    assert_eq!(buf.read_byte_offset::<u32>(6).unwrap(), 0xBBCC5566);
    assert_eq!(buf.read_byte_offset::<u32>(10).unwrap(), 0xFF0099AA);

    assert_eq!(
        buf.as_bytes(),
        &[
            0x44, 0x33, 0x22, 0x11, 0x88, 0x77, 0x66, 0x55, 0xCC, 0xBB, 0xAA, 0x99, 0x00, 0xFF,
            0xEE, 0xDD,
        ]
    );
}

#[test]
fn concrete_scenario_overlapping_reads() {
    let mut buf = MemBuffer::from_size(16);
    assert_eq!(buf.as_bytes(), &[0u8; 16]);

    buf.write_type_offset::<u32>(0, 0x11223344).unwrap();
    buf.write_type_offset::<u32>(1, 0x55667788).unwrap();
    buf.write_type_offset::<u32>(2, 0x99AABBCC).unwrap();
    buf.write_type_offset::<u32>(3, 0xDDEEFF00).unwrap();

    // Aligned reads give back the written values.
    assert_eq!(buf.read_byte_offset::<u32>(0), Ok(0x11223344));
    assert_eq!(buf.read_byte_offset::<u32>(4), Ok(0x55667788));
    assert_eq!(buf.read_byte_offset::<u32>(8), Ok(0x99AABBCC));
    assert_eq!(buf.read_byte_offset::<u32>(12), Ok(0xDDEEFF00));

    // Unaligned reads reflect the overlapping bytes of adjacent writes under
    // the little-endian layout.
    assert_eq!(buf.read_byte_offset::<u32>(1), Ok(0x88112233));
    assert_eq!(buf.read_byte_offset::<u32>(6), Ok(0xBBCC5566));
    assert_eq!(buf.read_byte_offset::<u32>(10), Ok(0xFF0099AA));

    // 13 + 4 > 16: the last whole u32 starts at byte 12.
    assert_eq!(buf.read_byte_offset::<u32>(13), Err(MemErr::OutOfRange));
}
