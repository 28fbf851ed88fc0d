use wiiload::header::{HEADER_LEN, PROTOCOL_VERSION_MAJOR, PROTOCOL_VERSION_MINOR};
use wiiload::NetworkPacketHeader;

#[test]
fn header_is_sixteen_bytes_with_magic_and_version() {
    let h = NetworkPacketHeader { args_len: 0, buffer_size: 0, uncompressed_buffer_size: 0 };
    let buf = h.as_u8_buf();
    assert_eq!(buf.len(), HEADER_LEN);
    assert_eq!(&buf[0..4], b"HAXX");
    assert_eq!(buf[4], PROTOCOL_VERSION_MAJOR);
    assert_eq!(buf[5], PROTOCOL_VERSION_MINOR);
    assert_eq!(buf[4], 0);
    assert_eq!(buf[5], 5);
    assert_eq!(&buf[6..16], &[0u8; 10]);
}

#[test]
fn header_fields_are_big_endian() {
    let h = NetworkPacketHeader {
        args_len: 0x1234,
        buffer_size: 0xAABB_CCDD,
        uncompressed_buffer_size: 0x0102_0304,
    };
    assert_eq!(
        h.as_u8_buf(),
        [
            0x48, 0x41, 0x58, 0x58, 0x00, 0x05, 0x12, 0x34, 0xAA, 0xBB, 0xCC, 0xDD, 0x01, 0x02,
            0x03, 0x04
        ]
    );
}

#[test]
fn header_fields_at_their_maximum() {
    let h = NetworkPacketHeader {
        args_len: u16::MAX,
        buffer_size: u32::MAX,
        uncompressed_buffer_size: u32::MAX,
    };
    let buf = h.as_u8_buf();
    assert_eq!(&buf[0..6], &[0x48, 0x41, 0x58, 0x58, 0x00, 0x05]);
    assert_eq!(&buf[6..16], &[0xFFu8; 10]);
}

#[test]
fn header_matches_std_big_endian_encoding() {
    let h = NetworkPacketHeader {
        args_len: 513,
        buffer_size: 65_536_001,
        uncompressed_buffer_size: 4_000_000_000,
    };
    let buf = h.as_u8_buf();
    assert_eq!(&buf[6..8], &513u16.to_be_bytes());
    assert_eq!(&buf[8..12], &65_536_001u32.to_be_bytes());
    assert_eq!(&buf[12..16], &4_000_000_000u32.to_be_bytes());
}

#[test]
fn header_round_trips_through_its_encoding() {
    let samples = [
        (0u16, 0u32, 0u32),
        (1, 2, 3),
        (0x00FF, 0x0000_FF00, 0x00FF_0000),
        (0xFF00, 0xFF00_0000, 0x0000_00FF),
        (0x8000, 0x8000_0000, 0x7FFF_FFFF),
        (u16::MAX, u32::MAX, u32::MAX),
        (7, 1000, 123),
    ];
    for (args_len, buffer_size, uncompressed_buffer_size) in samples {
        let h = NetworkPacketHeader { args_len, buffer_size, uncompressed_buffer_size };
        let buf = h.as_u8_buf();
        assert_eq!(NetworkPacketHeader::from_u8_buf(&buf), Some(h));
        assert_eq!(u16::from_be_bytes([buf[6], buf[7]]), args_len);
        assert_eq!(u32::from_be_bytes([buf[8], buf[9], buf[10], buf[11]]), buffer_size);
        assert_eq!(
            u32::from_be_bytes([buf[12], buf[13], buf[14], buf[15]]),
            uncompressed_buffer_size
        );
    }
}

#[test]
fn header_decoding_reads_each_field_from_its_offset() {
    let buf = [
        0x48, 0x41, 0x58, 0x58, 0x00, 0x05, 0x00, 0x2A, 0x00, 0x01, 0x00, 0x00, 0x00, 0x00, 0x01,
        0x00,
    ];
    assert_eq!(
        NetworkPacketHeader::from_u8_buf(&buf),
        Some(NetworkPacketHeader {
            args_len: 42,
            buffer_size: 65536,
            uncompressed_buffer_size: 256
        })
    );
}

#[test]
fn header_decoding_rejects_a_wrong_magic() {
    let h = NetworkPacketHeader { args_len: 1, buffer_size: 2, uncompressed_buffer_size: 3 };
    for i in 0..4 {
        let mut buf = h.as_u8_buf();
        buf[i] ^= 0x20;
        assert_eq!(NetworkPacketHeader::from_u8_buf(&buf), None);
    }
}

#[test]
fn header_decoding_rejects_another_version() {
    let h = NetworkPacketHeader { args_len: 1, buffer_size: 2, uncompressed_buffer_size: 3 };
    let mut buf = h.as_u8_buf();
    buf[4] = 1;
    assert_eq!(NetworkPacketHeader::from_u8_buf(&buf), None);
    let mut buf = h.as_u8_buf();
    buf[5] = 4;
    assert_eq!(NetworkPacketHeader::from_u8_buf(&buf), None);
}
