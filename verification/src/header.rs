//! The fixed 16-byte header that opens every transfer.

use vstd::prelude::*;

verus! {

/// Number of bytes in an encoded header.
pub const HEADER_LEN: usize = 16;

/// Major revision of the protocol spoken by this crate.
pub const PROTOCOL_VERSION_MAJOR: u8 = 0;

/// Minor revision of the protocol spoken by this crate.
pub const PROTOCOL_VERSION_MINOR: u8 = 5;

/// The four bytes that identify the protocol: ASCII "HAXX".
pub open spec fn magic() -> Seq<u8> {
    seq![0x48u8, 0x41u8, 0x58u8, 0x58u8]
}

/// The two version bytes that follow the magic.
pub open spec fn version() -> Seq<u8> {
    seq![PROTOCOL_VERSION_MAJOR, PROTOCOL_VERSION_MINOR]
}

/// Big-endian encoding of a 16-bit value: most significant byte first.
pub open spec fn be16(v: u16) -> Seq<u8> {
    seq![(v / 0x100) as u8, (v % 0x100) as u8]
}

/// Big-endian encoding of a 32-bit value: most significant byte first.
pub open spec fn be32(v: u32) -> Seq<u8> {
    seq![
        (v / 0x100_0000) as u8,
        (v / 0x1_0000 % 0x100) as u8,
        (v / 0x100 % 0x100) as u8,
        (v % 0x100) as u8,
    ]
}

/// The number that two bytes spell, most significant byte first.
pub open spec fn from_be16(b: Seq<u8>) -> int
    recommends
        b.len() == 2,
{
    b[0] * 0x100 + b[1]
}

/// The number that four bytes spell, most significant byte first.
pub open spec fn from_be32(b: Seq<u8>) -> int
    recommends
        b.len() == 4,
{
    b[0] * 0x100_0000 + b[1] * 0x1_0000 + b[2] * 0x100 + b[3]
}

/// The three size fields carried by a header.
#[derive(Clone, Copy, Debug, PartialEq, Eq, Structural)]
pub struct NetworkPacketHeader {
    /// Number of argument bytes that follow the payload section.
    pub args_len: u16,
    /// Number of payload bytes as written on the stream.
    pub buffer_size: u32,
    /// Number of bytes of the payload before any compression.
    pub uncompressed_buffer_size: u32,
}

impl NetworkPacketHeader {
    /// The 16 bytes that encode this header: magic, version, then the three
    /// size fields in big-endian order.
    pub open spec fn wire(self) -> Seq<u8> {
        magic() + version() + be16(self.args_len) + be32(self.buffer_size) + be32(
            self.uncompressed_buffer_size,
        )
    }

    /// What a receiver reads out of `bytes`: the three fields if `bytes` is a
    /// well-formed header of this protocol revision, nothing otherwise.
    pub open spec fn parse(bytes: Seq<u8>) -> Option<NetworkPacketHeader> {
        if bytes.len() == HEADER_LEN && bytes.subrange(0, 4) == magic() && bytes.subrange(4, 6)
            == version() {
            Some(
                NetworkPacketHeader {
                    args_len: from_be16(bytes.subrange(6, 8)) as u16,
                    buffer_size: from_be32(bytes.subrange(8, 12)) as u32,
                    uncompressed_buffer_size: from_be32(bytes.subrange(12, 16)) as u32,
                },
            )
        } else {
            None
        }
    }

    /// Encodes the header into its 16-byte wire form.
    pub fn as_u8_buf(&self) -> (buf: [u8; 16])
        ensures
            buf@ == self.wire(),
            buf@.subrange(0, 4) == magic(),
            buf@.subrange(4, 6) == version(),
            Self::parse(buf@) == Some(*self),
    {
        let a: u16 = self.args_len;
        let b: u32 = self.buffer_size;
        let u: u32 = self.uncompressed_buffer_size;
        proof {
            lemma_shift_bytes16(a);
            lemma_shift_bytes32(b);
            lemma_shift_bytes32(u);
            lemma_encode_then_parse(*self);
        }
        let buf: [u8; 16] = [
            0x48u8,
            0x41u8,
            0x58u8,
            0x58u8,
            PROTOCOL_VERSION_MAJOR,
            PROTOCOL_VERSION_MINOR,
            ((a >> 8) & 0xFF) as u8,
            (a & 0xFF) as u8,
            ((b >> 24) & 0xFF) as u8,
            ((b >> 16) & 0xFF) as u8,
            ((b >> 8) & 0xFF) as u8,
            (b & 0xFF) as u8,
            ((u >> 24) & 0xFF) as u8,
            ((u >> 16) & 0xFF) as u8,
            ((u >> 8) & 0xFF) as u8,
            (u & 0xFF) as u8,
        ];
        assert(buf@ =~= self.wire());
        assert(buf@.subrange(0, 4) =~= magic());
        assert(buf@.subrange(4, 6) =~= version());
        buf
    }

    /// Decodes a 16-byte buffer, rejecting a wrong magic or version.
    pub fn from_u8_buf(buf: &[u8; 16]) -> (parsed: Option<NetworkPacketHeader>)
        ensures
            parsed == Self::parse(buf@),
    {
        let well_formed = buf[0] == 0x48u8 && buf[1] == 0x41u8 && buf[2] == 0x58u8 && buf[3]
            == 0x58u8 && buf[4] == PROTOCOL_VERSION_MAJOR && buf[5] == PROTOCOL_VERSION_MINOR;
        if !well_formed {
            proof {
                let m = buf@.subrange(0, 4);
                let v = buf@.subrange(4, 6);
                assert(m[0] == buf[0] && m[1] == buf[1] && m[2] == buf[2] && m[3] == buf[3]);
                assert(v[0] == buf[4] && v[1] == buf[5]);
            }
            return None;
        }
        assert(buf@.subrange(0, 4) =~= magic());
        assert(buf@.subrange(4, 6) =~= version());
        let args_len: u16 = (buf[6] as u16) * 0x100 + (buf[7] as u16);
        let buffer_size: u32 = (buf[8] as u32) * 0x100_0000 + (buf[9] as u32) * 0x1_0000
            + (buf[10] as u32) * 0x100 + (buf[11] as u32);
        let uncompressed_buffer_size: u32 = (buf[12] as u32) * 0x100_0000
            + (buf[13] as u32) * 0x1_0000 + (buf[14] as u32) * 0x100 + (buf[15] as u32);
        Some(NetworkPacketHeader { args_len, buffer_size, uncompressed_buffer_size })
    }
}

/// Shifting and masking a 16-bit value picks the same bytes as dividing it.
proof fn lemma_shift_bytes16(v: u16)
    ensures
        (v >> 8) & 0xFF == v / 0x100,
        v & 0xFF == v % 0x100,
{
    assert((v >> 8) & 0xFF == v / 0x100) by (bit_vector);
    assert(v & 0xFF == v % 0x100) by (bit_vector);
}

/// Shifting and masking a 32-bit value picks the same bytes as dividing it.
proof fn lemma_shift_bytes32(v: u32)
    ensures
        (v >> 24) & 0xFF == v / 0x100_0000,
        (v >> 16) & 0xFF == v / 0x1_0000 % 0x100,
        (v >> 8) & 0xFF == v / 0x100 % 0x100,
        v & 0xFF == v % 0x100,
{
    assert((v >> 24) & 0xFF == v / 0x100_0000) by (bit_vector);
    assert((v >> 16) & 0xFF == v / 0x1_0000 % 0x100) by (bit_vector);
    assert((v >> 8) & 0xFF == v / 0x100 % 0x100) by (bit_vector);
    assert(v & 0xFF == v % 0x100) by (bit_vector);
}

/// Decoding an encoded header gives back the same three fields, whatever
/// their values.
pub proof fn lemma_encode_then_parse(h: NetworkPacketHeader)
    ensures
        h.wire().len() == HEADER_LEN,
        NetworkPacketHeader::parse(h.wire()) == Some(h),
        from_be16(h.wire().subrange(6, 8)) == h.args_len,
        from_be32(h.wire().subrange(8, 12)) == h.buffer_size,
        from_be32(h.wire().subrange(12, 16)) == h.uncompressed_buffer_size,
{
    let w = h.wire();
    assert(w.subrange(0, 4) =~= magic());
    assert(w.subrange(4, 6) =~= version());
    assert(w.subrange(6, 8) =~= be16(h.args_len));
    assert(w.subrange(8, 12) =~= be32(h.buffer_size));
    assert(w.subrange(12, 16) =~= be32(h.uncompressed_buffer_size));
    lemma_be16_inverse(h.args_len);
    lemma_be32_inverse(h.buffer_size);
    lemma_be32_inverse(h.uncompressed_buffer_size);
}

/// Every buffer that parses is the encoding of the header it parses to.
pub proof fn lemma_parse_then_encode(bytes: Seq<u8>, h: NetworkPacketHeader)
    requires
        NetworkPacketHeader::parse(bytes) == Some(h),
    ensures
        h.wire() == bytes,
{
    let w = h.wire();
    let m = bytes.subrange(0, 4);
    let v = bytes.subrange(4, 6);
    assert(m[0] == bytes[0] && m[1] == bytes[1] && m[2] == bytes[2] && m[3] == bytes[3]);
    assert(v[0] == bytes[4] && v[1] == bytes[5]);
    lemma_from_be16_inverse(bytes.subrange(6, 8));
    lemma_from_be32_inverse(bytes.subrange(8, 12));
    lemma_from_be32_inverse(bytes.subrange(12, 16));
    assert(w.subrange(6, 8) =~= be16(h.args_len));
    assert(w.subrange(8, 12) =~= be32(h.buffer_size));
    assert(w.subrange(12, 16) =~= be32(h.uncompressed_buffer_size));
    assert forall|i: int| 0 <= i < 16 implies w[i] == bytes[i] by {
        if 6 <= i < 8 {
            assert(w.subrange(6, 8)[i - 6] == bytes.subrange(6, 8)[i - 6]);
        } else if 8 <= i < 12 {
            assert(w.subrange(8, 12)[i - 8] == bytes.subrange(8, 12)[i - 8]);
        } else if 12 <= i < 16 {
            assert(w.subrange(12, 16)[i - 12] == bytes.subrange(12, 16)[i - 12]);
        }
    }
    assert(w =~= bytes);
}

/// Two big-endian bytes spell the value they were made from.
pub proof fn lemma_be16_inverse(v: u16)
    ensures
        from_be16(be16(v)) == v,
{
}

/// Four big-endian bytes spell the value they were made from.
pub proof fn lemma_be32_inverse(v: u32)
    ensures
        from_be32(be32(v)) == v,
{
}

/// Any two bytes are the big-endian encoding of the value they spell.
pub proof fn lemma_from_be16_inverse(b: Seq<u8>)
    requires
        b.len() == 2,
    ensures
        0 <= from_be16(b) <= u16::MAX,
        be16(from_be16(b) as u16) == b,
{
    assert(be16(from_be16(b) as u16) =~= b);
}

/// Any four bytes are the big-endian encoding of the value they spell.
pub proof fn lemma_from_be32_inverse(b: Seq<u8>)
    requires
        b.len() == 4,
    ensures
        0 <= from_be32(b) <= u32::MAX,
        be32(from_be32(b) as u32) == b,
{
    let n = from_be32(b);
    let hi = b[0] * 0x100 + b[1];
    let mid = hi * 0x100 + b[2];
    assert(n == mid * 0x100 + b[3]);
    assert(n / 0x100 == mid && n % 0x100 == b[3]);
    assert(mid / 0x100 == hi && mid % 0x100 == b[2]);
    assert(hi / 0x100 == b[0] && hi % 0x100 == b[1]);
    assert(n / 0x1_0000 == hi);
    assert(n / 0x100_0000 == b[0]);
    assert(be32(n as u32) =~= b);
}

} // verus!
