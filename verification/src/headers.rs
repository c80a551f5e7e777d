//! Binary layout of the IPv4 and UDP headers.
//!
//! Each header is serialized field by field into network (big-endian) byte
//! order; nothing depends on in-memory struct layout. The byte images are
//! described by spec functions, and the encoders are proved to produce them
//! exactly. Decoding the same layout recovers every field (round-trip law).

use vstd::prelude::*;

verus! {

/// An IPv4 header without options: exactly 20 bytes on the wire.
///
/// `version_ihl` packs the version (high nibble) and the header length in
/// 32-bit words (low nibble); with no options the length nibble must be 5.
/// `flags_fragment_offset` packs the three flag bits (high) and the 13-bit
/// fragment offset (low). All multi-byte fields are carried in network order
/// when encoded.
#[derive(Clone, Copy, Debug, PartialEq, Eq, Structural)]
pub struct IPv4Header {
    pub version_ihl: u8,
    pub dscp_ecn: u8,
    pub total_len: u16,
    pub id: u16,
    pub flags_fragment_offset: u16,
    pub ttl: u8,
    pub protocol: u8,
    pub header_checksum: u16,
    pub src_addr: u32,
    pub dest_addr: u32,
}

/// A UDP header: exactly 8 bytes on the wire.
///
/// The checksum is optional under IPv4 and may be zero to signal "unused".
#[derive(Clone, Copy, Debug, PartialEq, Eq, Structural)]
pub struct UdpHeader {
    pub src_port: u16,
    pub dest_port: u16,
    pub length: u16,
    pub checksum: u16,
}

/// The only way encoding can fail: a header-length nibble inconsistent with
/// the fixed 20-byte, no-options layout.
#[derive(Clone, Copy, Debug, PartialEq, Eq, Structural)]
pub enum EncodingError {
    HeaderLengthMismatch,
}

/// High byte of a 16-bit value in network order.
pub open spec fn u16_hi(x: u16) -> u8 {
    ((x >> 8) & 0xff) as u8
}

/// Low byte of a 16-bit value in network order.
pub open spec fn u16_lo(x: u16) -> u8 {
    (x & 0xff) as u8
}

/// The 16-bit value carried by two network-order bytes.
pub open spec fn u16_from_bytes(hi: u8, lo: u8) -> u16 {
    (hi as u16) << 8 | (lo as u16)
}

/// Byte `i` (0 = most significant) of a 32-bit value in network order.
pub open spec fn u32_byte(x: u32, i: int) -> u8 {
    if i == 0 {
        ((x >> 24) & 0xff) as u8
    } else if i == 1 {
        ((x >> 16) & 0xff) as u8
    } else if i == 2 {
        ((x >> 8) & 0xff) as u8
    } else {
        (x & 0xff) as u8
    }
}

/// The 32-bit value carried by four network-order bytes.
pub open spec fn u32_from_bytes(b0: u8, b1: u8, b2: u8, b3: u8) -> u32 {
    (b0 as u32) << 24 | (b1 as u32) << 16 | (b2 as u32) << 8 | (b3 as u32)
}

pub proof fn lemma_u16_roundtrip(x: u16)
    ensures
        u16_from_bytes(u16_hi(x), u16_lo(x)) == x,
{
    assert(((((x >> 8) & 0xff) as u8) as u16) << 8 | (((x & 0xff) as u8) as u16) == x)
        by (bit_vector);
}

pub proof fn lemma_u32_roundtrip(x: u32)
    ensures
        u32_from_bytes(u32_byte(x, 0), u32_byte(x, 1), u32_byte(x, 2), u32_byte(x, 3)) == x,
{
    assert(((((x >> 24) & 0xff) as u8) as u32) << 24 | ((((x >> 16) & 0xff) as u8) as u32) << 16
        | ((((x >> 8) & 0xff) as u8) as u32) << 8 | (((x & 0xff) as u8) as u32) == x)
        by (bit_vector);
}

/// Whether the header-length nibble agrees with the fixed 20-byte layout
/// (5 words of 32 bits, no options).
pub open spec fn ipv4_header_length_consistent(h: IPv4Header) -> bool {
    h.version_ihl % 16 == 5
}

/// The 20-byte network-order image of an IPv4 header.
pub open spec fn spec_encode_ipv4(h: IPv4Header) -> Seq<u8> {
    seq![
        h.version_ihl,
        h.dscp_ecn,
        u16_hi(h.total_len),
        u16_lo(h.total_len),
        u16_hi(h.id),
        u16_lo(h.id),
        u16_hi(h.flags_fragment_offset),
        u16_lo(h.flags_fragment_offset),
        h.ttl,
        h.protocol,
        u16_hi(h.header_checksum),
        u16_lo(h.header_checksum),
        u32_byte(h.src_addr, 0),
        u32_byte(h.src_addr, 1),
        u32_byte(h.src_addr, 2),
        u32_byte(h.src_addr, 3),
        u32_byte(h.dest_addr, 0),
        u32_byte(h.dest_addr, 1),
        u32_byte(h.dest_addr, 2),
        u32_byte(h.dest_addr, 3),
    ]
}

/// The header whose fields a 20-byte network-order image carries.
pub open spec fn spec_decode_ipv4(b: Seq<u8>) -> IPv4Header {
    IPv4Header {
        version_ihl: b[0],
        dscp_ecn: b[1],
        total_len: u16_from_bytes(b[2], b[3]),
        id: u16_from_bytes(b[4], b[5]),
        flags_fragment_offset: u16_from_bytes(b[6], b[7]),
        ttl: b[8],
        protocol: b[9],
        header_checksum: u16_from_bytes(b[10], b[11]),
        src_addr: u32_from_bytes(b[12], b[13], b[14], b[15]),
        dest_addr: u32_from_bytes(b[16], b[17], b[18], b[19]),
    }
}

/// Serializes an IPv4 header into its exact 20-byte network-order image.
/// Fails only when the header-length nibble is inconsistent with the fixed
/// 20-byte layout.
pub fn encode_ipv4(h: &IPv4Header) -> (r: Result<Vec<u8>, EncodingError>)
    ensures
        ipv4_header_length_consistent(*h) ==> (r matches Ok(bytes) && bytes@ == spec_encode_ipv4(
            *h,
        )),
        !ipv4_header_length_consistent(*h) ==> r == Result::<Vec<u8>, EncodingError>::Err(
            EncodingError::HeaderLengthMismatch,
        ),
{
    if h.version_ihl % 16 != 5 {
        return Err(EncodingError::HeaderLengthMismatch);
    }
    let mut out: Vec<u8> = Vec::new();
    out.push(h.version_ihl);
    out.push(h.dscp_ecn);
    out.push(((h.total_len >> 8) & 0xff) as u8);
    out.push((h.total_len & 0xff) as u8);
    out.push(((h.id >> 8) & 0xff) as u8);
    out.push((h.id & 0xff) as u8);
    out.push(((h.flags_fragment_offset >> 8) & 0xff) as u8);
    out.push((h.flags_fragment_offset & 0xff) as u8);
    out.push(h.ttl);
    out.push(h.protocol);
    out.push(((h.header_checksum >> 8) & 0xff) as u8);
    out.push((h.header_checksum & 0xff) as u8);
    out.push(((h.src_addr >> 24) & 0xff) as u8);
    out.push(((h.src_addr >> 16) & 0xff) as u8);
    out.push(((h.src_addr >> 8) & 0xff) as u8);
    out.push((h.src_addr & 0xff) as u8);
    out.push(((h.dest_addr >> 24) & 0xff) as u8);
    out.push(((h.dest_addr >> 16) & 0xff) as u8);
    out.push(((h.dest_addr >> 8) & 0xff) as u8);
    out.push((h.dest_addr & 0xff) as u8);
    assert(out@ =~= spec_encode_ipv4(*h));
    Ok(out)
}

/// Reads back every field of a 20-byte IPv4 header image.
pub fn decode_ipv4(bytes: &Vec<u8>) -> (h: IPv4Header)
    requires
        bytes@.len() == 20,
    ensures
        h == spec_decode_ipv4(bytes@),
{
    IPv4Header {
        version_ihl: bytes[0],
        dscp_ecn: bytes[1],
        total_len: (bytes[2] as u16) << 8 | (bytes[3] as u16),
        id: (bytes[4] as u16) << 8 | (bytes[5] as u16),
        flags_fragment_offset: (bytes[6] as u16) << 8 | (bytes[7] as u16),
        ttl: bytes[8],
        protocol: bytes[9],
        header_checksum: (bytes[10] as u16) << 8 | (bytes[11] as u16),
        src_addr: (bytes[12] as u32) << 24 | (bytes[13] as u32) << 16 | (bytes[14] as u32) << 8
            | (bytes[15] as u32),
        dest_addr: (bytes[16] as u32) << 24 | (bytes[17] as u32) << 16 | (bytes[18] as u32) << 8
            | (bytes[19] as u32),
    }
}

/// Round-trip law: decoding the byte image of any IPv4 header recovers the
/// original field values exactly.
pub proof fn lemma_encode_ipv4_roundtrip(h: IPv4Header)
    ensures
        spec_decode_ipv4(spec_encode_ipv4(h)) == h,
{
    lemma_u16_roundtrip(h.total_len);
    lemma_u16_roundtrip(h.id);
    lemma_u16_roundtrip(h.flags_fragment_offset);
    lemma_u16_roundtrip(h.header_checksum);
    lemma_u32_roundtrip(h.src_addr);
    lemma_u32_roundtrip(h.dest_addr);
}

/// The 8-byte network-order image of a UDP header.
pub open spec fn spec_encode_udp(h: UdpHeader) -> Seq<u8> {
    seq![
        u16_hi(h.src_port),
        u16_lo(h.src_port),
        u16_hi(h.dest_port),
        u16_lo(h.dest_port),
        u16_hi(h.length),
        u16_lo(h.length),
        u16_hi(h.checksum),
        u16_lo(h.checksum),
    ]
}

/// Serializes a UDP header into its exact 8-byte network-order image.
pub fn encode_udp(h: &UdpHeader) -> (r: Vec<u8>)
    ensures
        r@ == spec_encode_udp(*h),
{
    let mut out: Vec<u8> = Vec::new();
    out.push(((h.src_port >> 8) & 0xff) as u8);
    out.push((h.src_port & 0xff) as u8);
    out.push(((h.dest_port >> 8) & 0xff) as u8);
    out.push((h.dest_port & 0xff) as u8);
    out.push(((h.length >> 8) & 0xff) as u8);
    out.push((h.length & 0xff) as u8);
    out.push(((h.checksum >> 8) & 0xff) as u8);
    out.push((h.checksum & 0xff) as u8);
    assert(out@ =~= spec_encode_udp(*h));
    out
}

} // verus!
