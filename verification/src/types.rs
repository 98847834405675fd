//! Packet data model: the magic word, the fixed 32-byte header, TLV headers,
//! and assembled packets, together with the little-endian field codec and the
//! header validation rules.

use vstd::prelude::*;

verus! {

/// The eight-byte sentinel that marks the start of every stream-path frame.
pub open spec fn magic_seq() -> Seq<u8> {
    seq![0x02u8, 0x01u8, 0x04u8, 0x03u8, 0x06u8, 0x05u8, 0x08u8, 0x07u8]
}

/// The magic word as owned bytes.
pub fn magic_word() -> (r: Vec<u8>)
    ensures
        r@ == magic_seq(),
{
    let mut v: Vec<u8> = Vec::new();
    v.push(0x02);
    v.push(0x01);
    v.push(0x04);
    v.push(0x03);
    v.push(0x06);
    v.push(0x05);
    v.push(0x08);
    v.push(0x07);
    proof {
        assert(v@ =~= magic_seq());
    }
    v
}

/// The value a little-endian byte quadruple stands for.
pub open spec fn le32(b0: u8, b1: u8, b2: u8, b3: u8) -> int {
    (b0 as int) + (b1 as int) * 0x100 + (b2 as int) * 0x10000 + (b3 as int) * 0x1000000
}

/// The value of the little-endian quadruple at the front of `s`.
pub open spec fn le32_at(s: Seq<u8>, i: int) -> int {
    le32(s[4 * i], s[4 * i + 1], s[4 * i + 2], s[4 * i + 3])
}

/// The four little-endian bytes of `x`.
pub open spec fn le_bytes(x: u32) -> Seq<u8> {
    seq![
        (x % 0x100) as u8,
        ((x / 0x100) % 0x100) as u8,
        ((x / 0x10000) % 0x100) as u8,
        ((x / 0x1000000) % 0x100) as u8,
    ]
}

/// Law: a field value survives the round trip through its four little-endian
/// bytes, for every `u32`.
pub proof fn lemma_le_round_trip(x: u32)
    ensures
        le32(le_bytes(x)[0], le_bytes(x)[1], le_bytes(x)[2], le_bytes(x)[3]) == x,
{
    assert(x % 0x100 + ((x / 0x100) % 0x100) * 0x100 + ((x / 0x10000) % 0x100) * 0x10000 + ((x
        / 0x1000000) % 0x100) * 0x1000000 == x) by (bit_vector);
}

/// Read the little-endian `u32` whose bytes are `b0..b3`, least significant
/// first.
pub fn u32_from_le(b0: u8, b1: u8, b2: u8, b3: u8) -> (r: u32)
    ensures
        r == le32(b0, b1, b2, b3),
{
    (b0 as u32) + (b1 as u32) * 0x100 + (b2 as u32) * 0x10000 + (b3 as u32) * 0x1000000
}

/// Append the four little-endian bytes of `x` to `out`.
pub fn push_le_bytes(out: &mut Vec<u8>, x: u32)
    ensures
        final(out)@ == old(out)@ + le_bytes(x),
{
    out.push((x % 0x100) as u8);
    out.push(((x / 0x100) % 0x100) as u8);
    out.push(((x / 0x10000) % 0x100) as u8);
    out.push(((x / 0x1000000) % 0x100) as u8);
    proof {
        assert(out@ =~= old(out)@ + le_bytes(x));
    }
}

/// Message types carried in a packet's TLV sections. Payload contents are out
/// of scope here; the variants only give the section type codes a name.
#[derive(Debug, Clone, Copy, PartialEq, Eq, Structural)]
pub enum MessageType {
    DetectedPoints,
    RangeProfile,
    NoiseProfile,
    AzimutStaticHeatMap,
    RangeDopplerHeatMap,
    Stats,
    DetectedPointsSideInfo,
    AzimutElevationStaticHeatMap,
    TemperatureStats,
}

/// The numeric code a message type carries on the wire.
pub open spec fn spec_message_code(m: MessageType) -> u32 {
    match m {
        MessageType::DetectedPoints => 1,
        MessageType::RangeProfile => 2,
        MessageType::NoiseProfile => 3,
        MessageType::AzimutStaticHeatMap => 4,
        MessageType::RangeDopplerHeatMap => 5,
        MessageType::Stats => 6,
        MessageType::DetectedPointsSideInfo => 7,
        MessageType::AzimutElevationStaticHeatMap => 8,
        MessageType::TemperatureStats => 9,
    }
}

/// The name of a message type, as diagnostics print it.
pub open spec fn spec_message_label(m: MessageType) -> Seq<char> {
    match m {
        MessageType::DetectedPoints => "DetectedPoints"@,
        MessageType::RangeProfile => "RangeProfile"@,
        MessageType::NoiseProfile => "NoiseProfile"@,
        MessageType::AzimutStaticHeatMap => "AzimutStaticHeatMap"@,
        MessageType::RangeDopplerHeatMap => "RangeDopplerHeatMap"@,
        MessageType::Stats => "Stats"@,
        MessageType::DetectedPointsSideInfo => "DetectedPointsSideInfo"@,
        MessageType::AzimutElevationStaticHeatMap => "AzimutElevationStaticHeatMap"@,
        MessageType::TemperatureStats => "TemperatureStats"@,
    }
}

impl MessageType {
    /// The name of this message type.
    pub fn label(&self) -> (r: &'static str)
        ensures
            r@ == spec_message_label(*self),
    {
        match self {
            MessageType::DetectedPoints => "DetectedPoints",
            MessageType::RangeProfile => "RangeProfile",
            MessageType::NoiseProfile => "NoiseProfile",
            MessageType::AzimutStaticHeatMap => "AzimutStaticHeatMap",
            MessageType::RangeDopplerHeatMap => "RangeDopplerHeatMap",
            MessageType::Stats => "Stats",
            MessageType::DetectedPointsSideInfo => "DetectedPointsSideInfo",
            MessageType::AzimutElevationStaticHeatMap => "AzimutElevationStaticHeatMap",
            MessageType::TemperatureStats => "TemperatureStats",
        }
    }

    /// The numeric code of this message type.
    pub fn code(&self) -> (r: u32)
        ensures
            r == spec_message_code(*self),
    {
        match self {
            MessageType::DetectedPoints => 1,
            MessageType::RangeProfile => 2,
            MessageType::NoiseProfile => 3,
            MessageType::AzimutStaticHeatMap => 4,
            MessageType::RangeDopplerHeatMap => 5,
            MessageType::Stats => 6,
            MessageType::DetectedPointsSideInfo => 7,
            MessageType::AzimutElevationStaticHeatMap => 8,
            MessageType::TemperatureStats => 9,
        }
    }
}

/// The fixed 32-byte packet header: seven little-endian `u32` fields followed
/// by four reserved bytes, preceded on the wire by the eight-byte magic word.
#[derive(Debug, Clone)]
pub struct Header {
    pub magic: Vec<u8>,
    pub version: u32,
    pub total_packet_len: u32,
    pub platform: u32,
    pub frame_number: u32,
    pub time_cpu_cycles: u32,
    pub num_detected_obj: u32,
    pub num_tlv: u32,
}

/// A well-formed header carries the magic word.
pub open spec fn header_wf(h: Header) -> bool {
    h.magic@ == magic_seq()
}

/// The validation rule applied to a freshly decoded header: the total packet
/// length (magic word and header included) lies in `[40, 4096]` and is a
/// multiple of 32, at most 100 detected objects, at most 10 TLV sections.
pub open spec fn valid_lengths(total: int, objs: int, tlvs: int) -> bool {
    &&& total >= 40
    &&& total <= 4096
    &&& total % 32 == 0
    &&& objs <= 100
    &&& tlvs <= 10
}

/// A header passes validation when its length and count fields do.
pub open spec fn header_valid(h: Header) -> bool {
    valid_lengths(h.total_packet_len as int, h.num_detected_obj as int, h.num_tlv as int)
}

/// The 32-byte little-endian layout of a header's fields.
pub open spec fn header_bytes(h: Header) -> Seq<u8> {
    le_bytes(h.version) + le_bytes(h.total_packet_len) + le_bytes(h.platform) + le_bytes(
        h.frame_number,
    ) + le_bytes(h.time_cpu_cycles) + le_bytes(h.num_detected_obj) + le_bytes(h.num_tlv) + seq![
        0u8,
        0u8,
        0u8,
        0u8,
    ]
}

impl Header {
    /// A header with the magic word set and every field zero.
    pub fn new() -> (r: Header)
        ensures
            header_wf(r),
            r.version == 0,
            r.total_packet_len == 0,
            r.platform == 0,
            r.frame_number == 0,
            r.time_cpu_cycles == 0,
            r.num_detected_obj == 0,
            r.num_tlv == 0,
    {
        Header {
            magic: magic_word(),
            version: 0,
            total_packet_len: 0,
            platform: 0,
            frame_number: 0,
            time_cpu_cycles: 0,
            num_detected_obj: 0,
            num_tlv: 0,
        }
    }

    /// Whether this header passes validation.
    pub fn validate(&self) -> (r: bool)
        ensures
            r == header_valid(*self),
    {
        self.total_packet_len >= 40 && self.total_packet_len <= 4096 && self.total_packet_len % 32
            == 0 && self.num_detected_obj <= 100 && self.num_tlv <= 10
    }
}

/// Decode the seven header fields from a filled 32-byte header region. The
/// last four bytes of the region are reserved and ignored.
pub fn decode_header(b: &Vec<u8>) -> (r: Header)
    requires
        b@.len() == 32,
    ensures
        header_wf(r),
        r.version == le32_at(b@, 0),
        r.total_packet_len == le32_at(b@, 1),
        r.platform == le32_at(b@, 2),
        r.frame_number == le32_at(b@, 3),
        r.time_cpu_cycles == le32_at(b@, 4),
        r.num_detected_obj == le32_at(b@, 5),
        r.num_tlv == le32_at(b@, 6),
{
    Header {
        magic: magic_word(),
        version: u32_from_le(b[0], b[1], b[2], b[3]),
        total_packet_len: u32_from_le(b[4], b[5], b[6], b[7]),
        platform: u32_from_le(b[8], b[9], b[10], b[11]),
        frame_number: u32_from_le(b[12], b[13], b[14], b[15]),
        time_cpu_cycles: u32_from_le(b[16], b[17], b[18], b[19]),
        num_detected_obj: u32_from_le(b[20], b[21], b[22], b[23]),
        num_tlv: u32_from_le(b[24], b[25], b[26], b[27]),
    }
}

/// Encode a header's fields into their 32-byte little-endian layout.
pub fn encode_header(h: &Header) -> (r: Vec<u8>)
    ensures
        r@ == header_bytes(*h),
        r@.len() == 32,
{
    let mut out: Vec<u8> = Vec::new();
    push_le_bytes(&mut out, h.version);
    push_le_bytes(&mut out, h.total_packet_len);
    push_le_bytes(&mut out, h.platform);
    push_le_bytes(&mut out, h.frame_number);
    push_le_bytes(&mut out, h.time_cpu_cycles);
    push_le_bytes(&mut out, h.num_detected_obj);
    push_le_bytes(&mut out, h.num_tlv);
    out.push(0);
    out.push(0);
    out.push(0);
    out.push(0);
    proof {
        assert(out@ =~= header_bytes(*h));
    }
    out
}

/// Law: encoding a header to its 32-byte little-endian layout and decoding it
/// reproduces every field value, for all field values.
#[verifier::rlimit(100)]
pub proof fn lemma_header_round_trip(h: Header)
    ensures
        header_bytes(h).len() == 32,
        le32_at(header_bytes(h), 0) == h.version,
        le32_at(header_bytes(h), 1) == h.total_packet_len,
        le32_at(header_bytes(h), 2) == h.platform,
        le32_at(header_bytes(h), 3) == h.frame_number,
        le32_at(header_bytes(h), 4) == h.time_cpu_cycles,
        le32_at(header_bytes(h), 5) == h.num_detected_obj,
        le32_at(header_bytes(h), 6) == h.num_tlv,
{
    lemma_le_round_trip(h.version);
    lemma_le_round_trip(h.total_packet_len);
    lemma_le_round_trip(h.platform);
    lemma_le_round_trip(h.frame_number);
    lemma_le_round_trip(h.time_cpu_cycles);
    lemma_le_round_trip(h.num_detected_obj);
    lemma_le_round_trip(h.num_tlv);
}

/// A TLV (type-length-value) section header inside a packet payload.
#[derive(Debug, Clone)]
pub struct TlvHeader {
    pub typ: u32,
    pub length: u32,
}

impl TlvHeader {
    /// A TLV header with both fields zero.
    pub fn new() -> (r: TlvHeader)
        ensures
            r.typ == 0,
            r.length == 0,
    {
        TlvHeader { typ: 0, length: 0 }
    }
}

/// A complete assembled packet: a validated header and its payload bytes.
#[derive(Debug, Clone)]
pub struct RadarPacket {
    pub header: Header,
    pub data: Vec<u8>,
}

impl RadarPacket {
    /// Bundle a header with its payload bytes.
    pub fn new(header: Header, data: Vec<u8>) -> (r: RadarPacket)
        ensures
            r.header == header,
            r.data == data,
    {
        RadarPacket { header, data }
    }
}

} // verus!
