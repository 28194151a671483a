//! Byte layouts exchanged with the server: the length-prefixed frame stream,
//! fixed-size control datagrams, input datagrams, and YUV plane unpacking.

use vstd::prelude::*;

verus! {

/// Largest H.264 payload the frame stream accepts (4 MiB).
pub const MAX_H264_LEN: u32 = 4194304;

/// Size of the fixed per-frame header (width, height, seq, payload length).
pub const FRAME_HEADER_LEN: u32 = 16;

/// Largest frame width or height the frame stream accepts.
pub const MAX_FRAME_DIM: u32 = 4096;

/// Little-endian value of the four bytes of `b` starting at `off`.
pub open spec fn le_u32_at(b: Seq<u8>, off: int) -> int {
    b[off] + 256 * b[off + 1] + 65536 * b[off + 2] + 16777216 * b[off + 3]
}

/// Decode four little-endian bytes.
pub fn read_le_u32(b: &[u8], off: usize) -> (v: u32)
    requires
        off + 4 <= b@.len(),
    ensures
        v == le_u32_at(b@, off as int),
{
    let b0 = b[off] as u32;
    let b1 = b[off + 1] as u32;
    let b2 = b[off + 2] as u32;
    let b3 = b[off + 3] as u32;
    b0 + 256 * b1 + 65536 * b2 + 16777216 * b3
}

/// Why a frame-stream record was rejected; the stream is abandoned after any of these.
#[derive(Debug, Clone, Copy, PartialEq, Eq, Structural)]
pub enum FrameStreamError {
    /// The length prefix is outside `16 ..= 4 MiB + 16`.
    InvalidLengthPrefix { inner_len: u32 },
    /// Width or height is zero or larger than 4096.
    InvalidDimensions { width: u32, height: u32 },
    /// The payload length is zero or larger than 4 MiB.
    InvalidPayloadLength { h264_len: u32 },
    /// The length prefix does not equal 16 plus the payload length.
    LengthMismatch { inner_len: u32, h264_len: u32 },
}

/// The validated fixed header of one frame-stream record.
#[derive(Debug, Clone, Copy, PartialEq, Eq, Structural)]
pub struct FrameHeader {
    pub width: u32,
    pub height: u32,
    pub seq: u32,
    pub h264_len: u32,
}

pub open spec fn length_prefix_ok(inner_len: int) -> bool {
    FRAME_HEADER_LEN <= inner_len <= MAX_H264_LEN + FRAME_HEADER_LEN
}

/// Decode and range-check the 4-byte length prefix of a frame record.
pub fn parse_length_prefix(len_buf: &[u8; 4]) -> (r: Result<u32, FrameStreamError>)
    ensures
        ({
            let v = le_u32_at(len_buf@, 0);
            match r {
                Ok(n) => n == v && length_prefix_ok(v),
                Err(e) => !length_prefix_ok(v) && e == (FrameStreamError::InvalidLengthPrefix {
                    inner_len: v as u32,
                }),
            }
        }),
{
    let inner_len = read_le_u32(len_buf, 0);
    if inner_len < FRAME_HEADER_LEN || inner_len > MAX_H264_LEN + FRAME_HEADER_LEN {
        Err(FrameStreamError::InvalidLengthPrefix { inner_len })
    } else {
        Ok(inner_len)
    }
}

pub open spec fn dims_ok(width: int, height: int) -> bool {
    0 < width <= MAX_FRAME_DIM && 0 < height <= MAX_FRAME_DIM
}

pub open spec fn payload_len_ok(h264_len: int) -> bool {
    0 < h264_len <= MAX_H264_LEN
}

/// The outcome the frame-stream rules give for a length prefix and a header.
pub open spec fn spec_frame_header(inner_len: u32, header: Seq<u8>) -> Result<
    FrameHeader,
    FrameStreamError,
> {
    let width = le_u32_at(header, 0) as u32;
    let height = le_u32_at(header, 4) as u32;
    let seq = le_u32_at(header, 8) as u32;
    let h264_len = le_u32_at(header, 12) as u32;
    if !dims_ok(width as int, height as int) {
        Err(FrameStreamError::InvalidDimensions { width, height })
    } else if !payload_len_ok(h264_len as int) {
        Err(FrameStreamError::InvalidPayloadLength { h264_len })
    } else if inner_len != FRAME_HEADER_LEN + h264_len {
        Err(FrameStreamError::LengthMismatch { inner_len, h264_len })
    } else {
        Ok(FrameHeader { width, height, seq, h264_len })
    }
}

/// Decode the 16-byte frame header (width, height, seq, payload length, all
/// little-endian `u32`) and check it against the length prefix.
pub fn parse_frame_header(inner_len: u32, header: &[u8; 16]) -> (r: Result<
    FrameHeader,
    FrameStreamError,
>)
    ensures
        r == spec_frame_header(inner_len, header@),
{
    let width = read_le_u32(header, 0);
    let height = read_le_u32(header, 4);
    let seq = read_le_u32(header, 8);
    let h264_len = read_le_u32(header, 12);
    if width == 0 || height == 0 || width > MAX_FRAME_DIM || height > MAX_FRAME_DIM {
        return Err(FrameStreamError::InvalidDimensions { width, height });
    }
    if h264_len == 0 || h264_len > MAX_H264_LEN {
        return Err(FrameStreamError::InvalidPayloadLength { h264_len });
    }
    if inner_len != FRAME_HEADER_LEN + h264_len {
        return Err(FrameStreamError::LengthMismatch { inner_len, h264_len });
    }
    Ok(FrameHeader { width, height, seq, h264_len })
}


/// Byte `i` of the packed plane: the source byte at the same row and column
/// of the strided plane, or zero where the source is too short.
pub open spec fn packed_plane_byte(plane: Seq<u8>, width: int, stride: int, row: int, col: int) -> u8 {
    let src = row * stride + col;
    if src < plane.len() {
        plane[src]
    } else {
        0u8
    }
}

proof fn lemma_row_index_bounds(row: int, col: int, width: int, height: int)
    requires
        0 <= row < height,
        0 <= col < width,
    ensures
        0 <= row * width + col < width * height,
        row * width <= row * width + col,
{
    assert(row * width + col < width * height) by (nonlinear_arith)
        requires
            0 <= row < height,
            0 <= col < width,
    ;
    assert(0 <= row * width) by (nonlinear_arith)
        requires
            0 <= row,
            0 <= col < width,
    ;
}

/// Copy a `width x height` plane out of a buffer whose rows are `stride`
/// bytes apart, dropping the padding; rows that run past the end of the
/// source are completed with zeros.
pub fn extract_plane(plane: &[u8], width: usize, height: usize, stride: usize) -> (out: Vec<u8>)
    requires
        width * height <= usize::MAX,
        height > 0 ==> (height - 1) * stride + width <= usize::MAX,
        stride == width ==> width * height <= plane@.len(),
    ensures
        out@.len() == width * height,
        forall|row: int, col: int|
            0 <= row < height && 0 <= col < width ==> #[trigger] out@[row * width + col]
                == packed_plane_byte(plane@, width as int, stride as int, row, col),
{
    let mut out: Vec<u8> = Vec::new();
    let mut row: usize = 0;
    while row < height
        invariant
            row <= height,
            width * height <= usize::MAX,
            height > 0 ==> (height - 1) * stride + width <= usize::MAX,
            out@.len() == row * width,
            forall|r: int, c: int|
                0 <= r < row && 0 <= c < width ==> #[trigger] out@[r * width + c]
                    == packed_plane_byte(plane@, width as int, stride as int, r, c),
        decreases height - row,
    {
        assert(row * stride + width <= (height - 1) * stride + width) by (nonlinear_arith)
            requires
                row < height,
        ;
        assert((row + 1) * width <= width * height) by (nonlinear_arith)
            requires
                row < height,
        ;
        let start = row * stride;
        let mut col: usize = 0;
        while col < width
            invariant
                row < height,
                col <= width,
                start == row * stride,
                start + width <= usize::MAX,
                (row + 1) * width <= width * height,
                width * height <= usize::MAX,
                out@.len() == row * width + col,
                forall|r: int, c: int|
                    0 <= r < row && 0 <= c < width ==> #[trigger] out@[r * width + c]
                        == packed_plane_byte(plane@, width as int, stride as int, r, c),
                forall|c: int|
                    0 <= c < col ==> #[trigger] out@[row * width + c] == packed_plane_byte(
                        plane@,
                        width as int,
                        stride as int,
                        row as int,
                        c,
                    ),
            decreases width - col,
        {
            let src = start + col;
            let byte: u8 = if src < plane.len() {
                plane[src]
            } else {
                0
            };
            let ghost before = out@;
            out.push(byte);
            proof {
                assert forall|r: int, c: int|
                    0 <= r < row && 0 <= c < width implies #[trigger] out@[r * width + c]
                        == packed_plane_byte(plane@, width as int, stride as int, r, c) by {
                    lemma_row_index_bounds(r, c, width as int, row as int);
                    assert(out@[r * width + c] == before[r * width + c]);
                }
                assert forall|c: int|
                    0 <= c < col + 1 implies #[trigger] out@[row * width + c] == packed_plane_byte(
                        plane@,
                        width as int,
                        stride as int,
                        row as int,
                        c,
                    ) by {
                    if c < col {
                        assert(out@[row * width + c] == before[row * width + c]);
                    }
                }
            }
            col = col + 1;
        }
        proof {
            assert((row + 1) * width == row * width + width) by (nonlinear_arith);
            assert forall|r: int, c: int|
                0 <= r < row + 1 && 0 <= c < width implies #[trigger] out@[r * width + c]
                    == packed_plane_byte(plane@, width as int, stride as int, r, c) by {
                if r == row {
                } else {
                }
            }
        }
        row = row + 1;
    }
    proof {
        assert(row * width == width * height) by (nonlinear_arith)
            requires
                row == height,
        ;
    }
    out
}


/// Channel and message type of the keep-alive datagram.
pub const HEARTBEAT_VER_CHAN: u16 = 0x006;
pub const HEARTBEAT_MSG_TYPE: u8 = 0x01;

/// Size of the datagram header.
pub const HEADER_SIZE: usize = 16;

/// The fields of a datagram header.
#[derive(Debug, Clone, Copy, PartialEq, Eq, Structural)]
pub struct WireHeader {
    pub version: u8,
    pub channel_id: u16,
    pub msg_type: u8,
    pub flags: u8,
    pub sequence: u32,
    pub timestamp_us: u32,
    pub payload_length: u32,
}

/// The byte sequence of the little-endian encoding of `v`.
pub open spec fn le_bytes_u32(v: u32) -> Seq<u8> {
    seq![
        (v % 256) as u8,
        ((v / 256) % 256) as u8,
        ((v / 65536) % 256) as u8,
        (v / 16777216) as u8,
    ]
}

/// The header layout: `version << 12 | channel` as little-endian `u16`,
/// message type, flags, then sequence, timestamp and payload length as
/// little-endian `u32`.
pub open spec fn header_bytes(h: WireHeader) -> Seq<u8> {
    let ver_chan = h.version * 4096 + h.channel_id;
    seq![(ver_chan % 256) as u8, (ver_chan / 256) as u8, h.msg_type, h.flags] + le_bytes_u32(
        h.sequence,
    ) + le_bytes_u32(h.timestamp_us) + le_bytes_u32(h.payload_length)
}

pub open spec fn header_fits(h: WireHeader) -> bool {
    h.version < 16 && h.channel_id < 4096
}

fn push_le_u32(out: &mut Vec<u8>, v: u32)
    ensures
        final(out)@ == old(out)@ + le_bytes_u32(v),
{
    out.push((v % 256) as u8);
    out.push(((v / 256) % 256) as u8);
    out.push(((v / 65536) % 256) as u8);
    out.push((v / 16777216) as u8);
    assert(final(out)@ =~= old(out)@ + le_bytes_u32(v));
}

/// A record for a reliable stream, as the capability exchange sends it:
/// the body's length as a little-endian `u32`, then the body.
pub fn length_prefixed(body: &[u8]) -> (out: Vec<u8>)
    requires
        body@.len() <= u32::MAX,
    ensures
        out@ == le_bytes_u32(body@.len() as u32) + body@,
{
    let mut out: Vec<u8> = Vec::new();
    push_le_u32(&mut out, body.len() as u32);
    let ghost prefix = out@;
    let mut i: usize = 0;
    while i < body.len()
        invariant
            i <= body@.len(),
            out@ == prefix + body@.subrange(0, i as int),
        decreases body@.len() - i,
    {
        out.push(body[i]);
        i = i + 1;
        assert(out@ =~= prefix + body@.subrange(0, i as int));
    }
    assert(body@.subrange(0, body@.len() as int) =~= body@);
    out
}

/// A whole message: the encoded header, then the payload.
pub fn encode_message(h: &WireHeader, payload: &[u8]) -> (out: Vec<u8>)
    requires
        header_fits(*h),
    ensures
        out@ == header_bytes(*h) + payload@,
{
    let mut out = encode_header(h);
    let ghost prefix = out@;
    let mut i: usize = 0;
    while i < payload.len()
        invariant
            i <= payload@.len(),
            out@ == prefix + payload@.subrange(0, i as int),
        decreases payload@.len() - i,
    {
        out.push(payload[i]);
        i = i + 1;
        assert(out@ =~= prefix + payload@.subrange(0, i as int));
    }
    assert(payload@.subrange(0, payload@.len() as int) =~= payload@);
    out
}

/// Encode a datagram header.
pub fn encode_header(h: &WireHeader) -> (out: Vec<u8>)
    requires
        header_fits(*h),
    ensures
        out@ == header_bytes(*h),
        out@.len() == HEADER_SIZE,
{
    let ver_chan: u16 = (h.version as u16) * 4096 + h.channel_id;
    let mut out: Vec<u8> = Vec::new();
    out.push((ver_chan % 256) as u8);
    out.push((ver_chan / 256) as u8);
    out.push(h.msg_type);
    out.push(h.flags);
    push_le_u32(&mut out, h.sequence);
    push_le_u32(&mut out, h.timestamp_us);
    push_le_u32(&mut out, h.payload_length);
    assert(out@ =~= header_bytes(*h));
    out
}

/// The header fields that the first 16 bytes of `b` encode, or `None` when
/// `b` is shorter than a header.
pub open spec fn spec_decode_header(b: Seq<u8>) -> Option<WireHeader> {
    if b.len() < HEADER_SIZE {
        None
    } else {
        let ver_chan = b[0] + 256 * b[1];
        Some(
            WireHeader {
                version: (ver_chan / 4096) as u8,
                channel_id: (ver_chan % 4096) as u16,
                msg_type: b[2],
                flags: b[3],
                sequence: le_u32_at(b, 4) as u32,
                timestamp_us: le_u32_at(b, 8) as u32,
                payload_length: le_u32_at(b, 12) as u32,
            },
        )
    }
}

/// Decode the header at the start of a datagram.
pub fn decode_header(data: &[u8]) -> (h: Option<WireHeader>)
    ensures
        h == spec_decode_header(data@),
{
    if data.len() < HEADER_SIZE {
        return None;
    }
    let ver_chan: u16 = data[0] as u16 + 256 * (data[1] as u16);
    Some(
        WireHeader {
            version: (ver_chan / 4096) as u8,
            channel_id: ver_chan % 4096,
            msg_type: data[2],
            flags: data[3],
            sequence: read_le_u32(data, 4),
            timestamp_us: read_le_u32(data, 8),
            payload_length: read_le_u32(data, 12),
        },
    )
}

/// The sequence number and channel of a datagram on `display_channel`;
/// `None` for a datagram too short for a header or on another channel.
pub fn parse_display_datagram(data: &[u8], display_channel: u16) -> (r: Option<(u32, u16)>)
    ensures
        r == match spec_decode_header(data@) {
            Some(h) => if h.channel_id == display_channel {
                Some((h.sequence, h.channel_id))
            } else {
                None
            },
            None => None,
        },
{
    match decode_header(data) {
        Some(h) => if h.channel_id == display_channel {
            Some((h.sequence, h.channel_id))
        } else {
            None
        },
        None => None,
    }
}

/// Whether a datagram is a probe to answer: a header on `control_channel`
/// with message type `probe_request`.
pub fn is_probe_request(data: &[u8], control_channel: u16, probe_request: u8) -> (b: bool)
    ensures
        b == match spec_decode_header(data@) {
            Some(h) => h.channel_id == control_channel && h.msg_type == probe_request,
            None => false,
        },
{
    match decode_header(data) {
        Some(h) => h.channel_id == control_channel && h.msg_type == probe_request,
        None => false,
    }
}

proof fn lemma_le_u32_roundtrip(v: u32)
    ensures
        le_u32_at(le_bytes_u32(v), 0) == v,
{
    let b = le_bytes_u32(v);
    assert(b[0] == (v % 256) as u8);
    assert(b[1] == ((v / 256) % 256) as u8);
    assert(b[2] == ((v / 65536) % 256) as u8);
    assert(b[3] == (v / 16777216) as u8);
    assert((v % 256) + 256 * ((v / 256) % 256) + 65536 * ((v / 65536) % 256) + 16777216 * (v / 16777216) == v)
        by (bit_vector);
}

/// Decoding an encoded header gives back its fields.
pub proof fn lemma_header_roundtrip(h: WireHeader)
    requires
        header_fits(h),
    ensures
        spec_decode_header(header_bytes(h)) == Some(h),
{
    let b = header_bytes(h);
    let ver_chan = h.version * 4096 + h.channel_id;
    lemma_le_u32_roundtrip(h.sequence);
    lemma_le_u32_roundtrip(h.timestamp_us);
    lemma_le_u32_roundtrip(h.payload_length);
    assert(b.subrange(4, 8) =~= le_bytes_u32(h.sequence));
    assert(b.subrange(8, 12) =~= le_bytes_u32(h.timestamp_us));
    assert(b.subrange(12, 16) =~= le_bytes_u32(h.payload_length));
    assert(le_u32_at(b, 4) == le_u32_at(b.subrange(4, 8), 0));
    assert(le_u32_at(b, 8) == le_u32_at(b.subrange(8, 12), 0));
    assert(le_u32_at(b, 12) == le_u32_at(b.subrange(12, 16), 0));
    assert(b[0] + 256 * b[1] == ver_chan) by {
        assert(b[0] == (ver_chan % 256) as u8);
        assert(b[1] == (ver_chan / 256) as u8);
    }
    assert(ver_chan / 4096 == h.version && ver_chan % 4096 == h.channel_id);
}

/// Two datagrams built one after the other by any sender carry consecutive
/// sequence numbers (wrapping at `u32::MAX`) in bytes 4..8.
pub proof fn lemma_consecutive_input_sequences(
    template: Seq<u8>,
    seq: u32,
    first: Seq<u8>,
    second: Seq<u8>,
)
    requires
        template.len() == HEADER_SIZE,
    ensures
        le_u32_at(input_datagram(template, vstd::wrapping::u32_specs::wrapping_add(seq, 1), second), 4)
            == vstd::wrapping::u32_specs::wrapping_add(
            le_u32_at(input_datagram(template, seq, first), 4) as u32,
            1,
        ),
{
    let n = vstd::wrapping::u32_specs::wrapping_add(seq, 1);
    let d1 = input_datagram(template, seq, first);
    let d2 = input_datagram(template, n, second);
    lemma_le_u32_roundtrip(seq);
    lemma_le_u32_roundtrip(n);
    assert(d1.subrange(4, 8) =~= le_bytes_u32(seq));
    assert(d2.subrange(4, 8) =~= le_bytes_u32(n));
    assert(le_u32_at(d1, 4) == le_u32_at(d1.subrange(4, 8), 0));
    assert(le_u32_at(d2, 4) == le_u32_at(d2.subrange(4, 8), 0));
}

/// A 16-byte control datagram that carries only a channel and a message
/// type (keep-alive, key-frame request): all other header fields are zero.
pub fn control_datagram(ver_chan: u16, msg_type: u8) -> (d: [u8; 16])
    ensures
        d@ == seq![(ver_chan % 256) as u8, (ver_chan / 256) as u8, msg_type]
            + Seq::new(13, |i: int| 0u8),
{
    let d = [
        (ver_chan % 256) as u8,
        (ver_chan / 256) as u8,
        msg_type,
        0u8,
        0u8,
        0u8,
        0u8,
        0u8,
        0u8,
        0u8,
        0u8,
        0u8,
        0u8,
        0u8,
        0u8,
        0u8,
    ];
    assert(d@ =~= seq![(ver_chan % 256) as u8, (ver_chan / 256) as u8, msg_type]
        + Seq::new(13, |i: int| 0u8));
    d
}

/// The keep-alive datagram sent every few seconds on the control channel.
pub fn heartbeat_datagram() -> (d: [u8; 16])
    ensures
        d@ == seq![6u8, 0u8, 1u8] + Seq::new(13, |i: int| 0u8),
{
    control_datagram(HEARTBEAT_VER_CHAN, HEARTBEAT_MSG_TYPE)
}

/// The answer to a probe: the probe datagram with its message type
/// (byte 2) replaced.
pub fn probe_echo(data: &[u8], response_type: u8) -> (out: Vec<u8>)
    requires
        data@.len() >= HEADER_SIZE,
    ensures
        out@ == data@.update(2, response_type),
{
    let mut out: Vec<u8> = Vec::new();
    let mut i: usize = 0;
    while i < data.len()
        invariant
            i <= data@.len(),
            data@.len() >= HEADER_SIZE,
            out@.len() == i,
            forall|k: int| 0 <= k < i ==> #[trigger] out@[k] == if k == 2 {
                response_type
            } else {
                data@[k]
            },
        decreases data@.len() - i,
    {
        if i == 2 {
            out.push(response_type);
        } else {
            out.push(data[i]);
        }
        i = i + 1;
    }
    assert(out@ =~= data@.update(2, response_type));
    out
}

/// Builds input datagrams from a pre-encoded header template whose sequence
/// field (bytes 4..8) is overwritten for every datagram.
pub struct InputSender {
    header_template: [u8; 16],
    sequence: u32,
}

/// The datagram for one event: the template with `seq` as little-endian
/// bytes 4..8, followed by the serialised event.
pub open spec fn input_datagram(template: Seq<u8>, seq: u32, event: Seq<u8>) -> Seq<u8> {
    template.subrange(0, 4) + le_bytes_u32(seq) + template.subrange(8, 16) + event
}

impl InputSender {
    pub closed spec fn template(&self) -> Seq<u8> {
        self.header_template@
    }

    pub closed spec fn spec_sequence(&self) -> u32 {
        self.sequence
    }

    /// A sender for events of `event_size` bytes on `channel_id`; its template
    /// is the header with message type 1, zero flags, sequence and timestamp.
    pub fn new(version: u8, channel_id: u16, event_size: u32) -> (s: InputSender)
        requires
            version < 16,
            channel_id < 4096,
        ensures
            s.spec_sequence() == 0,
            s.template() == header_bytes(
                WireHeader {
                    version,
                    channel_id,
                    msg_type: 1,
                    flags: 0,
                    sequence: 0,
                    timestamp_us: 0,
                    payload_length: event_size,
                },
            ),
    {
        let h = WireHeader {
            version,
            channel_id,
            msg_type: 1,
            flags: 0,
            sequence: 0,
            timestamp_us: 0,
            payload_length: event_size,
        };
        let bytes = encode_header(&h);
        let header_template: [u8; 16] = [
            bytes[0],
            bytes[1],
            bytes[2],
            bytes[3],
            bytes[4],
            bytes[5],
            bytes[6],
            bytes[7],
            bytes[8],
            bytes[9],
            bytes[10],
            bytes[11],
            bytes[12],
            bytes[13],
            bytes[14],
            bytes[15],
        ];
        assert(header_template@ =~= bytes@);
        InputSender { header_template, sequence: 0 }
    }

    /// Build the datagram for one serialised event and advance the sequence
    /// counter (wrapping at `u32::MAX`).
    pub fn build_datagram(&mut self, event: &[u8]) -> (d: Vec<u8>)
        ensures
            d@ == input_datagram(old(self).template(), old(self).spec_sequence(), event@),
            le_u32_at(d@, 4) == old(self).spec_sequence(),
            old(self).template().len() == HEADER_SIZE,
            final(self).template() == old(self).template(),
            final(self).spec_sequence() == vstd::wrapping::u32_specs::wrapping_add(
                old(self).spec_sequence(),
                1,
            ),
    {
        let mut d: Vec<u8> = Vec::new();
        d.push(self.header_template[0]);
        d.push(self.header_template[1]);
        d.push(self.header_template[2]);
        d.push(self.header_template[3]);
        push_le_u32(&mut d, self.sequence);
        let mut i: usize = 8;
        while i < 16
            invariant
                8 <= i <= 16,
                d@ == self.header_template@.subrange(0, 4) + le_bytes_u32(self.sequence)
                    + self.header_template@.subrange(8, i as int),
            decreases 16 - i,
        {
            d.push(self.header_template[i]);
            i = i + 1;
            assert(d@ =~= self.header_template@.subrange(0, 4) + le_bytes_u32(self.sequence)
                + self.header_template@.subrange(8, i as int));
        }
        let mut j: usize = 0;
        let ghost prefix = d@;
        while j < event.len()
            invariant
                j <= event@.len(),
                d@ == prefix + event@.subrange(0, j as int),
            decreases event@.len() - j,
        {
            d.push(event[j]);
            j = j + 1;
            assert(d@ =~= prefix + event@.subrange(0, j as int));
        }
        assert(event@.subrange(0, j as int) =~= event@);
        proof {
            let t = self.header_template@;
            lemma_le_u32_roundtrip(self.sequence);
            assert(d@.subrange(4, 8) =~= le_bytes_u32(self.sequence));
            assert(le_u32_at(d@, 4) == le_u32_at(d@.subrange(4, 8), 0));
        }
        self.sequence = self.sequence.wrapping_add(1);
        d
    }

    /// The current sequence counter (the number of datagrams built, modulo 2^32).
    pub fn sequence(&self) -> (s: u32)
        ensures
            s == self.spec_sequence(),
    {
        self.sequence
    }
}

/// What a frame header says, field by field: with `w`, `h`, `s` and `n`
/// the four little-endian words of the header, the record is accepted,
/// with exactly those fields, when 0 < w, h <= 4096, 0 < n <= 4 MiB and the
/// length prefix is 16 + n. Otherwise the first failed check is reported:
/// bad dimensions (only for a zero or above-4096 width or height), then a
/// bad payload length, then a length prefix that does not match.
pub proof fn lemma_frame_header_fields(inner_len: u32, header: Seq<u8>, w: u32, h: u32, s: u32, n: u32)
    requires
        header.len() == 16,
        w == header[0] + 256 * header[1] + 65536 * header[2] + 16777216 * header[3],
        h == header[4] + 256 * header[5] + 65536 * header[6] + 16777216 * header[7],
        s == header[8] + 256 * header[9] + 65536 * header[10] + 16777216 * header[11],
        n == header[12] + 256 * header[13] + 65536 * header[14] + 16777216 * header[15],
    ensures
        ({
            let dims_bad = w == 0 || w > 4096 || h == 0 || h > 4096;
            let len_bad = n == 0 || n > 4194304;
            &&& dims_bad ==> spec_frame_header(inner_len, header)
                == Err::<FrameHeader, FrameStreamError>(FrameStreamError::InvalidDimensions { width: w, height: h })
            &&& !dims_bad && len_bad ==> spec_frame_header(inner_len, header)
                == Err::<FrameHeader, FrameStreamError>(FrameStreamError::InvalidPayloadLength { h264_len: n })
            &&& !dims_bad && !len_bad && inner_len != 16 + n ==> spec_frame_header(inner_len, header)
                == Err::<FrameHeader, FrameStreamError>(FrameStreamError::LengthMismatch { inner_len, h264_len: n })
            &&& !dims_bad && !len_bad && inner_len == 16 + n ==> spec_frame_header(inner_len, header)
                == Ok::<FrameHeader, FrameStreamError>(FrameHeader { width: w, height: h, seq: s, h264_len: n })
        }),
{
}

/// A 1440p (or any other in-range) frame is accepted: for every header of
/// dimensions in 1 ..= 4096, a payload of 1 ..= 4 MiB bytes and a matching
/// length prefix, the result is `Ok` with the header's fields.
pub proof fn lemma_in_range_frames_accepted(inner_len: u32, header: Seq<u8>)
    requires
        header.len() == 16,
        0 < le_u32_at(header, 0) <= 4096,
        0 < le_u32_at(header, 4) <= 4096,
        0 < le_u32_at(header, 12) <= 4194304,
        inner_len == 16 + le_u32_at(header, 12),
    ensures
        spec_frame_header(inner_len, header) matches Ok(f) && f.width == le_u32_at(header, 0)
            && f.height == le_u32_at(header, 4) && f.seq == le_u32_at(header, 8) && f.h264_len
            == le_u32_at(header, 12),
{
}

/// The length prefix is accepted exactly when it lies in 16 ..= 4 MiB + 16,
/// and then it is the decoded little-endian value.
pub proof fn lemma_length_prefix_range(len_buf: Seq<u8>, v: u32)
    requires
        len_buf.len() == 4,
        v == len_buf[0] + 256 * len_buf[1] + 65536 * len_buf[2] + 16777216 * len_buf[3],
    ensures
        length_prefix_ok(le_u32_at(len_buf, 0)) <==> 16 <= v <= 4194320,
        le_u32_at(len_buf, 0) == v,
{
}

} // verus!
