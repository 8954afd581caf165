use vstd::prelude::*;
use crate::interface::PACKET_HEADER_LENGTH;

verus! {

/// Capacity of the buffer in which outgoing frames are built.
pub const PACKET_SEND_BUF_LEN: usize = 256;

/// Capacity of the buffer into which incoming frames are read.
pub const PACKET_RECV_BUF_LEN: usize = 1024;

/// The decoded header of a frame.
#[derive(Clone, Copy, Debug, PartialEq, Eq, Structural)]
pub struct FrameHeader {
    /// Total frame length in bytes, header included.
    pub length: u16,
    /// Channel number.
    pub channel: u8,
    /// Sequence number that the sender gave the frame.
    pub sequence: u8,
}

/// The four header bytes of a frame of `total_len` bytes.
pub open spec fn header_bytes(total_len: int, channel: u8, sequence: u8) -> Seq<u8> {
    seq![(total_len % 256) as u8, (total_len / 256) as u8, channel, sequence]
}

/// Total length of the frame that carries `body`.
pub open spec fn frame_len(body: Seq<u8>) -> int {
    body.len() + PACKET_HEADER_LENGTH
}

/// The wire form of a frame: header, then body.
pub open spec fn frame_bytes(channel: u8, sequence: u8, body: Seq<u8>) -> Seq<u8> {
    header_bytes(frame_len(body), channel, sequence) + body
}

/// The length that a frame's header declares: the low fourteen bits of the
/// little-endian word in its first two bytes.
pub open spec fn declared_length(bytes: Seq<u8>) -> int {
    (bytes[1] as int % 64) * 256 + bytes[0] as int
}

/// Whether the first `received_len` bytes of `bytes` are one whole frame:
/// long enough for a header, inside the buffer, and as long as the header says.
pub open spec fn well_framed(bytes: Seq<u8>, received_len: int) -> bool {
    &&& PACKET_HEADER_LENGTH <= received_len <= bytes.len()
    &&& declared_length(bytes) == received_len
}

/// The header that `parse_frame` reads from a well-framed buffer.
pub open spec fn header_of(bytes: Seq<u8>) -> FrameHeader {
    FrameHeader { length: declared_length(bytes) as u16, channel: bytes[2], sequence: bytes[3] }
}

/// The body of the frame in the first `received_len` bytes of `bytes`.
pub open spec fn body_of(bytes: Seq<u8>, received_len: int) -> Seq<u8> {
    bytes.subrange(PACKET_HEADER_LENGTH as int, received_len)
}

/// The four bytes of `value`, least significant first.
pub open spec fn le_bytes(value: u32) -> Seq<u8> {
    seq![
        (value % 256) as u8,
        (value / 256 % 256) as u8,
        (value / 65536 % 256) as u8,
        (value / 16777216 % 256) as u8,
    ]
}

/// The number that four bytes spell, least significant first.
pub open spec fn le_value(bytes: Seq<u8>) -> int {
    bytes[0] + 256 * bytes[1] + 65536 * bytes[2] + 16777216 * bytes[3]
}

/// Writes the frame for `body` on `channel` with `sequence` at the start of
/// `buf` and answers with its total length. A body that does not fit beside
/// the header is refused and `buf` is left as it was.
pub fn build_frame(
    buf: &mut [u8; PACKET_SEND_BUF_LEN],
    channel: u8,
    sequence: u8,
    body: &[u8],
) -> (res: Option<usize>)
    ensures
        frame_len(body@) <= PACKET_SEND_BUF_LEN ==> {
            &&& res == Some(frame_len(body@) as usize)
            &&& final(buf)@.subrange(0, frame_len(body@)) == frame_bytes(channel, sequence, body@)
            &&& final(buf)@.subrange(frame_len(body@), PACKET_SEND_BUF_LEN as int) == old(
                buf,
            )@.subrange(frame_len(body@), PACKET_SEND_BUF_LEN as int)
        },
        frame_len(body@) > PACKET_SEND_BUF_LEN ==> {
            &&& res is None
            &&& final(buf)@ == old(buf)@
        },
{
    let body_len: usize = body.len();
    if body_len > PACKET_SEND_BUF_LEN - PACKET_HEADER_LENGTH {
        return None;
    }
    let packet_length: usize = body_len + PACKET_HEADER_LENGTH;
    buf[0] = (packet_length % 256) as u8;
    buf[1] = (packet_length / 256) as u8;
    buf[2] = channel;
    buf[3] = sequence;
    let mut i: usize = 0;
    while i < body_len
        invariant
            body_len == body@.len(),
            packet_length == body_len + 4,
            packet_length <= 256,
            i <= body_len,
            buf@.subrange(0, 4) == header_bytes(packet_length as int, channel, sequence),
            buf@.subrange(4, 4 + i) == body@.subrange(0, i as int),
            buf@.subrange(packet_length as int, 256) == old(buf)@.subrange(
                packet_length as int,
                256,
            ),
        decreases body_len - i,
    {
        let b: u8 = body[i];
        buf[i + PACKET_HEADER_LENGTH] = b;
        proof {
            assert(buf@.subrange(0, 4) =~= header_bytes(packet_length as int, channel, sequence));
            assert(buf@.subrange(4, 4 + i + 1) =~= body@.subrange(0, i + 1));
            assert(buf@.subrange(packet_length as int, 256) =~= old(buf)@.subrange(
                packet_length as int,
                256,
            ));
        }
        i = i + 1;
    }
    proof {
        assert(body@.subrange(0, body_len as int) =~= body@);
        assert(buf@.subrange(0, packet_length as int) =~= buf@.subrange(0, 4) + buf@.subrange(
            4,
            4 + body_len,
        ));
    }
    Some(packet_length)
}

/// Reads the header of the frame that occupies the first `received_len`
/// bytes of `buf` and hands out its body. Answers `None` when those bytes are
/// not one whole frame.
pub fn parse_frame<'a>(buf: &'a [u8], received_len: usize) -> (res: Option<(FrameHeader, &'a [u8])>)
    ensures
        well_framed(buf@, received_len as int) ==> {
            &&& res is Some
            &&& res->Some_0.0 == header_of(buf@)
            &&& res->Some_0.1@ == body_of(buf@, received_len as int)
        },
        !well_framed(buf@, received_len as int) ==> res is None,
{
    if received_len < PACKET_HEADER_LENGTH || received_len > buf.len() {
        return None;
    }
    let lo: u8 = buf[0];
    let hi: u8 = buf[1];
    let declared: u16 = (hi % 64) as u16 * 256 + lo as u16;
    if declared as usize != received_len {
        return None;
    }
    let header = FrameHeader { length: declared, channel: buf[2], sequence: buf[3] };
    let body = vstd::slice::slice_subrange(buf, PACKET_HEADER_LENGTH, received_len);
    Some((header, body))
}

/// Building a frame and parsing it again gives back the channel, the
/// sequence number and the body, and the length field counts the body and
/// the four header bytes.
pub proof fn lemma_parse_build_round_trip(channel: u8, sequence: u8, body: Seq<u8>)
    requires
        frame_len(body) <= PACKET_SEND_BUF_LEN,
    ensures
        frame_bytes(channel, sequence, body).len() == frame_len(body),
        well_framed(frame_bytes(channel, sequence, body), frame_len(body)),
        header_of(frame_bytes(channel, sequence, body)) == (FrameHeader {
            length: frame_len(body) as u16,
            channel,
            sequence,
        }),
        body_of(frame_bytes(channel, sequence, body), frame_len(body)) == body,
{
    let f = frame_bytes(channel, sequence, body);
    assert(f.len() == frame_len(body));
    assert(body_of(f, frame_len(body)) =~= body);
}

/// A frame that lies at the start of a longer buffer is parsed from there
/// as it was built.
pub proof fn lemma_parse_in_buffer(buf: Seq<u8>, channel: u8, sequence: u8, body: Seq<u8>)
    requires
        frame_len(body) <= PACKET_SEND_BUF_LEN,
        frame_len(body) <= buf.len(),
        buf.subrange(0, frame_len(body)) == frame_bytes(channel, sequence, body),
    ensures
        well_framed(buf, frame_len(body)),
        header_of(buf) == (FrameHeader { length: frame_len(body) as u16, channel, sequence }),
        body_of(buf, frame_len(body)) == body,
{
    let f = buf.subrange(0, frame_len(body));
    lemma_parse_build_round_trip(channel, sequence, body);
    assert(buf[0] == f[0] && buf[1] == f[1] && buf[2] == f[2] && buf[3] == f[3]);
    assert(body_of(buf, frame_len(body)) =~= body_of(f, frame_len(body)));
}

/// The four little-endian bytes of a number spell that number.
pub proof fn lemma_le_bytes_value(value: u32)
    ensures
        le_bytes(value).len() == 4,
        le_value(le_bytes(value)) == value,
{
}

} // verus!
