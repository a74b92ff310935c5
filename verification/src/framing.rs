//! Frames on the wire: a length of four bytes, most significant first, and
//! then exactly that many bytes of payload.

use vstd::prelude::*;

verus! {

/// The number of bytes in front of each payload.
pub const HEADER_LEN: usize = 4;

/// The longest payload that a frame can carry.
pub const MAX_PAYLOAD_LEN: usize = 0xFFFF_FFFF;

/// The four bytes that announce a payload of `len` bytes.
pub open spec fn header_of(len: u32) -> Seq<u8> {
    seq![
        (len / 0x100_0000) as u8,
        (len / 0x1_0000 % 0x100) as u8,
        (len / 0x100 % 0x100) as u8,
        (len % 0x100) as u8,
    ]
}

/// The length that the first four bytes of `header` announce.
pub open spec fn length_of(header: Seq<u8>) -> u32 {
    (header[0] * 0x100_0000 + header[1] * 0x1_0000 + header[2] * 0x100 + header[3]) as u32
}

/// The frame that carries `payload`.
pub open spec fn framed(payload: Seq<u8>) -> Seq<u8> {
    header_of(payload.len() as u32) + payload
}

/// What a reader makes of the bytes received so far: the payload of the
/// first frame and the number of bytes that the frame took, or nothing
/// while the frame is incomplete.
pub open spec fn unframed(received: Seq<u8>) -> Option<(Seq<u8>, int)> {
    if received.len() < HEADER_LEN {
        None
    } else {
        let len = length_of(received) as int;
        if received.len() - HEADER_LEN < len {
            None
        } else {
            Some((received.subrange(HEADER_LEN as int, HEADER_LEN + len), HEADER_LEN + len))
        }
    }
}

/// Writes a payload length as the four bytes of a frame header.
pub fn encode_length(len: u32) -> (header: [u8; 4])
    ensures
        header@ == header_of(len),
{
    let header = [
        (len / 0x100_0000) as u8,
        (len / 0x1_0000 % 0x100) as u8,
        (len / 0x100 % 0x100) as u8,
        (len % 0x100) as u8,
    ];
    assert(header@ =~= header_of(len));
    header
}

/// Reads the payload length off the four bytes of a frame header.
pub fn decode_length(header: &[u8; 4]) -> (len: u32)
    ensures
        len == length_of(header@),
{
    let b0: u32 = header[0] as u32;
    let b1: u32 = header[1] as u32;
    let b2: u32 = header[2] as u32;
    let b3: u32 = header[3] as u32;
    b0 * 0x100_0000 + b1 * 0x1_0000 + b2 * 0x100 + b3
}

/// Puts `payload` into a frame. A payload may be empty; it must fit the
/// length field.
pub fn encode_frame(payload: &[u8]) -> (frame: Vec<u8>)
    requires
        payload@.len() <= MAX_PAYLOAD_LEN,
    ensures
        frame@ == framed(payload@),
{
    let header = encode_length(payload.len() as u32);
    let mut frame: Vec<u8> = Vec::new();
    frame.push(header[0]);
    frame.push(header[1]);
    frame.push(header[2]);
    frame.push(header[3]);
    let mut i: usize = 0;
    while i < payload.len()
        invariant
            i <= payload@.len(),
            frame@ == header@ + payload@.subrange(0, i as int),
        decreases payload@.len() - i,
    {
        frame.push(payload[i]);
        assert(payload@.subrange(0, i + 1) == payload@.subrange(0, i as int).push(
            payload@[i as int],
        ));
        i += 1;
    }
    assert(payload@.subrange(0, i as int) == payload@);
    frame
}

/// Takes the first frame off the bytes received so far: its payload, and
/// the number of bytes it took. `None` while the frame is incomplete, as
/// it is after a short read.
pub fn decode_frame(received: &[u8]) -> (frame: Option<(Vec<u8>, usize)>)
    ensures
        match (frame, unframed(received@)) {
            (Some((payload, taken)), Some((spec_payload, spec_taken))) => payload@ == spec_payload
                && taken == spec_taken,
            (None, None) => true,
            _ => false,
        },
{
    if received.len() < HEADER_LEN {
        return None;
    }
    let header = [received[0], received[1], received[2], received[3]];
    assert(length_of(header@) == length_of(received@));
    let len = decode_length(&header) as usize;
    let total = received.len();
    if total - HEADER_LEN < len {
        return None;
    }
    let mut payload: Vec<u8> = Vec::new();
    let mut i: usize = 0;
    while i < len
        invariant
            i <= len,
            HEADER_LEN + len <= total == received@.len(),
            payload@ == received@.subrange(HEADER_LEN as int, HEADER_LEN + i),
        decreases len - i,
    {
        payload.push(received[HEADER_LEN + i]);
        assert(received@.subrange(HEADER_LEN as int, HEADER_LEN + i + 1) == received@.subrange(
            HEADER_LEN as int,
            HEADER_LEN + i,
        ).push(received@[HEADER_LEN + i]));
        i += 1;
    }
    Some((payload, HEADER_LEN + len))
}

/// A length written as a header reads back as itself.
pub proof fn law_length_round_trip(len: u32)
    ensures
        header_of(len).len() == HEADER_LEN,
        length_of(header_of(len)) == len,
{
}

/// A payload that fits the length field comes back out of its frame
/// unchanged, whatever follows the frame on the wire.
pub proof fn law_frame_round_trip(payload: Seq<u8>, rest: Seq<u8>)
    requires
        payload.len() <= MAX_PAYLOAD_LEN,
    ensures
        unframed(framed(payload) + rest) == Some((payload, HEADER_LEN + payload.len())),
        unframed(framed(payload)) == Some((payload, HEADER_LEN + payload.len())),
{
    let len = payload.len() as u32;
    law_length_round_trip(len);
    let frame = framed(payload);
    let wire = frame + rest;
    assert(frame.len() == HEADER_LEN + payload.len());
    assert(wire[0] == header_of(len)[0] && wire[1] == header_of(len)[1] && wire[2] == header_of(
        len,
    )[2] && wire[3] == header_of(len)[3]);
    assert(frame[0] == header_of(len)[0] && frame[1] == header_of(len)[1] && frame[2]
        == header_of(len)[2] && frame[3] == header_of(len)[3]);
    assert(length_of(wire) == len);
    assert(length_of(frame) == len);
    assert(wire.subrange(HEADER_LEN as int, HEADER_LEN + len) =~= payload);
    assert(frame.subrange(HEADER_LEN as int, HEADER_LEN + len) =~= payload);
}

/// A frame is never mistaken for complete before its last byte arrived.
pub proof fn law_short_read_is_incomplete(payload: Seq<u8>, received: int)
    requires
        payload.len() <= MAX_PAYLOAD_LEN,
        0 <= received < HEADER_LEN + payload.len(),
    ensures
        unframed(framed(payload).subrange(0, received)) is None,
{
    let len = payload.len() as u32;
    law_length_round_trip(len);
    let frame = framed(payload);
    let part = frame.subrange(0, received);
    if received >= HEADER_LEN {
        assert(part[0] == header_of(len)[0] && part[1] == header_of(len)[1] && part[2]
            == header_of(len)[2] && part[3] == header_of(len)[3]);
        assert(length_of(part) == len);
    }
}

} // verus!
