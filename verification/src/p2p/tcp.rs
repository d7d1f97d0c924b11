//! Frames on a TCP stream: every message travels as four bytes that give its
//! length, most significant byte first, followed by the message itself.

use vstd::prelude::*;

verus! {

/// The number of bytes in front of every message.
pub const PREFIX_LEN: usize = 4;

/// The longest to wait for a peer to take a connection, in milliseconds.
pub const CONNECT_TIMEOUT_MS: u64 = 5_000;

/// The four bytes that announce a message of `len` bytes, most significant
/// byte first.
pub open spec fn length_prefix(len: u32) -> Seq<u8> {
    seq![
        ((len / 0x100_0000) % 0x100) as u8,
        ((len / 0x1_0000) % 0x100) as u8,
        ((len / 0x100) % 0x100) as u8,
        (len % 0x100) as u8,
    ]
}

/// The length that four bytes announce.
pub open spec fn announced_length(prefix: Seq<u8>) -> nat
    recommends
        prefix.len() == 4,
{
    (prefix[0] * 0x100_0000 + prefix[1] * 0x1_0000 + prefix[2] * 0x100 + prefix[3]) as nat
}

/// The length of a message as a frame can announce it: a length that does not
/// fit in 32 bits is cut to its low 32 bits.
pub open spec fn wire_length(len: nat) -> u32 {
    (len % 0x1_0000_0000) as u32
}

proof fn lemma_length_from_bytes(n: u32)
    ensures
        ((n / 0x100_0000) % 0x100) * 0x100_0000 + ((n / 0x1_0000) % 0x100) * 0x1_0000 + ((n
            / 0x100) % 0x100) * 0x100 + n % 0x100 == n,
{
    assert(((n / 0x100_0000) % 0x100) * 0x100_0000 + ((n / 0x1_0000) % 0x100) * 0x1_0000 + ((n
        / 0x100) % 0x100) * 0x100 + n % 0x100 == n) by (bit_vector);
}

proof fn lemma_bytes_from_length(b0: u32, b1: u32, b2: u32, b3: u32)
    requires
        b0 < 0x100,
        b1 < 0x100,
        b2 < 0x100,
        b3 < 0x100,
    ensures
        b0 * 0x100_0000 + b1 * 0x1_0000 + b2 * 0x100 + b3 <= u32::MAX,
        ({
            let n = (b0 * 0x100_0000 + b1 * 0x1_0000 + b2 * 0x100 + b3) as u32;
            &&& (n / 0x100_0000) % 0x100 == b0
            &&& (n / 0x1_0000) % 0x100 == b1
            &&& (n / 0x100) % 0x100 == b2
            &&& n % 0x100 == b3
        }),
{
    let n = (b0 * 0x100_0000 + b1 * 0x1_0000 + b2 * 0x100 + b3) as u32;
    assert(b0 * 0x100_0000 + b1 * 0x1_0000 + b2 * 0x100 + b3 <= u32::MAX);
    assert((n / 0x100_0000) % 0x100 == b0 && (n / 0x1_0000) % 0x100 == b1 && (n / 0x100) % 0x100
        == b2 && n % 0x100 == b3) by (bit_vector)
        requires
            b0 < 0x100,
            b1 < 0x100,
            b2 < 0x100,
            b3 < 0x100,
            n == b0 * 0x100_0000 + b1 * 0x1_0000 + b2 * 0x100 + b3,
    ;
}

/// A message as it travels: its length, then its bytes.
pub open spec fn frame_spec(payload: Seq<u8>) -> Seq<u8> {
    length_prefix(wire_length(payload.len())) + payload
}

/// Whether `buffer` begins with a whole frame.
pub open spec fn holds_frame(buffer: Seq<u8>) -> bool {
    buffer.len() >= 4 && buffer.len() - 4 >= announced_length(buffer.take(4))
}

/// The message of the frame that `buffer` begins with.
pub open spec fn first_payload(buffer: Seq<u8>) -> Seq<u8>
    recommends
        holds_frame(buffer),
{
    buffer.subrange(4, 4 + announced_length(buffer.take(4)) as int)
}

/// The four bytes to write in front of a message of `len` bytes.
pub fn encode_length(len: usize) -> (prefix: [u8; 4])
    ensures
        prefix@ == length_prefix(wire_length(len as nat)),
{
    let n: u32 = ((len as u64) % 0x1_0000_0000) as u32;
    let prefix: [u8; 4] = [
        ((n / 0x100_0000) % 0x100) as u8,
        ((n / 0x1_0000) % 0x100) as u8,
        ((n / 0x100) % 0x100) as u8,
        (n % 0x100) as u8,
    ];
    assert(prefix@ =~= length_prefix(n));
    prefix
}

/// The length of the message that follows the four bytes `prefix`.
pub fn decode_length(prefix: &[u8; 4]) -> (len: u32)
    ensures
        len == announced_length(prefix@),
        length_prefix(len) == prefix@,
{
    proof {
        lemma_bytes_from_length(
            prefix[0] as u32,
            prefix[1] as u32,
            prefix[2] as u32,
            prefix[3] as u32,
        );
    }
    let len: u32 = (prefix[0] as u32) * 0x100_0000 + (prefix[1] as u32) * 0x1_0000 + (
    prefix[2] as u32) * 0x100 + (prefix[3] as u32);
    assert(length_prefix(len) =~= prefix@);
    len
}

/// The bytes to put on the wire for one message.
pub fn encode_frame(payload: &[u8]) -> (frame: Vec<u8>)
    ensures
        frame@ == frame_spec(payload@),
{
    let prefix = encode_length(payload.len());
    let mut frame: Vec<u8> = Vec::new();
    frame.push(prefix[0]);
    frame.push(prefix[1]);
    frame.push(prefix[2]);
    frame.push(prefix[3]);
    assert(frame@ =~= length_prefix(wire_length(payload@.len())));
    frame.extend_from_slice(payload);
    assert(frame@ =~= frame_spec(payload@));
    frame
}

/// Takes the first frame off `buffer`: its message and the number of bytes the
/// frame takes up, or nothing while the frame is not there whole.
pub fn decode_frame(buffer: &[u8]) -> (r: Option<(Vec<u8>, usize)>)
    ensures
        r is Some <==> holds_frame(buffer@),
        r matches Some(found) ==> found.0@ == first_payload(buffer@) && found.1 == 4
            + found.0@.len(),
{
    if buffer.len() < 4 {
        return None;
    }
    let prefix: [u8; 4] = [buffer[0], buffer[1], buffer[2], buffer[3]];
    assert(prefix@ =~= buffer@.take(4));
    let len = decode_length(&prefix) as usize;
    if buffer.len() - 4 < len {
        return None;
    }
    let payload = vstd::slice::slice_to_vec(vstd::slice::slice_subrange(buffer, 4, 4 + len));
    Some((payload, 4 + len))
}

/// A message of less than 2^32 bytes comes out of its frame as it went in,
/// whatever follows the frame.
pub proof fn lemma_frame_round_trip(payload: Seq<u8>, rest: Seq<u8>)
    requires
        payload.len() < 0x1_0000_0000,
    ensures
        holds_frame(frame_spec(payload) + rest),
        first_payload(frame_spec(payload) + rest) == payload,
        announced_length(length_prefix(wire_length(payload.len()))) == payload.len(),
{
    let buffer = frame_spec(payload) + rest;
    let n = wire_length(payload.len());
    lemma_length_from_bytes(n);
    assert(buffer.take(4) =~= length_prefix(n));
    assert(buffer.subrange(4, 4 + payload.len() as int) =~= payload);
}

} // verus!
