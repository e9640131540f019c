//! Wire codec: every message on the wire is one frame, a 4-byte big-endian
//! payload length followed by exactly that many payload bytes. A frame whose
//! declared length exceeds the configured maximum is rejected before any of
//! the declared bytes are consumed.

use vstd::prelude::*;

verus! {

/// Request-scoped protocol failures: the offending frame is discarded and
/// the connection goes on.
#[derive(Clone, Copy, Debug, PartialEq, Eq)]
pub enum ProtocolError {
    /// The frame header declared a payload longer than the configured maximum.
    FrameTooLong,
}

/// The four big-endian bytes of a 32-bit length.
pub open spec fn spec_u32_to_be_bytes(x: u32) -> Seq<u8> {
    seq![
        ((x >> 24) & 0xff) as u8,
        ((x >> 16) & 0xff) as u8,
        ((x >> 8) & 0xff) as u8,
        (x & 0xff) as u8,
    ]
}

/// The 32-bit length read from four big-endian bytes.
pub open spec fn spec_u32_from_be_bytes(s: Seq<u8>) -> u32
    recommends
        s.len() == 4,
{
    ((s[0] as u32) << 24) | ((s[1] as u32) << 16) | ((s[2] as u32) << 8) | (s[3] as u32)
}

/// The on-wire form of one frame carrying `payload`.
pub open spec fn spec_frame(payload: Seq<u8>) -> Seq<u8>
    recommends
        payload.len() <= u32::MAX,
{
    spec_u32_to_be_bytes(payload.len() as u32) + payload
}

pub proof fn lemma_u32_be_bytes_round_trip(x: u32)
    ensures
        spec_u32_to_be_bytes(x).len() == 4,
        spec_u32_from_be_bytes(spec_u32_to_be_bytes(x)) == x,
{
    assert({
        &&& (x >> 24) & 0xff < 256
        &&& (x >> 16) & 0xff < 256
        &&& (x >> 8) & 0xff < 256
        &&& x & 0xff < 256
    }) by (bit_vector);
    assert(x == (((x >> 24) & 0xff) << 24) | (((x >> 16) & 0xff) << 16) | (((x >> 8) & 0xff) << 8)
        | (x & 0xff)) by (bit_vector);
}

/// The four big-endian bytes of `x`, computed.
pub fn u32_to_be_bytes(x: u32) -> (s: Vec<u8>)
    ensures
        s@ == spec_u32_to_be_bytes(x),
{
    proof {
        assert({
            &&& (x >> 24) & 0xff < 256
            &&& (x >> 16) & 0xff < 256
            &&& (x >> 8) & 0xff < 256
            &&& x & 0xff < 256
        }) by (bit_vector);
    }
    let mut s: Vec<u8> = Vec::new();
    s.push(((x >> 24) & 0xff) as u8);
    s.push(((x >> 16) & 0xff) as u8);
    s.push(((x >> 8) & 0xff) as u8);
    s.push((x & 0xff) as u8);
    proof {
        assert(s@ =~= spec_u32_to_be_bytes(x));
    }
    s
}

/// Reads a frame header: the declared payload length, or `FrameTooLong` when
/// it exceeds `max_len`. Used by a connection after the four header bytes
/// have been received, before any payload byte is read.
pub fn decode_len(b0: u8, b1: u8, b2: u8, b3: u8, max_len: u32) -> (r: Result<u32, ProtocolError>)
    ensures
        ({
            let n = spec_u32_from_be_bytes(seq![b0, b1, b2, b3]);
            if n <= max_len {
                r == Ok::<u32, ProtocolError>(n)
            } else {
                r == Err::<u32, ProtocolError>(ProtocolError::FrameTooLong)
            }
        }),
{
    let n: u32 = ((b0 as u32) << 24) | ((b1 as u32) << 16) | ((b2 as u32) << 8) | (b3 as u32);
    if n <= max_len {
        Ok(n)
    } else {
        Err(ProtocolError::FrameTooLong)
    }
}

/// Encodes one frame: the payload's length as four big-endian bytes, then
/// the payload itself.
pub fn encode_frame(payload: &Vec<u8>) -> (r: Vec<u8>)
    requires
        payload@.len() <= u32::MAX,
    ensures
        r@ == spec_frame(payload@),
{
    let n: u32 = payload.len() as u32;
    let mut r = u32_to_be_bytes(n);
    let mut i: usize = 0;
    while i < payload.len()
        invariant
            i <= payload@.len(),
            payload@.len() <= u32::MAX,
            r@ == spec_u32_to_be_bytes(payload@.len() as u32) + payload@.take(i as int),
        decreases payload@.len() - i,
    {
        r.push(payload[i]);
        proof {
            assert(payload@.take(i + 1) =~= payload@.take(i as int).push(payload@[i as int]));
            assert(r@ =~= spec_u32_to_be_bytes(payload@.len() as u32) + payload@.take(i + 1));
        }
        i = i + 1;
    }
    proof {
        assert(payload@.take(payload@.len() as int) =~= payload@);
    }
    r
}

/// What decoding a buffer yields: one whole frame and how many bytes it took,
/// a request for more bytes, or a rejection of an oversize declaration.
pub enum FrameDecode {
    Frame { payload: Vec<u8>, consumed: usize },
    Incomplete,
    TooLong,
}

/// Ghost counterpart of `FrameDecode`.
pub enum SpecFrameDecode {
    Frame { payload: Seq<u8>, consumed: int },
    Incomplete,
    TooLong,
}

/// What `decode_frame` yields on `buf`: the payload of the first frame when
/// `buf` starts with a whole one, `Incomplete` when more bytes are needed,
/// and `TooLong` when the header declares more than `max_len` bytes --
/// decided on the header alone, whatever follows it.
pub open spec fn spec_decode_frame(buf: Seq<u8>, max_len: u32) -> SpecFrameDecode {
    if buf.len() < 4 {
        SpecFrameDecode::Incomplete
    } else {
        let n = spec_u32_from_be_bytes(buf.take(4)) as int;
        if n > max_len {
            SpecFrameDecode::TooLong
        } else if buf.len() < 4 + n {
            SpecFrameDecode::Incomplete
        } else {
            SpecFrameDecode::Frame { payload: buf.subrange(4, 4 + n), consumed: 4 + n }
        }
    }
}

/// Decodes the first frame of `buf`.
pub fn decode_frame(buf: &Vec<u8>, max_len: u32) -> (r: FrameDecode)
    ensures
        ({
            let d = spec_decode_frame(buf@, max_len);
            &&& d is Incomplete ==> r is Incomplete
            &&& d is TooLong ==> r is TooLong
            &&& d matches SpecFrameDecode::Frame { payload, consumed } ==> (r matches
                FrameDecode::Frame { payload: p, consumed: c } && p@ == payload && c == consumed)
        }),
{
    if buf.len() < 4 {
        return FrameDecode::Incomplete;
    }
    let n32: u32 = match decode_len(buf[0], buf[1], buf[2], buf[3], max_len) {
        Ok(n) => n,
        Err(_) => {
            proof {
                assert(buf@.take(4) =~= seq![buf@[0], buf@[1], buf@[2], buf@[3]]);
            }
            return FrameDecode::TooLong;
        },
    };
    proof {
        assert(buf@.take(4) =~= seq![buf@[0], buf@[1], buf@[2], buf@[3]]);
    }
    let n = n32 as usize;
    if buf.len() - 4 < n {
        return FrameDecode::Incomplete;
    }
    let end: usize = 4 + n;
    let mut payload: Vec<u8> = Vec::new();
    let mut j: usize = 4;
    while j < end
        invariant
            4 <= j <= end,
            end == 4 + n,
            end <= buf@.len(),
            payload@ == buf@.subrange(4, j as int),
        decreases end - j,
    {
        payload.push(buf[j]);
        proof {
            assert(buf@.subrange(4, j + 1) =~= buf@.subrange(4, j as int).push(buf@[j as int]));
        }
        j = j + 1;
    }
    FrameDecode::Frame { payload, consumed: end }
}

/// Law: decoding an encoded frame gives the payload back -- for every payload
/// within the configured maximum length, the frame `encode_frame` produces
/// decodes to exactly that payload, consuming the whole frame.
pub proof fn lemma_frame_round_trip(payload: Seq<u8>, max_len: u32)
    requires
        payload.len() <= max_len,
    ensures
        spec_decode_frame(spec_frame(payload), max_len) == (SpecFrameDecode::Frame {
            payload,
            consumed: 4 + payload.len() as int,
        }),
{
    let f = spec_frame(payload);
    lemma_u32_be_bytes_round_trip(payload.len() as u32);
    assert(f.take(4) =~= spec_u32_to_be_bytes(payload.len() as u32));
    assert(f.subrange(4, 4 + payload.len() as int) =~= payload);
}

/// Law: a frame whose header declares a length over the maximum is rejected,
/// however many of the declared bytes are present.
pub proof fn lemma_oversize_frame_rejected(buf: Seq<u8>, max_len: u32)
    requires
        buf.len() >= 4,
        spec_u32_from_be_bytes(buf.take(4)) > max_len,
    ensures
        spec_decode_frame(buf, max_len) is TooLong,
{
}

} // verus!
