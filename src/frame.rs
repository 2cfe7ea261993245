//! Length-prefixed framing: a 4-byte big-endian byte count followed by the
//! payload's bytes.
use vstd::prelude::*;
use vstd::string::StringSliceAdditionalSpecFns;
use vstd::utf8::{decode_utf8, encode_utf8, is_ascii_chars, valid_utf8};
use ascii::AsAsciiStr;
use crate::error::MessageError;
use crate::text::string_from_utf8;

verus! {

/// The largest payload that a 4-byte length prefix can announce.
pub const MAX_FRAME_LEN: u64 = 0xffff_ffff;

/// The unsigned big-endian number held in the first four bytes.
pub open spec fn be32(b: Seq<u8>) -> nat
    recommends
        b.len() >= 4,
{
    b[0] as nat * 16777216 + b[1] as nat * 65536 + b[2] as nat * 256 + b[3] as nat
}

/// The four big-endian bytes of a number below 2^32.
pub open spec fn be32_bytes(n: nat) -> Seq<u8> {
    seq![
        (n / 16777216) as u8,
        (n % 16777216 / 65536) as u8,
        (n % 65536 / 256) as u8,
        (n % 256) as u8,
    ]
}

/// Text that can travel in a frame: 7-bit characters, and few enough of
/// them for the length prefix.
pub open spec fn framable(text: Seq<char>) -> bool {
    is_ascii_chars(text) && text.len() <= MAX_FRAME_LEN
}

/// The frame that carries a text: its byte count, then its bytes.
pub open spec fn frame_of(text: Seq<char>) -> Seq<u8> {
    be32_bytes(encode_utf8(text).len()) + encode_utf8(text)
}

/// What reading a frame off the front of a buffer gives: the announced
/// length, the payload text and the bytes after the frame. Where the buffer
/// holds no complete frame yet, the text is empty and the buffer comes back
/// whole; the length is the announced one once four bytes are there, else 0.
pub open spec fn read_msg_spec(buf: Seq<u8>) -> Result<(nat, Seq<char>, Seq<u8>), MessageError> {
    if buf.len() < 4 {
        Ok((0, Seq::empty(), buf))
    } else if buf.len() - 4 < be32(buf) {
        Ok((be32(buf), Seq::empty(), buf))
    } else {
        let n = be32(buf);
        let payload = buf.subrange(4, 4 + n as int);
        if valid_utf8(payload) {
            Ok((n, decode_utf8(payload), buf.subrange(4 + n as int, buf.len() as int)))
        } else {
            Err(MessageError::Framing)
        }
    }
}

/// The mathematical value of what `read_msg` returns.
pub open spec fn read_view(r: Result<(usize, String, Vec<u8>), MessageError>) -> Result<
    (nat, Seq<char>, Seq<u8>),
    MessageError,
> {
    match r {
        Ok((n, t, rest)) => Ok((n as nat, t@, rest@)),
        Err(e) => Err(e),
    }
}

/// Relies on ascii's `AsAsciiStr::as_ascii_str` for `str`, which succeeds
/// exactly when every byte is below 128, and on `AsciiStr::as_bytes`, which
/// gives those bytes back.
#[verifier::external_body]
fn ascii_bytes(s: &str) -> (r: Option<Vec<u8>>)
    ensures
        r is Some <==> is_ascii_chars(s@),
        r matches Some(b) ==> b@ == s.spec_bytes(),
{
    s.as_ascii_str().ok().map(|a| a.as_bytes().to_vec())
}

proof fn lemma_be32_bytes(n: nat)
    requires
        n <= MAX_FRAME_LEN,
    ensures
        be32(be32_bytes(n)) == n,
{
    let b = be32_bytes(n);
    assert(n == 16777216 * (n / 16777216) + n % 16777216);
    assert(n % 16777216 == 65536 * (n % 16777216 / 65536) + n % 16777216 % 65536);
    assert(n % 16777216 % 65536 == n % 65536) by (nonlinear_arith);
    assert(n % 65536 == 256 * (n % 65536 / 256) + n % 65536 % 256);
    assert(n % 65536 % 256 == n % 256) by (nonlinear_arith);
    assert(b[0] as nat == n / 16777216);
    assert(b[1] as nat == n % 16777216 / 65536);
    assert(b[2] as nat == n % 65536 / 256);
    assert(b[3] as nat == n % 256);
}

/// Reading a frame off a buffer that starts with the frame of a framable
/// text gives that text, its length, and exactly the bytes that follow.
pub proof fn lemma_frame_then_rest(text: Seq<char>, rest: Seq<u8>)
    requires
        framable(text),
    ensures
        read_msg_spec(frame_of(text) + rest) == Ok::<(nat, Seq<char>, Seq<u8>), MessageError>((text.len(), text, rest)),
{
    vstd::utf8::is_ascii_chars_encode_utf8(text);
    vstd::utf8::encode_utf8_valid_utf8(text);
    vstd::utf8::encode_utf8_decode_utf8(text);
    let bytes = encode_utf8(text);
    let buf = frame_of(text) + rest;
    lemma_be32_bytes(bytes.len());
    assert(be32(buf) == be32(be32_bytes(bytes.len())));
    assert(buf.subrange(4, 4 + bytes.len() as int) =~= bytes);
    assert(buf.subrange(4 + bytes.len() as int, buf.len() as int) =~= rest);
}

/// Frame round trip: the frame of a framable text reads back as its length,
/// the text itself and nothing after it.
pub proof fn lemma_frame_round_trip(text: Seq<char>)
    requires
        framable(text),
    ensures
        read_msg_spec(frame_of(text)) == Ok::<(nat, Seq<char>, Seq<u8>), MessageError>((text.len(), text, Seq::empty())),
{
    lemma_frame_then_rest(text, Seq::empty());
    assert(frame_of(text) + Seq::empty() =~= frame_of(text));
}

/// Pipelining: two frames sent back to back come out one after the other,
/// in order, when each read is fed the bytes that the previous one left.
pub proof fn lemma_frames_in_order(first: Seq<char>, second: Seq<char>)
    requires
        framable(first),
        framable(second),
    ensures
        read_msg_spec(frame_of(first) + frame_of(second)) == Ok::<(nat, Seq<char>, Seq<u8>), MessageError>(
            (first.len(), first, frame_of(second)),
        ),
        read_msg_spec(frame_of(second)) == Ok::<(nat, Seq<char>, Seq<u8>), MessageError>(
            (second.len(), second, Seq::empty()),
        ),
{
    lemma_frame_then_rest(first, frame_of(second));
    lemma_frame_round_trip(second);
}

/// Frames a payload: the 4-byte big-endian count of its bytes, then the
/// bytes. Text outside the 7-bit character set, or too long for the prefix,
/// is refused.
pub fn make_message(msg: &str) -> (r: Result<Vec<u8>, MessageError>)
    ensures
        framable(msg@) ==> (r matches Ok(b) && b@ == frame_of(msg@)),
        !framable(msg@) ==> r == Err::<Vec<u8>, _>(MessageError::Encoding),
{
    let bytes = match ascii_bytes(msg) {
        Some(b) => b,
        None => {
            return Err(MessageError::Encoding);
        },
    };
    proof {
        vstd::utf8::is_ascii_chars_encode_utf8(msg@);
    }
    if bytes.len() as u64 > MAX_FRAME_LEN {
        return Err(MessageError::Encoding);
    }
    let n: u32 = bytes.len() as u32;
    let mut out: Vec<u8> = Vec::new();
    out.push((n / 16777216) as u8);
    out.push((n % 16777216 / 65536) as u8);
    out.push((n % 65536 / 256) as u8);
    out.push((n % 256) as u8);
    let mut i: usize = 0;
    while i < bytes.len()
        invariant
            0 <= i <= bytes@.len(),
            out@ == be32_bytes(n as nat) + bytes@.subrange(0, i as int),
        decreases bytes@.len() - i,
    {
        out.push(bytes[i]);
        i = i + 1;
        assert(out@ =~= be32_bytes(n as nat) + bytes@.subrange(0, i as int));
    }
    assert(bytes@.subrange(0, i as int) =~= bytes@);
    Ok(out)
}

/// Reads one frame off the front of a buffer. Gives the announced length,
/// the payload text and the bytes that follow the frame. Where the buffer
/// does not yet hold a whole frame, the text is empty and the buffer comes
/// back unchanged, so that the caller can wait for more bytes. A payload
/// that is not valid UTF-8 is an error.
pub fn read_msg(buf: &[u8]) -> (r: Result<(usize, String, Vec<u8>), MessageError>)
    ensures
        read_view(r) == read_msg_spec(buf@),
        buf@.len() < 4 || buf@.len() < 4 + be32(buf@) ==> (r matches Ok((_, t, rest)) && t@.len()
            == 0 && rest@ == buf@),
{
    if buf.len() < 4 {
        let whole = copy_range(buf, 0, buf.len());
        assert(whole@ =~= buf@);
        return Ok((0, String::new(), whole));
    }
    let size32: u32 = (buf[0] as u32) * 16777216 + (buf[1] as u32) * 65536 + (buf[2] as u32) * 256
        + (buf[3] as u32);
    let size: usize = size32 as usize;
    if buf.len() - 4 >= size {
        let payload = copy_range(buf, 4, 4 + size);
        let rest = copy_range(buf, 4 + size, buf.len());
        match string_from_utf8(payload) {
            Some(text) => Ok((size, text, rest)),
            None => Err(MessageError::Framing),
        }
    } else {
        let whole = copy_range(buf, 0, buf.len());
        assert(whole@ =~= buf@);
        Ok((size, String::new(), whole))
    }
}

/// The bytes of `buf` from `start` up to `end`, in a fresh vector.
fn copy_range(buf: &[u8], start: usize, end: usize) -> (r: Vec<u8>)
    requires
        start <= end <= buf@.len(),
    ensures
        r@ == buf@.subrange(start as int, end as int),
{
    let mut out: Vec<u8> = Vec::new();
    let mut i: usize = start;
    while i < end
        invariant
            start <= i <= end,
            end <= buf@.len(),
            out@ == buf@.subrange(start as int, i as int),
        decreases end - i,
    {
        out.push(buf[i]);
        i = i + 1;
        assert(out@ =~= buf@.subrange(start as int, i as int));
    }
    out
}

} // verus!
