//! Messages travel as lines of JSON: each one is followed by a newline.
//! This module cuts lines off the bytes received and frames the lines to
//! send, through the line codec of `tokio_util`.

use bytes::BytesMut;
use tokio_util::codec::{Decoder, Encoder, LinesCodec, LinesCodecError};
use crate::feed_entry::lemma_encode_concat;
use vstd::prelude::*;
use vstd::string::*;
use vstd::utf8::*;

verus! {

/// The growable byte buffer of the `bytes` crate, which holds received
/// bytes not yet read as lines.
#[verifier::external_type_specification]
#[verifier::external_body]
pub struct ExBytesMut(BytesMut);

/// The error of the line codec.
#[verifier::external_type_specification]
#[verifier::external_body]
pub struct ExLinesCodecError(LinesCodecError);

/// The bytes a buffer holds.
pub uninterp spec fn buffer_bytes(buffer: BytesMut) -> Seq<u8>;

/// The newline byte.
pub open spec fn newline() -> u8 {
    10
}

/// The first newline of `bytes` is at `k`.
pub open spec fn first_newline_at(bytes: Seq<u8>, k: int) -> bool {
    &&& 0 <= k < bytes.len()
    &&& bytes[k] == newline()
    &&& forall|j: int| 0 <= j < k ==> bytes[j] != newline()
}

/// The bytes that carry `line`: its UTF-8 encoding and a newline.
pub open spec fn framed(line: Seq<char>) -> Seq<u8> {
    encode_utf8(line) + seq![10u8]
}

/// `bytes` holds no newline.
pub open spec fn no_newline(bytes: Seq<u8>) -> bool {
    forall|j: int| 0 <= j < bytes.len() ==> bytes[j] != newline()
}

/// `line` without the carriage return that may end it.
pub open spec fn without_carriage_return(line: Seq<u8>) -> Seq<u8> {
    if line.len() > 0 && line.last() == 13 {
        line.drop_last()
    } else {
        line
    }
}

/// What reading a line from `before` gives: nothing and an untouched buffer
/// while no newline has come; otherwise the buffer loses the line and its
/// newline, and the line, without a final carriage return, is read if it
/// is UTF-8 (`Some(Ok(..))` then holds its text) and refused if not.
pub open spec fn line_read(
    before: Seq<u8>,
    after: Seq<u8>,
    line: Option<Result<Seq<char>, ()>>,
) -> bool {
    if no_newline(before) {
        after == before && line is None
    } else {
        forall|k: int|
            first_newline_at(before, k) ==> {
                let text = without_carriage_return(before.take(k));
                &&& after == before.skip(k + 1)
                &&& if valid_utf8(text) {
                    line matches Some(Ok(s)) && encode_utf8(s) == text
                } else {
                    line == Some(Err::<Seq<char>, ()>(()))
                }
            }
    }
}

/// Cuts the first line off `buffer` with a fresh `LinesCodec`
/// (`Decoder::decode`). The codec searches the whole buffer for the first
/// newline; with none it answers nothing and leaves the buffer; with one it
/// takes the bytes up to and with it, drops the newline and a carriage
/// return before it, and answers the text, or an error when the bytes are
/// not UTF-8.
#[verifier::external_body]
fn decode_line(buffer: &mut BytesMut) -> (line: Result<Option<String>, LinesCodecError>)
    ensures
        line_read(
            buffer_bytes(*old(buffer)),
            buffer_bytes(*final(buffer)),
            match line {
                Ok(Some(s)) => Some(Ok(s@)),
                Ok(None) => None,
                Err(_) => Some(Err(())),
            },
        ),
{
    LinesCodec::new().decode(buffer)
}

/// Appends `line` and a newline to `buffer` with a `LinesCodec`
/// (`Encoder::encode`), which always succeeds; it reserves room first, which
/// fails for a buffer that would outgrow `isize::MAX` bytes.
#[verifier::external_body]
fn encode_line(line: &str, buffer: &mut BytesMut) -> (done: Result<(), LinesCodecError>)
    requires
        buffer_bytes(*old(buffer)).len() + line.spec_bytes().len() + 1 <= isize::MAX,
    ensures
        done is Ok,
        buffer_bytes(*final(buffer)) == buffer_bytes(*old(buffer)) + line.spec_bytes() + seq![
            newline(),
        ],
{
    LinesCodec::new().encode(line, buffer)
}

/// An empty buffer (`BytesMut::new`).
#[verifier::external_body]
fn empty_buffer() -> (buffer: BytesMut)
    ensures
        buffer_bytes(buffer) == Seq::<u8>::empty(),
{
    BytesMut::new()
}

/// A line that is not UTF-8.
#[derive(Debug, Clone, Copy, PartialEq, Eq, Structural)]
pub enum LineError {
    NotUtf8,
}

/// Takes the next complete line off the bytes received: `Ok(None)` while
/// none is complete.
pub fn next_line(buffer: &mut BytesMut) -> (line: Result<Option<String>, LineError>)
    ensures
        line_read(
            buffer_bytes(*old(buffer)),
            buffer_bytes(*final(buffer)),
            match line {
                Ok(Some(s)) => Some(Ok(s@)),
                Ok(None) => None,
                Err(_) => Some(Err(())),
            },
        ),
{
    match decode_line(buffer) {
        Ok(line) => Ok(line),
        Err(_) => Err(LineError::NotUtf8),
    }
}

/// The bytes that send `line`: the line and a newline.
pub fn frame_line(line: &str) -> (buffer: BytesMut)
    requires
        line.spec_bytes().len() < isize::MAX,
    ensures
        buffer_bytes(buffer) == framed(line@),
{
    let mut buffer = empty_buffer();
    let done = encode_line(line, &mut buffer);
    proof {
        assert(Seq::<u8>::empty() + line.spec_bytes() =~= line.spec_bytes());
    }
    buffer
}

/// A byte below 0x80 occurs in the encoding of a character only as the
/// encoding of that very character.
proof fn lemma_ascii_byte_of_scalar(c: char, b: u8)
    requires
        b < 0x80,
    ensures
        forall|i: int|
            0 <= i < encode_scalar(c as u32).len() && #[trigger] encode_scalar(c as u32)[i] == b
                ==> c as u32 == b as u32,
{
    let v: u32 = c as u32;
    char_is_scalar(c);
    if has_width_1_encoding(v) {
        assert((v & 0x7F) as u8 == b ==> v == b as u32) by (bit_vector)
            requires
                v <= 0x7F,
        ;
    } else {
        assert(0xC0u8 | ((v >> 6) & 0x1F) as u8 >= 0x80) by (bit_vector);
        assert(0xE0u8 | ((v >> 12) & 0x0F) as u8 >= 0x80) by (bit_vector);
        assert(0xF0u8 | ((v >> 18) & 0x7) as u8 >= 0x80) by (bit_vector);
        assert(0x80u8 | (v & 0x3F) as u8 >= 0x80) by (bit_vector);
        assert(0x80u8 | ((v >> 6) & 0x3F) as u8 >= 0x80) by (bit_vector);
        assert(0x80u8 | ((v >> 12) & 0x3F) as u8 >= 0x80) by (bit_vector);
    }
}

/// The encoding of characters none of which is the ASCII character `b`
/// holds no byte `b`.
proof fn lemma_encoding_avoids_byte(chars: Seq<char>, b: u8)
    requires
        b < 0x80,
        forall|i: int| 0 <= i < chars.len() ==> chars[i] as u32 != b as u32,
    ensures
        forall|j: int| 0 <= j < encode_utf8(chars).len() ==> encode_utf8(chars)[j] != b,
    decreases chars.len(),
{
    if chars.len() > 0 {
        lemma_ascii_byte_of_scalar(chars[0], b);
        lemma_encoding_avoids_byte(chars.drop_first(), b);
        let head = encode_scalar(chars[0] as u32);
        let tail = encode_utf8(chars.drop_first());
        assert(encode_utf8(chars) == head + tail);
        assert forall|j: int| 0 <= j < encode_utf8(chars).len() implies encode_utf8(chars)[j] != b by {
            if j < head.len() {
                assert(encode_utf8(chars)[j] == head[j]);
            } else {
                assert(encode_utf8(chars)[j] == tail[j - head.len()]);
            }
        }
    }
}

/// Reading back what was framed gives the line: the bytes that frame a line
/// with no newline in it and no carriage return at its end, followed by any
/// further bytes, read as that line, and what is left is the further bytes.
pub proof fn lemma_framed_line_reads_back(
    line: Seq<char>,
    rest: Seq<u8>,
    after: Seq<u8>,
    read: Option<Result<Seq<char>, ()>>,
)
    requires
        forall|i: int| 0 <= i < line.len() ==> line[i] != '\n',
        line.len() == 0 || line.last() != '\r',
        line_read(framed(line) + rest, after, read),
    ensures
        read == Some(Ok::<Seq<char>, ()>(line)),
        after == rest,
{
    let enc = encode_utf8(line);
    let bytes = enc + seq![10u8] + rest;
    let k: int = enc.len() as int;
    assert forall|i: int| 0 <= i < line.len() implies line[i] as u32 != 10u8 as u32 by {
        char_u32_cast(line[i], line[i] as u32);
        char_u32_cast('\n', '\n' as u32);
    }
    lemma_encoding_avoids_byte(line, 10);
    assert(first_newline_at(bytes, k)) by {
        assert forall|j: int| 0 <= j < k implies bytes[j] != newline() by {
            assert(bytes[j] == enc[j]);
        }
    }
    assert(!no_newline(bytes));
    assert(bytes.take(k) =~= enc);
    assert(bytes.skip(k + 1) =~= rest);
    if line.len() > 0 {
        let init = line.drop_last();
        let last = line.last();
        assert(line =~= init + seq![last]);
        lemma_encode_concat(init, seq![last]);
        assert(seq![last].drop_first() =~= Seq::<char>::empty());
        assert(encode_utf8(Seq::<char>::empty()) =~= Seq::<u8>::empty());
        assert(seq![last][0] == last);
        assert(encode_utf8(seq![last]) =~= encode_scalar(last as u32));
        lemma_ascii_byte_of_scalar(last, 13);
        char_is_scalar(last);
        char_u32_cast(last, last as u32);
        char_u32_cast('\r', '\r' as u32);
        assert(encode_scalar(last as u32).len() > 0);
        assert(enc.last() == encode_scalar(last as u32).last());
        assert(enc.last() != 13);
    }
    assert(without_carriage_return(enc) == enc);
    encode_utf8_valid_utf8(line);
    if let Some(Ok(s)) = read {
        encode_utf8_decode_utf8(s);
        encode_utf8_decode_utf8(line);
    }
}

/// Bytes without a newline are no line yet: reading gives nothing and
/// leaves them all for later.
pub proof fn lemma_partial_line_waits(
    before: Seq<u8>,
    after: Seq<u8>,
    read: Option<Result<Seq<char>, ()>>,
)
    requires
        forall|j: int| 0 <= j < before.len() ==> before[j] != 10u8,
        line_read(before, after, read),
    ensures
        read is None,
        after == before,
{
}

} // verus!
