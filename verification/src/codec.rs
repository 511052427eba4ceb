//! The framing of messages on the local channel.
//!
//! A response travels as one JSON value: the text `"Success"`, or an object
//! with the single key `Error` and the message as its string.

use vstd::prelude::*;
use vstd::string::*;
use vstd::utf8::encode_utf8;
use bytes::BytesMut;
use crate::proto::{ResponseModel, TaskRequest, TaskResponse};

verus! {

/// `bytes::BytesMut`, the growable byte buffer that the channel is framed
/// over. Nothing inside it is visible here.
#[verifier::external_type_specification]
#[verifier::external_body]
pub struct ExBytesMut(bytes::BytesMut);

/// The bytes that a buffer holds, first to last.
pub uninterp spec fn contents(buffer: BytesMut) -> Seq<u8>;

/// `BytesMut::len`: the number of bytes held.
#[verifier::external_body]
fn buffer_len(buffer: &BytesMut) -> (n: usize)
    ensures
        n == contents(*buffer).len(),
{
    buffer.len()
}

/// `BytesMut::clear`: the buffer holds nothing afterwards.
#[verifier::external_body]
fn buffer_clear(buffer: &mut BytesMut)
    ensures
        contents(*final(buffer)) == Seq::<u8>::empty(),
{
    buffer.clear();
}

/// `BytesMut::extend_from_slice`: the bytes are added behind those held.
/// It grows the buffer as needed and gives up where the new length would
/// not fit a `usize`, which the condition leaves out.
#[verifier::external_body]
fn buffer_extend(buffer: &mut BytesMut, data: &[u8])
    requires
        contents(*old(buffer)).len() + data@.len() <= usize::MAX,
    ensures
        contents(*final(buffer)) == contents(*old(buffer)) + data@,
{
    buffer.extend_from_slice(data);
}

/// The digit that stands for a value below sixteen, in lower case.
pub open spec fn hex_digit(value: u8) -> u8 {
    if value < 10 {
        (0x30 + value) as u8
    } else {
        (0x57 + value) as u8
    }
}

/// One byte of a string as it stands inside a JSON string: the quote, the
/// backslash and the control characters are escaped, every other byte is
/// kept.
pub open spec fn escape_byte(b: u8) -> Seq<u8> {
    if b == 0x22 {
        seq![0x5cu8, 0x22u8]
    } else if b == 0x5c {
        seq![0x5cu8, 0x5cu8]
    } else if b == 0x08 {
        seq![0x5cu8, 0x62u8]
    } else if b == 0x0c {
        seq![0x5cu8, 0x66u8]
    } else if b == 0x0a {
        seq![0x5cu8, 0x6eu8]
    } else if b == 0x0d {
        seq![0x5cu8, 0x72u8]
    } else if b == 0x09 {
        seq![0x5cu8, 0x74u8]
    } else if b < 0x20 {
        seq![0x5cu8, 0x75u8, 0x30u8, 0x30u8, hex_digit(b / 16), hex_digit(b % 16)]
    } else {
        seq![b]
    }
}

/// The bytes of a string as they stand inside a JSON string.
pub open spec fn escaped(bytes: Seq<u8>) -> Seq<u8>
    decreases bytes.len(),
{
    if bytes.len() == 0 {
        Seq::empty()
    } else {
        escaped(bytes.drop_last()) + escape_byte(bytes.last())
    }
}

/// The text `"Success"`, quotes included.
pub open spec fn success_text() -> Seq<u8> {
    seq![0x22u8, 0x53u8, 0x75u8, 0x63u8, 0x63u8, 0x65u8, 0x73u8, 0x73u8, 0x22u8]
}

/// The text `{"Error":"`, which opens a failure.
pub open spec fn error_opening() -> Seq<u8> {
    seq![0x7bu8, 0x22u8, 0x45u8, 0x72u8, 0x72u8, 0x6fu8, 0x72u8, 0x22u8, 0x3au8, 0x22u8]
}

/// The text `"}`, which closes a failure.
pub open spec fn error_closing() -> Seq<u8> {
    seq![0x22u8, 0x7du8]
}

/// A response as it travels.
pub open spec fn encoded(response: ResponseModel) -> Seq<u8> {
    match response {
        ResponseModel::Success => success_text(),
        ResponseModel::Error(message) => error_opening() + escaped(encode_utf8(message))
            + error_closing(),
    }
}

fn hex_of(value: u8) -> (digit: u8)
    requires
        value < 16,
    ensures
        digit == hex_digit(value),
{
    if value < 10 {
        0x30 + value
    } else {
        0x57 + value
    }
}

fn push_escaped(out: &mut Vec<u8>, b: u8)
    ensures
        final(out)@ == old(out)@ + escape_byte(b),
{
    if b == 0x22 || b == 0x5c {
        out.push(0x5c);
        out.push(b);
    } else if b == 0x08 {
        out.push(0x5c);
        out.push(0x62);
    } else if b == 0x0c {
        out.push(0x5c);
        out.push(0x66);
    } else if b == 0x0a {
        out.push(0x5c);
        out.push(0x6e);
    } else if b == 0x0d {
        out.push(0x5c);
        out.push(0x72);
    } else if b == 0x09 {
        out.push(0x5c);
        out.push(0x74);
    } else if b < 0x20 {
        out.push(0x5c);
        out.push(0x75);
        out.push(0x30);
        out.push(0x30);
        out.push(hex_of(b / 16));
        out.push(hex_of(b % 16));
    } else {
        out.push(b);
    }
    proof {
        assert(final(out)@ =~= old(out)@ + escape_byte(b));
    }
}

/// Writes a response as it travels.
pub fn encode_response(response: &TaskResponse) -> (bytes: Vec<u8>)
    ensures
        bytes@ == encoded(response@),
{
    match response {
        TaskResponse::Success => {
            let bytes = vec![0x22u8, 0x53u8, 0x75u8, 0x63u8, 0x63u8, 0x65u8, 0x73u8, 0x73u8, 0x22u8];
            proof {
                assert(bytes@ =~= success_text());
            }
            bytes
        },
        TaskResponse::Error(message) => {
            let text = message.as_str().as_bytes();
            let mut bytes = vec![
                0x7bu8,
                0x22u8,
                0x45u8,
                0x72u8,
                0x72u8,
                0x6fu8,
                0x72u8,
                0x22u8,
                0x3au8,
                0x22u8,
            ];
            proof {
                assert(bytes@ =~= error_opening() + escaped(text@.subrange(0, 0)));
            }
            let mut i: usize = 0;
            while i < text.len()
                invariant
                    i <= text@.len(),
                    bytes@ == error_opening() + escaped(text@.subrange(0, i as int)),
                decreases text@.len() - i,
            {
                proof {
                    let head = text@.subrange(0, i + 1);
                    assert(head.drop_last() =~= text@.subrange(0, i as int));
                    assert(head.last() == text@[i as int]);
                }
                push_escaped(&mut bytes, text[i]);
                i += 1;
                proof {
                    assert(bytes@ =~= error_opening() + escaped(text@.subrange(0, i as int)));
                }
            }
            proof {
                assert(text@.subrange(0, i as int) =~= text@);
            }
            bytes.push(0x22);
            bytes.push(0x7d);
            proof {
                assert(bytes@ =~= encoded(response@));
            }
            bytes
        },
    }
}

/// Why a message could not be framed.
#[derive(Clone, Copy, Debug, PartialEq, Eq, Structural)]
pub enum CodecError {
    /// The outgoing buffer cannot take the message.
    BufferFull,
}

/// The codec of the local channel.
#[derive(Clone, Copy, Debug, PartialEq, Eq, Structural)]
pub struct TaskCodec;

impl TaskCodec {
    pub fn new() -> (codec: Self)
        ensures
            codec == TaskCodec,
    {
        TaskCodec
    }

    /// Settles a decode attempt on the bytes read so far. Where they parsed
    /// as a request, the request is handed on and the buffer is emptied for
    /// the next one. Where they did not, nothing has been received yet and
    /// the buffer is left as it is.
    pub fn decode(&mut self, parsed: Option<TaskRequest>, src: &mut BytesMut) -> (message: Option<
        TaskRequest,
    >)
        ensures
            message == parsed,
            parsed is Some ==> contents(*final(src)) == Seq::<u8>::empty(),
            parsed is None ==> *final(src) == *old(src),
    {
        if parsed.is_some() {
            buffer_clear(src);
        }
        parsed
    }

    /// Appends a response, as it travels, to the outgoing buffer. Where the
    /// buffer cannot take it, the buffer is left as it is.
    pub fn encode(&mut self, msg: &TaskResponse, dst: &mut BytesMut) -> (done: Result<
        (),
        CodecError,
    >)
        ensures
            match done {
                Ok(_) => contents(*final(dst)) == contents(*old(dst)) + encoded(msg@),
                Err(e) => e == CodecError::BufferFull && *final(dst) == *old(dst),
            },
            done is Err <==> contents(*old(dst)).len() + encoded(msg@).len() > usize::MAX,
    {
        let data = encode_response(msg);
        if data.len() > usize::MAX - buffer_len(dst) {
            Err(CodecError::BufferFull)
        } else {
            buffer_extend(dst, data.as_slice());
            Ok(())
        }
    }
}

} // verus!
