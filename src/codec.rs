//! Wire codec: a message travels as its text, UTF-8 encoded and compressed
//! into one lz4 block headed by the uncompressed length.

use vstd::prelude::*;
use vstd::utf8::{decode_utf8, encode_utf8, valid_utf8};

verus! {

/// The lz4 block (with its four-byte size header) that the compressor makes of `data`.
pub uninterp spec fn lz4_block(data: Seq<u8>) -> Seq<u8>;

/// What the decompressor makes of `frame`: the bytes, or the text of the
/// error with which it refuses the frame.
pub uninterp spec fn lz4_unblock(frame: Seq<u8>) -> Result<Seq<u8>, Seq<char>>;

/// The text of the error with which the UTF-8 decoder refuses `bytes`.
pub uninterp spec fn utf8_error_text(bytes: Seq<u8>) -> Seq<char>;

/// The largest frame the decoder takes: lz4's run-length counters cannot
/// overflow within it.
pub const MAX_FRAME_LEN: usize = 16_777_216;

/// The size a frame declares: its first four bytes as a little-endian `u32`.
pub open spec fn header_value(frame: Seq<u8>) -> nat
    recommends
        frame.len() >= 4,
{
    frame[0] as nat + frame[1] as nat * 256 + frame[2] as nat * 65536 + frame[3] as nat
        * 16777216
}

/// The longest block the compressor makes of `n` bytes: the size header and
/// its worst case of 20 bytes plus a tenth over the input.
pub open spec fn max_block_len(n: nat) -> nat {
    24 + n * 110 / 100
}

/// Inputs of `n` bytes fit the size header, and the compressor's worst-case
/// buffer of about `1.1 * n` bytes fits the address space.
pub open spec fn compressible(n: nat) -> bool {
    n <= u32::MAX && n * 110 <= isize::MAX
}

/// Frames the decompressor is handed: not so long that its run-length
/// counter could overflow, and declaring a size that an allocation can hold.
pub open spec fn frame_acceptable(frame: Seq<u8>) -> bool {
    &&& frame.len() <= MAX_FRAME_LEN
    &&& frame.len() >= 4 ==> header_value(frame) <= isize::MAX
}

/// Relies on lz4_flex::compress_prepend_size: one block, headed by the input
/// length as a little-endian u32, and cut to at most
/// `4 + get_maximum_output_size(len)` bytes. The bound on the input keeps
/// `len * 110` in that size from overflowing.
#[verifier::external_body]
fn lz4_compress(data: &[u8]) -> (r: Vec<u8>)
    requires
        compressible(data@.len()),
    ensures
        r@ == lz4_block(data@),
        4 <= r@.len() <= max_block_len(data@.len()),
        header_value(r@) == data@.len(),
{
    lz4_flex::compress_prepend_size(data)
}

/// Relies on lz4_flex::decompress_size_prepended: it undoes
/// compress_prepend_size, refuses input shorter than the size header, and
/// depends on the frame alone. Frames are bounded because its length counter
/// is a `u32` that a long enough run of 0xFF bytes would overflow, and the
/// declared size is bounded because it allocates that many bytes up front.
#[verifier::external_body]
fn lz4_decompress(frame: &[u8]) -> (r: Result<Vec<u8>, String>)
    requires
        frame_acceptable(frame@),
    ensures
        r matches Ok(v) ==> (lz4_unblock(frame@) matches Ok(d) && d == v@),
        r matches Err(m) ==> (lz4_unblock(frame@) matches Err(t) && t == m@),
        frame@.len() < 4 ==> r is Err,
        r matches Ok(v) ==> forall|data: Seq<u8>|
            data.len() <= u32::MAX && frame@ == #[trigger] lz4_block(data) ==> v@ == data,
        r is Err ==> forall|data: Seq<u8>|
            data.len() <= u32::MAX ==> frame@ != #[trigger] lz4_block(data),
{
    match lz4_flex::decompress_size_prepended(frame) {
        Ok(v) => Ok(v),
        Err(e) => Err(e.to_string()),
    }
}

/// Relies on String::from_utf8: it accepts exactly the valid UTF-8 byte
/// sequences and decodes them; its error's text depends on the bytes alone.
#[verifier::external_body]
fn utf8_string(bytes: Vec<u8>) -> (r: Result<String, String>)
    ensures
        r is Ok <==> valid_utf8(bytes@),
        r matches Ok(s) ==> s@ == decode_utf8(bytes@),
        r matches Err(m) ==> m@ == utf8_error_text(bytes@),
{
    match String::from_utf8(bytes) {
        Ok(s) => Ok(s),
        Err(e) => Err(e.to_string()),
    }
}

/// Why a frame could not be turned back into text.
#[derive(Debug, Clone, PartialEq, Eq)]
pub enum CodecError {
    /// The bytes are no lz4 block; the decompressor's own words.
    Decompress(String),
    /// The block holds bytes that are not UTF-8; the decoder's own words.
    NotUtf8(String),
    /// The frame is longer than `MAX_FRAME_LEN`, or declares a size larger
    /// than any allocation can hold.
    TooLarge,
}

pub open spec fn too_large_text() -> Seq<char> {
    "frame too large to decode"@
}

impl CodecError {
    /// The error's text.
    pub fn message(&self) -> (r: String)
        ensures
            r@ == self.spec_message(),
    {
        match self {
            CodecError::Decompress(m) => m.clone(),
            CodecError::NotUtf8(m) => m.clone(),
            CodecError::TooLarge => String::from_str("frame too large to decode"),
        }
    }

    pub open spec fn spec_message(&self) -> Seq<char> {
        match self {
            CodecError::Decompress(m) => m@,
            CodecError::NotUtf8(m) => m@,
            CodecError::TooLarge => too_large_text(),
        }
    }
}

/// The frame that carries `text`.
pub open spec fn frame_of(text: Seq<char>) -> Seq<u8> {
    lz4_block(encode_utf8(text))
}

/// A text fits in one frame when its UTF-8 encoding can be compressed.
pub open spec fn fits_frame(text: Seq<char>) -> bool {
    compressible(encode_utf8(text).len())
}

/// What decoding `frame` gives: the text it carries, or the message of the
/// error that refuses it.
pub open spec fn frame_outcome(frame: Seq<u8>) -> Result<Seq<char>, Seq<char>> {
    if !frame_acceptable(frame) {
        Err(too_large_text())
    } else {
        match lz4_unblock(frame) {
            Ok(data) => if valid_utf8(data) {
                Ok(decode_utf8(data))
            } else {
                Err(utf8_error_text(data))
            },
            Err(m) => Err(m),
        }
    }
}

/// `r` is what `deserialize` returns for `frame`.
pub open spec fn decodes_to(frame: Seq<u8>, r: Result<String, CodecError>) -> bool {
    if !frame_acceptable(frame) {
        r matches Err(CodecError::TooLarge)
    } else {
        match lz4_unblock(frame) {
            Ok(data) => if valid_utf8(data) {
                r matches Ok(s) && s@ == decode_utf8(data)
            } else {
                r matches Err(CodecError::NotUtf8(m)) && m@ == utf8_error_text(data)
            },
            Err(m) => r matches Err(CodecError::Decompress(t)) && t@ == m,
        }
    }
}

/// Compresses `buf` into one lz4 block headed by its length.
pub fn compress(buf: &[u8]) -> (r: Vec<u8>)
    requires
        compressible(buf@.len()),
    ensures
        r@ == lz4_block(buf@),
        4 <= r@.len() <= max_block_len(buf@.len()),
        header_value(r@) == buf@.len(),
{
    lz4_compress(buf)
}

/// Decompresses one lz4 block headed by its length; a frame that is not
/// acceptable (too long, or declaring too large a size) is refused unread.
pub fn decompress(buf: &[u8]) -> (r: Result<Vec<u8>, CodecError>)
    ensures
        !frame_acceptable(buf@) ==> r matches Err(CodecError::TooLarge),
        frame_acceptable(buf@) ==> match lz4_unblock(buf@) {
            Ok(data) => r matches Ok(v) && v@ == data,
            Err(m) => r matches Err(CodecError::Decompress(t)) && t@ == m,
        },
        buf@.len() < 4 ==> r is Err,
        forall|data: Seq<u8>|
            data.len() <= u32::MAX && frame_acceptable(buf@) && buf@ == #[trigger] lz4_block(data)
                ==> (r matches Ok(v) && v@ == data),
{
    if buf.len() > MAX_FRAME_LEN {
        return Err(CodecError::TooLarge);
    }
    if buf.len() >= 4 {
        let declared: u64 = buf[0] as u64 + buf[1] as u64 * 256 + buf[2] as u64 * 65536 + buf[3] as u64
            * 16777216;
        assert(declared == header_value(buf@));
        if declared > isize::MAX as u64 {
            return Err(CodecError::TooLarge);
        }
    }
    match lz4_decompress(buf) {
        Ok(v) => Ok(v),
        Err(m) => Err(CodecError::Decompress(m)),
    }
}

/// Encodes a message's text for the wire: its UTF-8 bytes, compressed.
pub fn serialize(text: &str) -> (r: Vec<u8>)
    requires
        fits_frame(text@),
    ensures
        r@ == frame_of(text@),
        4 <= r@.len() <= max_block_len(encode_utf8(text@).len()),
        header_value(r@) == encode_utf8(text@).len(),
{
    compress(text.as_bytes())
}

/// Decodes a frame back into the text it carries.
///
/// Whatever `serialize` made of a text comes back as that text, as long as
/// the frame is no longer than `MAX_FRAME_LEN` (every text of up to about
/// 15 MB UTF-8 bytes gives such a frame).
pub fn deserialize(buf: &[u8]) -> (r: Result<String, CodecError>)
    ensures
        decodes_to(buf@, r),
        r matches Ok(s) ==> frame_outcome(buf@) == Result::<Seq<char>, Seq<char>>::Ok(s@),
        r matches Err(e) ==> frame_outcome(buf@) == Result::<Seq<char>, Seq<char>>::Err(
            e.spec_message(),
        ),
        forall|t: Seq<char>|
            fits_frame(t) && frame_acceptable(buf@) && buf@ == #[trigger] frame_of(t) ==> (
            r matches Ok(s) && s@ == t),
{
    proof {
        broadcast use vstd::utf8::encode_utf8_valid_utf8, vstd::utf8::encode_utf8_decode_utf8;
    }
    let data = match decompress(buf) {
        Ok(data) => data,
        Err(e) => return Err(e),
    };
    match utf8_string(data) {
        Ok(s) => Ok(s),
        Err(m) => Err(CodecError::NotUtf8(m)),
    }
}

} // verus!
