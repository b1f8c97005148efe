//! Text marshalling between owned strings and null-terminated byte buffers.
//!
//! A native string is a run of bytes that ends with its only NUL byte and
//! whose content before the NUL is valid UTF-8. Decoding turns a caller's
//! native string into an owned `String`. Encoding goes the other way, in one
//! of two ownership modes: into a fresh buffer that is handed over to the
//! caller, or into a buffer that the caller allocated.

use vstd::prelude::*;
use vstd::slice::slice_subrange;
use vstd::string::StringSliceAdditionalSpecFns;
use vstd::utf8::{decode_utf8, encode_utf8, valid_utf8};

verus! {

/// Why a native string could not be decoded.
#[derive(Clone, Copy, Debug, PartialEq, Eq, Structural)]
pub enum DecodeError {
    /// The caller passed a null pointer.
    NullPointer,
    /// The bytes are not one NUL-terminated run of valid UTF-8.
    InvalidEncoding,
}

/// Why a string could not be encoded.
#[derive(Clone, Copy, Debug, PartialEq, Eq, Structural)]
pub enum EncodeError {
    /// The caller's buffer is shorter than the `required` number of bytes,
    /// terminator included.
    BufferTooSmall { required: usize },
    /// The text holds a NUL, which a native string cannot carry.
    InvalidEncoding,
}

/// The bytes of a native string before its terminator.
pub open spec fn content(bytes: Seq<u8>) -> Seq<u8> {
    bytes.drop_last()
}

/// `bytes` is a native string: it ends with a NUL, holds no other NUL, and
/// its content is valid UTF-8.
pub open spec fn is_native_string(bytes: Seq<u8>) -> bool {
    &&& bytes.len() > 0
    &&& bytes.last() == 0u8
    &&& !content(bytes).contains(0u8)
    &&& valid_utf8(content(bytes))
}

/// The text that a native string carries.
pub open spec fn decoded(bytes: Seq<u8>) -> Seq<char> {
    decode_utf8(content(bytes))
}

/// `text` can be carried by a native string: its UTF-8 form holds no NUL.
pub open spec fn encodable(text: Seq<char>) -> bool {
    !encode_utf8(text).contains(0u8)
}

/// The native string that carries `text`.
pub open spec fn encoded(text: Seq<char>) -> Seq<u8> {
    encode_utf8(text).push(0u8)
}

/// Checks a byte run for UTF-8 and views it as text.
///
/// Calls `core::str::from_utf8`, which succeeds exactly on valid UTF-8 and
/// then returns a string slice over the very same bytes.
#[verifier::external_body]
fn utf8_text(bytes: &[u8]) -> (text: Option<&str>)
    ensures
        text is Some <==> valid_utf8(bytes@),
        text matches Some(s) ==> s.spec_bytes() == bytes@,
{
    core::str::from_utf8(bytes).ok()
}

/// Decodes a caller's native string.
///
/// `None` stands for a null pointer. `Some` holds the bytes at the pointer,
/// terminator included.
pub fn to_string(value: Option<&[u8]>) -> (result: Result<String, DecodeError>)
    ensures
        value is None ==> result == Err::<String, DecodeError>(DecodeError::NullPointer),
        value matches Some(bytes) ==> {
            &&& is_native_string(bytes@) ==> (result matches Ok(text) && text@ == decoded(bytes@))
            &&& !is_native_string(bytes@) ==> result == Err::<String, DecodeError>(
                DecodeError::InvalidEncoding,
            )
        },
{
    broadcast use vstd::utf8::encode_utf8_decode_utf8;

    let bytes = match value {
        None => {
            return Err(DecodeError::NullPointer);
        },
        Some(bytes) => bytes,
    };
    let n: usize = bytes.len();
    let mut i: usize = 0;
    while i < n && bytes[i] != 0
        invariant
            i <= n,
            n == bytes@.len(),
            forall|j: int| 0 <= j < i ==> bytes@[j] != 0u8,
        decreases n - i,
    {
        i += 1;
    }
    if i == n || i + 1 != n {
        proof {
            if i < n {
                assert(content(bytes@)[i as int] == 0u8);
            }
        }
        return Err(DecodeError::InvalidEncoding);
    }
    assert(bytes@.last() == 0u8);
    assert forall|j: int| 0 <= j < content(bytes@).len() implies content(bytes@)[j] != 0u8 by {
        assert(content(bytes@)[j] == bytes@[j]);
    }
    let body = slice_subrange(bytes, 0, i);
    assert(body@ == content(bytes@));
    match utf8_text(body) {
        Some(text) => Ok(text.to_owned()),
        None => Err(DecodeError::InvalidEncoding),
    }
}

/// Encodes `value` into a fresh native string whose ownership passes to the
/// caller.
pub fn to_mut_i8(value: &str) -> (result: Result<Vec<u8>, EncodeError>)
    ensures
        encodable(value@) ==> (result matches Ok(bytes) && bytes@ == encoded(value@)),
        !encodable(value@) ==> result == Err::<Vec<u8>, EncodeError>(EncodeError::InvalidEncoding),
{
    let source = value.as_bytes();
    let n: usize = source.len();
    let mut bytes: Vec<u8> = Vec::new();
    let mut i: usize = 0;
    while i < n
        invariant
            i <= n,
            n == source@.len(),
            source@ == encode_utf8(value@),
            bytes@ == source@.subrange(0, i as int),
            forall|j: int| 0 <= j < i ==> source@[j] != 0u8,
        decreases n - i,
    {
        let byte: u8 = source[i];
        if byte == 0 {
            return Err(EncodeError::InvalidEncoding);
        }
        bytes.push(byte);
        i += 1;
        assert(bytes@ =~= source@.subrange(0, i as int));
    }
    assert(bytes@ =~= source@);
    bytes.push(0);
    Ok(bytes)
}

/// Encodes `value` into the caller's `buffer`.
///
/// On success the native string fills the front of the buffer, the rest of
/// the buffer keeps its bytes, and the number of bytes written is returned.
/// On failure nothing is written.
pub fn to_native_string(value: &str, buffer: &mut [u8]) -> (result: Result<usize, EncodeError>)
    ensures
        final(buffer)@.len() == old(buffer)@.len(),
        !encodable(value@) ==> {
            &&& result == Err::<usize, EncodeError>(EncodeError::InvalidEncoding)
            &&& final(buffer)@ == old(buffer)@
        },
        encodable(value@) && old(buffer)@.len() < encoded(value@).len() ==> {
            &&& result matches Err(EncodeError::BufferTooSmall { required })
            &&& required == encoded(value@).len()
            &&& final(buffer)@ == old(buffer)@
        },
        encodable(value@) && old(buffer)@.len() >= encoded(value@).len() ==> {
            &&& result == Ok::<usize, EncodeError>(encoded(value@).len() as usize)
            &&& final(buffer)@.subrange(0, encoded(value@).len() as int) == encoded(value@)
            &&& final(buffer)@.subrange(encoded(value@).len() as int, old(buffer)@.len() as int)
                == old(buffer)@.subrange(encoded(value@).len() as int, old(buffer)@.len() as int)
        },
{
    let bytes = match to_mut_i8(value) {
        Ok(bytes) => bytes,
        Err(_) => {
            return Err(EncodeError::InvalidEncoding);
        },
    };
    let required: usize = bytes.len();
    if buffer.len() < required {
        return Err(EncodeError::BufferTooSmall { required });
    }
    let mut i: usize = 0;
    while i < required
        invariant
            i <= required,
            required == bytes@.len(),
            required <= buffer@.len(),
            buffer@.len() == old(buffer)@.len(),
            forall|j: int| 0 <= j < i ==> buffer@[j] == bytes@[j],
            forall|j: int| i <= j < buffer@.len() ==> buffer@[j] == old(buffer)@[j],
        decreases required - i,
    {
        buffer[i] = bytes[i];
        i += 1;
    }
    assert(buffer@.subrange(0, required as int) =~= bytes@);
    assert(buffer@.subrange(required as int, buffer@.len() as int) =~= old(buffer)@.subrange(
        required as int,
        buffer@.len() as int,
    ));
    Ok(required)
}

/// Decoding a native string and encoding the text again gives back the very
/// same bytes.
pub proof fn lemma_decode_then_encode(bytes: Seq<u8>)
    requires
        is_native_string(bytes),
    ensures
        encodable(decoded(bytes)),
        encoded(decoded(bytes)) == bytes,
{
    vstd::utf8::decode_utf8_encode_utf8(content(bytes));
    assert(content(bytes).push(0u8) =~= bytes);
}

/// Encoding a text that holds no NUL gives a native string that decodes to
/// the same text.
pub proof fn lemma_encode_then_decode(text: Seq<char>)
    requires
        encodable(text),
    ensures
        is_native_string(encoded(text)),
        decoded(encoded(text)) == text,
{
    vstd::utf8::encode_utf8_valid_utf8(text);
    vstd::utf8::encode_utf8_decode_utf8(text);
    assert(content(encoded(text)) =~= encode_utf8(text));
}

} // verus!
