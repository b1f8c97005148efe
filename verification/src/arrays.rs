//! Pointer-and-length pairs for arrays whose ownership passes to the caller.
//!
//! Each array type holds what the caller will find at the pointer, or nothing
//! for a null pointer, beside the element count that travels with it.

use vstd::prelude::*;

use crate::codec::{encodable, encoded, is_native_string, to_mut_i8, EncodeError};
use crate::float32::Float32;

verus! {

/// Every text of the sequence can be carried by a native string.
pub open spec fn all_encodable(texts: Seq<String>) -> bool {
    forall|i: int| 0 <= i < texts.len() ==> encodable(#[trigger] texts[i]@)
}

/// `bytes` holds, in order, the native strings of `texts`.
pub open spec fn encodes_all(bytes: Seq<Vec<u8>>, texts: Seq<String>) -> bool {
    &&& bytes.len() == texts.len()
    &&& forall|i: int| 0 <= i < texts.len() ==> (#[trigger] bytes[i])@ == encoded(texts[i]@)
}

/// `bytes` is the native string of `text`, or both are absent.
pub open spec fn encodes_optional(bytes: Option<Vec<u8>>, text: Option<String>) -> bool {
    match (bytes, text) {
        (Some(b), Some(t)) => b@ == encoded(t@),
        (None, None) => true,
        _ => false,
    }
}

/// An optional text can be carried: it is absent or holds no NUL.
pub open spec fn optional_encodable(text: Option<String>) -> bool {
    text matches Some(t) ==> encodable(t@)
}

/// Encodes an optional text; an absent text becomes a null pointer.
pub fn encode_optional(value: &Option<String>) -> (result: Result<Option<Vec<u8>>, EncodeError>)
    ensures
        optional_encodable(*value) ==> (result matches Ok(bytes) && encodes_optional(
            bytes,
            *value,
        )),
        !optional_encodable(*value) ==> result == Err::<Option<Vec<u8>>, EncodeError>(
            EncodeError::InvalidEncoding,
        ),
{
    match value {
        None => Ok(None),
        Some(text) => match to_mut_i8(text.as_str()) {
            Ok(bytes) => Ok(Some(bytes)),
            Err(_) => Err(EncodeError::InvalidEncoding),
        },
    }
}

/// Encodes every text of a list, in order, or none if one of them holds a NUL.
pub fn encode_all(values: &Vec<String>) -> (result: Result<Vec<Vec<u8>>, EncodeError>)
    ensures
        all_encodable(values@) ==> (result matches Ok(bytes) && encodes_all(bytes@, values@)),
        !all_encodable(values@) ==> result == Err::<Vec<Vec<u8>>, EncodeError>(
            EncodeError::InvalidEncoding,
        ),
{
    let mut bytes: Vec<Vec<u8>> = Vec::new();
    let mut i: usize = 0;
    while i < values.len()
        invariant
            i <= values@.len(),
            bytes@.len() == i,
            forall|j: int| 0 <= j < i ==> encodable(#[trigger] values@[j]@),
            forall|j: int| 0 <= j < i ==> (#[trigger] bytes@[j])@ == encoded(values@[j]@),
        decreases values@.len() - i,
    {
        match to_mut_i8(values[i].as_str()) {
            Ok(one) => bytes.push(one),
            Err(_) => {
                return Err(EncodeError::InvalidEncoding);
            },
        }
        i += 1;
    }
    Ok(bytes)
}

/// An array of single-precision numbers.
#[derive(Clone, Debug)]
pub struct DotLottieFloatArray {
    pub ptr: Option<Vec<Float32>>,
    pub size: usize,
}

impl DotLottieFloatArray {
    /// The count describes what is at the pointer; a null pointer has count zero.
    pub open spec fn wf(self) -> bool {
        match self.ptr {
            Some(floats) => self.size == floats@.len(),
            None => self.size == 0,
        }
    }

    /// Moves the numbers into memory of their own and hands them over.
    pub fn new(floats: Vec<Float32>) -> (array: DotLottieFloatArray)
        ensures
            array.wf(),
            array.ptr == Some(floats),
            array.size == floats@.len(),
    {
        let size: usize = floats.len();
        DotLottieFloatArray { ptr: Some(floats), size }
    }
}

/// An array of native strings.
#[derive(Clone, Debug)]
pub struct DotLottieMuti8Array {
    pub ptr: Option<Vec<Vec<u8>>>,
    pub size: usize,
}

impl DotLottieMuti8Array {
    /// The count describes what is at the pointer, every element is a native
    /// string, and a null pointer has count zero.
    pub open spec fn wf(self) -> bool {
        match self.ptr {
            Some(strings) => {
                &&& self.size == strings@.len()
                &&& forall|i: int|
                    0 <= i < strings@.len() ==> is_native_string((#[trigger] strings@[i])@)
            },
            None => self.size == 0,
        }
    }

    /// The array holds, in order, the native strings of `texts`.
    pub open spec fn represents(self, texts: Seq<String>) -> bool {
        &&& self.size == texts.len()
        &&& self.ptr matches Some(strings)
        &&& encodes_all(strings@, texts)
    }

    /// Encodes every text and hands the array over.
    pub fn new(muti8s: Vec<String>) -> (result: Result<DotLottieMuti8Array, EncodeError>)
        ensures
            all_encodable(muti8s@) ==> (result matches Ok(array) && array.represents(muti8s@)
                && array.wf()),
            !all_encodable(muti8s@) ==> (result matches Err(e) && e
                == EncodeError::InvalidEncoding),
    {
        match encode_all(&muti8s) {
            Ok(strings) => {
                let size: usize = strings.len();
                proof {
                    assert forall|i: int| 0 <= i < strings@.len() implies is_native_string(
                        (#[trigger] strings@[i])@,
                    ) by {
                        crate::codec::lemma_encode_then_decode(muti8s@[i]@);
                    }
                }
                Ok(DotLottieMuti8Array { ptr: Some(strings), size })
            },
            Err(_) => Err(EncodeError::InvalidEncoding),
        }
    }
}

} // verus!
