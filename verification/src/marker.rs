//! Timeline markers, as the engine reports them and as they cross the boundary.

use vstd::prelude::*;

use crate::codec::{encodable, encoded, to_mut_i8, EncodeError};
use crate::float32::Float32;

verus! {

/// A named point of the timeline, as the engine reports it.
#[derive(Clone, Debug)]
pub struct Marker {
    pub name: String,
    pub duration: Float32,
    pub time: Float32,
}

/// The name of every marker of the sequence can be carried by a native string.
pub open spec fn markers_encodable(markers: Seq<Marker>) -> bool {
    forall|i: int| 0 <= i < markers.len() ==> encodable(#[trigger] markers[i].name@)
}

/// A marker in its boundary form. The name is a native string that the
/// caller owns.
#[derive(Clone, Debug)]
pub struct DotLottieMarker {
    pub name: Vec<u8>,
    pub duration: Float32,
    pub time: Float32,
}

/// `records` holds, in order, the boundary form of each of `markers`.
pub open spec fn represent_all(records: Seq<DotLottieMarker>, markers: Seq<Marker>) -> bool {
    &&& records.len() == markers.len()
    &&& forall|i: int| 0 <= i < markers.len() ==> (#[trigger] records[i]).represents(markers[i])
}

impl DotLottieMarker {
    /// The record carries `marker`: its name as a native string, its numbers
    /// bit for bit.
    pub open spec fn represents(self, marker: Marker) -> bool {
        &&& self.name@ == encoded(marker.name@)
        &&& self.duration == marker.duration
        &&& self.time == marker.time
    }

    /// Converts one marker.
    pub fn new(marker: &Marker) -> (result: Result<DotLottieMarker, EncodeError>)
        ensures
            encodable(marker.name@) ==> (result matches Ok(record) && record.represents(*marker)),
            !encodable(marker.name@) ==> (result matches Err(e) && e
                == EncodeError::InvalidEncoding),
    {
        match to_mut_i8(marker.name.as_str()) {
            Ok(name) => Ok(DotLottieMarker { name, duration: marker.duration, time: marker.time }),
            Err(_) => Err(EncodeError::InvalidEncoding),
        }
    }

    /// Converts every marker, in order, or none if one name holds a NUL.
    pub fn convert_all(markers: &Vec<Marker>) -> (result: Result<Vec<DotLottieMarker>, EncodeError>)
        ensures
            markers_encodable(markers@) ==> (result matches Ok(records) && represent_all(
                records@,
                markers@,
            )),
            !markers_encodable(markers@) ==> (result matches Err(e) && e
                == EncodeError::InvalidEncoding),
    {
        let mut records: Vec<DotLottieMarker> = Vec::new();
        let mut i: usize = 0;
        while i < markers.len()
            invariant
                i <= markers@.len(),
                records@.len() == i,
                forall|j: int| 0 <= j < i ==> encodable(#[trigger] markers@[j].name@),
                forall|j: int| 0 <= j < i ==> (#[trigger] records@[j]).represents(markers@[j]),
            decreases markers@.len() - i,
        {
            match DotLottieMarker::new(&markers[i]) {
                Ok(record) => records.push(record),
                Err(_) => {
                    return Err(EncodeError::InvalidEncoding);
                },
            }
            i += 1;
        }
        Ok(records)
    }

    /// Moves `records` into the front of the caller's buffer, in order. The
    /// rest of the buffer keeps what it held. A buffer that is too short for
    /// the records is left as it is, and the answer is `false`.
    pub fn copy_all(records: Vec<DotLottieMarker>, result: &mut [DotLottieMarker]) -> (copied: bool)
        ensures
            final(result)@.len() == old(result)@.len(),
            copied == (records@.len() <= old(result)@.len()),
            copied ==> final(result)@.subrange(0, records@.len() as int) == records@,
            copied ==> final(result)@.subrange(records@.len() as int, old(result)@.len() as int)
                == old(result)@.subrange(records@.len() as int, old(result)@.len() as int),
            !copied ==> final(result)@ == old(result)@,
    {
        if records.len() > result.len() {
            return false;
        }
        let ghost all = records@;
        let mut records = records;
        let mut i: usize = records.len();
        while i > 0
            invariant
                i == records@.len(),
                i <= all.len(),
                records@ == all.subrange(0, i as int),
                all.len() <= result@.len(),
                result@.len() == old(result)@.len(),
                forall|j: int| i <= j < all.len() ==> result@[j] == all[j],
                forall|j: int| all.len() <= j < result@.len() ==> result@[j] == old(result)@[j],
            decreases i,
        {
            let record = records.pop();
            i -= 1;
            match record {
                Some(record) => {
                    result[i] = record;
                },
                None => {},
            }
            assert(records@ =~= all.subrange(0, i as int));
        }
        assert(result@.subrange(0, all.len() as int) =~= all);
        assert(result@.subrange(all.len() as int, result@.len() as int) =~= old(result)@.subrange(
            all.len() as int,
            result@.len() as int,
        ));
        true
    }
}

/// The markers of an animation, as pointer and length.
#[derive(Clone, Debug)]
pub struct DotLottieMarkerArray {
    pub ptr: Option<Vec<DotLottieMarker>>,
    pub size: usize,
}

impl DotLottieMarkerArray {
    /// The count describes what is at the pointer; a null pointer has count zero.
    pub open spec fn wf(self) -> bool {
        match self.ptr {
            Some(records) => self.size == records@.len(),
            None => self.size == 0,
        }
    }

    /// The array holds, in order, the boundary form of each of `markers`.
    pub open spec fn represents(self, markers: Seq<Marker>) -> bool {
        &&& self.size == markers.len()
        &&& self.ptr matches Some(records)
        &&& represent_all(records@, markers)
    }

    /// Converts every marker and hands the array over.
    pub fn new(markers: Vec<Marker>) -> (result: Result<DotLottieMarkerArray, EncodeError>)
        ensures
            markers_encodable(markers@) ==> (result matches Ok(array) && array.represents(
                markers@,
            ) && array.wf()),
            !markers_encodable(markers@) ==> (result matches Err(e) && e
                == EncodeError::InvalidEncoding),
    {
        match DotLottieMarker::convert_all(&markers) {
            Ok(records) => {
                let size: usize = records.len();
                Ok(DotLottieMarkerArray { ptr: Some(records), size })
            },
            Err(e) => Err(e),
        }
    }
}

} // verus!
