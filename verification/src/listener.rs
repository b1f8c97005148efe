//! The set of pointer events that a state machine listens for.

use vstd::prelude::*;
use vstd::string::StringExecFns;

verus! {

/// A set of pointer-event kinds, one bit each.
#[derive(Clone, Copy, Debug, PartialEq, Eq, Hash, Structural)]
pub struct ListenerType {
    pub bits: u16,
}

/// A listener name that is none of the known ones.
#[derive(Clone, Copy, Debug, PartialEq, Eq, Structural)]
pub struct ListenerTypeParseError;

pub const POINTER_UP: u16 = 1;

pub const POINTER_DOWN: u16 = 2;

pub const POINTER_ENTER: u16 = 4;

pub const POINTER_EXIT: u16 = 8;

pub const POINTER_MOVE: u16 = 16;

/// The bit that a listener name stands for, if it is a known name.
pub open spec fn bit_of(name: Seq<char>) -> Option<u16> {
    if name == "PointerUp"@ {
        Some(POINTER_UP)
    } else if name == "PointerDown"@ {
        Some(POINTER_DOWN)
    } else if name == "PointerEnter"@ {
        Some(POINTER_ENTER)
    } else if name == "PointerExit"@ {
        Some(POINTER_EXIT)
    } else if name == "PointerMove"@ {
        Some(POINTER_MOVE)
    } else {
        None
    }
}

/// Every name of the sequence is a known listener name.
pub open spec fn all_known(names: Seq<String>) -> bool {
    forall|i: int| 0 <= i < names.len() ==> bit_of(#[trigger] names[i]@) is Some
}

/// The bits of all the names of the sequence together. A name that is not
/// known adds nothing.
pub open spec fn bits_of(names: Seq<String>) -> u16
    decreases names.len(),
{
    if names.len() == 0 {
        0u16
    } else {
        let rest = bits_of(names.drop_last());
        match bit_of(names.last()@) {
            Some(bit) => rest | bit,
            None => rest,
        }
    }
}

fn same_text(left: &str, right: &str) -> (same: bool)
    ensures
        same == (left@ == right@),
{
    let left = String::from_str(left);
    let right = String::from_str(right);
    left == right
}

impl ListenerType {
    /// The empty set.
    pub fn empty() -> (set: ListenerType)
        ensures
            set.bits == 0,
    {
        ListenerType { bits: 0 }
    }

    /// Whether every kind of `other` is in this set.
    pub open spec fn spec_contains(self, other: ListenerType) -> bool {
        self.bits & other.bits == other.bits
    }

    /// Whether every kind of `other` is in this set.
    #[verifier::when_used_as_spec(spec_contains)]
    pub fn contains(self, other: ListenerType) -> (inside: bool)
        ensures
            inside == self.spec_contains(other),
    {
        self.bits & other.bits == other.bits
    }

    /// The set of one kind, by its name.
    pub fn from_str(s: &str) -> (result: Result<ListenerType, ListenerTypeParseError>)
        ensures
            match bit_of(s@) {
                Some(bit) => result == Ok::<ListenerType, ListenerTypeParseError>(
                    ListenerType { bits: bit },
                ),
                None => result is Err,
            },
    {
        if same_text(s, "PointerUp") {
            Ok(ListenerType { bits: POINTER_UP })
        } else if same_text(s, "PointerDown") {
            Ok(ListenerType { bits: POINTER_DOWN })
        } else if same_text(s, "PointerEnter") {
            Ok(ListenerType { bits: POINTER_ENTER })
        } else if same_text(s, "PointerExit") {
            Ok(ListenerType { bits: POINTER_EXIT })
        } else if same_text(s, "PointerMove") {
            Ok(ListenerType { bits: POINTER_MOVE })
        } else {
            Err(ListenerTypeParseError)
        }
    }

    /// The set of all the kinds that `listener_types` names. One unknown name
    /// fails the whole list.
    pub fn new(listener_types: &Vec<String>) -> (result: Result<
        ListenerType,
        ListenerTypeParseError,
    >)
        ensures
            all_known(listener_types@) ==> result == Ok::<ListenerType, ListenerTypeParseError>(
                ListenerType { bits: bits_of(listener_types@) },
            ),
            !all_known(listener_types@) ==> result is Err,
    {
        let mut result = ListenerType { bits: 0 };
        let mut i: usize = 0;
        while i < listener_types.len()
            invariant
                i <= listener_types@.len(),
                forall|j: int| 0 <= j < i ==> bit_of(#[trigger] listener_types@[j]@) is Some,
                result.bits == bits_of(listener_types@.subrange(0, i as int)),
            decreases listener_types@.len() - i,
        {
            match ListenerType::from_str(listener_types[i].as_str()) {
                Ok(one) => {
                    proof {
                        let next = listener_types@.subrange(0, i + 1);
                        assert(next.drop_last() =~= listener_types@.subrange(0, i as int));
                        assert(next.last() == listener_types@[i as int]);
                    }
                    result = ListenerType { bits: result.bits | one.bits };
                },
                Err(e) => {
                    return Err(e);
                },
            }
            i += 1;
        }
        assert(listener_types@.subrange(0, i as int) =~= listener_types@);
        Ok(result)
    }
}

} // verus!
