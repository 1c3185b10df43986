//! Header values, as the `http` crate accepts and reads them.

use vstd::prelude::*;

verus! {

/// A byte that `HeaderValue::to_str` accepts: visible ASCII or a tab.
pub open spec fn is_visible_ascii(b: u8) -> bool {
    (32 <= b && b < 127) || b == 9
}

/// A byte that `HeaderValue::from_str` accepts in a header value: anything
/// but control characters and DEL, except the tab.
pub open spec fn is_valid_value_byte(b: u8) -> bool {
    (32 <= b && b != 127) || b == 9
}

/// A header value that reads as text.
pub open spec fn reads_as_text(value: Seq<u8>) -> bool {
    forall|i: int| 0 <= i < value.len() ==> is_visible_ascii(#[trigger] value[i])
}

/// Bytes that make a valid header value.
pub open spec fn is_valid_value(value: Seq<u8>) -> bool {
    forall|i: int| 0 <= i < value.len() ==> is_valid_value_byte(#[trigger] value[i])
}

/// Whether `value` reads as text (the check of `HeaderValue::to_str`).
pub fn value_reads_as_text(value: &[u8]) -> (answer: bool)
    ensures
        answer == reads_as_text(value@),
{
    let mut i: usize = 0;
    while i < value.len()
        invariant
            i <= value@.len(),
            forall|j: int| 0 <= j < i ==> is_visible_ascii(#[trigger] value@[j]),
        decreases value@.len() - i,
    {
        let b = value[i];
        if !((32 <= b && b < 127) || b == 9) {
            return false;
        }
        i = i + 1;
    }
    true
}

/// Whether `value` makes a valid header value (the check of `HeaderValue::from_str`).
pub fn value_is_valid(value: &[u8]) -> (answer: bool)
    ensures
        answer == is_valid_value(value@),
{
    let mut i: usize = 0;
    while i < value.len()
        invariant
            i <= value@.len(),
            forall|j: int| 0 <= j < i ==> is_valid_value_byte(#[trigger] value@[j]),
        decreases value@.len() - i,
    {
        let b = value[i];
        if !((32 <= b && b != 127) || b == 9) {
            return false;
        }
        i = i + 1;
    }
    true
}

} // verus!
