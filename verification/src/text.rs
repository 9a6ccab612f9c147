//! Text as it crosses the border to the window system, which speaks in
//! zero-terminated strings of UTF-16 code units.

use vstd::prelude::*;
use vstd::slice::slice_subrange;

verus! {

/// The text that a sequence of UTF-16 code units stands for, or `None` where
/// the units are no well-formed UTF-16.
pub uninterp spec fn utf16_text(units: Seq<u16>) -> Option<Seq<char>>;

/// The UTF-16 code units that stand for a text.
pub uninterp spec fn utf16_units(text: Seq<char>) -> Seq<u16>;

/// Decodes UTF-16 with `String::from_utf16`. The contract claims that the
/// result is a function of the code units alone: the decoded text where the
/// units are well-formed, and nothing where they are not.
#[verifier::external_body]
fn decode_utf16(units: &[u16]) -> (text: Option<String>)
    ensures
        utf16_text(units@) == match text {
            Some(s) => Some(s@),
            None => None,
        },
{
    String::from_utf16(units).ok()
}

/// Encodes a text as UTF-16 with `str::encode_utf16`. The contract claims
/// that the result is a function of the text alone.
#[verifier::external_body]
fn encode_utf16(text: &str) -> (units: Vec<u16>)
    ensures
        units@ == utf16_units(text@),
{
    text.encode_utf16().collect()
}

/// Whether `end` is the position of the first zero among the units.
pub open spec fn is_terminator(units: Seq<u16>, end: int) -> bool {
    &&& 0 <= end < units.len()
    &&& units[end] == 0
    &&& forall|j: int| 0 <= j < end ==> #[trigger] units[j] != 0
}

/// The units before the first zero, or `None` where there is no zero.
pub open spec fn spec_terminated(units: Seq<u16>) -> Option<Seq<u16>> {
    if exists|end: int| is_terminator(units, end) {
        Some(units.subrange(0, choose|end: int| is_terminator(units, end)))
    } else {
        None
    }
}

/// Position of the first zero in a buffer that the window system filled,
/// which is the length of the string in it; `None` where the buffer holds
/// no zero.
pub fn terminated_len(buffer: &Vec<u16>) -> (len: Option<usize>)
    ensures
        match len {
            Some(end) => is_terminator(buffer@, end as int) && spec_terminated(buffer@) == Some(
                buffer@.subrange(0, end as int),
            ),
            None => spec_terminated(buffer@).is_none(),
        },
{
    let mut i: usize = 0;
    while i < buffer.len()
        invariant
            i <= buffer.len(),
            forall|j: int| 0 <= j < i ==> #[trigger] buffer@[j] != 0,
        decreases buffer.len() - i,
    {
        if buffer[i] == 0 {
            proof {
                let chosen = choose|end: int| is_terminator(buffer@, end);
                assert(is_terminator(buffer@, i as int));
                if chosen < i {
                    assert(buffer@[chosen] != 0);
                } else if i < chosen {
                    assert(buffer@[i as int] != 0);
                }
            }
            return Some(i);
        }
        i += 1;
    }
    None
}

/// The name that a buffer holds: the text of the units before the first
/// zero. `None` where the buffer holds no zero, or where those units are no
/// well-formed UTF-16.
pub fn get_window_name(buffer: &Vec<u16>) -> (name: Option<String>)
    ensures
        name.is_some() == (spec_terminated(buffer@) matches Some(units) && utf16_text(
            units,
        ).is_some()),
        name matches Some(s) ==> spec_terminated(buffer@) matches Some(units) && utf16_text(units)
            == Some(s@),
{
    match terminated_len(buffer) {
        Some(end) => decode_utf16(slice_subrange(buffer.as_slice(), 0, end)),
        None => None,
    }
}

/// The zero-terminated UTF-16 form of a text, as the window system takes
/// it.
pub fn to_wide(s: &str) -> (wide: Vec<u16>)
    ensures
        wide@ == utf16_units(s@).push(0),
{
    let mut wide = encode_utf16(s);
    wide.push(0);
    wide
}

} // verus!
