//! Decoding of native callback payloads into structured slider events.
//!
//! Each native firing of the widget's `"update"` or `"end"` event supplies
//! six positional values: the formatted per-handle text, the index of the
//! triggering handle, the raw per-handle values, a tap flag, the per-handle
//! track percentages, and a reference to the widget itself (ignored).  The
//! decoder checks the shape of every field and either produces an `Event`
//! or reports the first field that does not match.

use vstd::prelude::*;

use crate::options::texts_of;

verus! {

/// One positional value of a native callback payload, as the host's glue
/// code saw it: text, a number, a flag, or anything else (`Null`).
#[derive(Debug, Clone, PartialEq)]
pub enum NativeValue {
    Text(String),
    Num(i64),
    Bool(bool),
    Null,
}

/// The six positional values of one native `"update"` / `"end"` firing.
#[derive(Debug, Clone, PartialEq)]
pub struct NativePayload {
    /// Formatted, display-ready text per handle.
    pub values: Vec<NativeValue>,
    /// Index of the handle that triggered the firing.
    pub handle: NativeValue,
    /// Raw numeric value per handle, before formatting.
    pub unencoded: Vec<NativeValue>,
    /// Whether the interaction was a tap rather than a drag.
    pub tap: NativeValue,
    /// Each handle's position as a percentage of the track.
    pub positions: Vec<NativeValue>,
    /// The widget's reference to itself; decoding ignores it.
    pub widget: NativeValue,
}

/// The structured event handed to the registered observer, one per native
/// firing.
#[derive(Debug, Clone, PartialEq)]
pub struct Event {
    pub values: Vec<String>,
    pub handle: usize,
    pub unencoded: Vec<i64>,
    pub tap: bool,
    pub positions: Vec<i64>,
    pub pips: Vec<i64>,
}

/// The mathematical content of an `Event`.
#[verifier::ext_equal]
pub ghost struct EventV {
    pub values: Seq<Seq<char>>,
    pub handle: int,
    pub unencoded: Seq<i64>,
    pub tap: bool,
    pub positions: Seq<i64>,
    pub pips: Seq<i64>,
}

impl View for Event {
    type V = EventV;

    open spec fn view(&self) -> EventV {
        EventV {
            values: texts_of(self.values@),
            handle: self.handle as int,
            unencoded: self.unencoded@,
            tap: self.tap,
            positions: self.positions@,
            pips: self.pips@,
        }
    }
}

impl Default for Event {
    /// The event before any native firing: no handles, handle index zero.
    fn default() -> (r: Self)
        ensures
            r@.values.len() == 0,
            r@.handle == 0,
            r@.unencoded.len() == 0,
            r@.tap == false,
            r@.positions.len() == 0,
            r@.pips.len() == 0,
    {
        let r = Event {
            values: Vec::new(),
            handle: 0,
            unencoded: Vec::new(),
            tap: false,
            positions: Vec::new(),
            pips: Vec::new(),
        };
        proof {
            assert(r@.values =~= Seq::<Seq<char>>::empty());
        }
        r
    }
}

/// The first payload field, in decoding order, that does not have the
/// expected native shape.
#[derive(Debug, Clone, Copy, PartialEq, Eq)]
pub enum DecodeError {
    /// Some entry of the formatted values is not text.
    BadValues,
    /// The handle index is not a number that fits an unsigned index.
    BadHandle,
    /// Some entry of the raw values is not a number.
    BadUnencoded,
    /// The tap flag is not a boolean.
    BadTap,
    /// Some entry of the positions is not a number.
    BadPositions,
}

/// Every entry is text.
pub open spec fn all_text(v: Seq<NativeValue>) -> bool {
    forall|i: int| 0 <= i < v.len() ==> v[i] is Text
}

/// Every entry is a number.
pub open spec fn all_num(v: Seq<NativeValue>) -> bool {
    forall|i: int| 0 <= i < v.len() ==> v[i] is Num
}

/// The handle field holds a number that can serve as an unsigned index.
pub open spec fn handle_ok(h: NativeValue) -> bool {
    h matches NativeValue::Num(n) && 0 <= n <= usize::MAX
}

/// The tap field holds a boolean.
pub open spec fn tap_ok(t: NativeValue) -> bool {
    t is Bool
}

/// Every field of the payload has the shape the decoder expects.
pub open spec fn payload_ok(p: NativePayload) -> bool {
    &&& all_text(p.values@)
    &&& handle_ok(p.handle)
    &&& all_num(p.unencoded@)
    &&& tap_ok(p.tap)
    &&& all_num(p.positions@)
}

/// The first field, in decoding order, whose shape is wrong (meaningful
/// when `payload_ok` fails).
pub open spec fn spec_decode_err(p: NativePayload) -> DecodeError {
    if !all_text(p.values@) {
        DecodeError::BadValues
    } else if !handle_ok(p.handle) {
        DecodeError::BadHandle
    } else if !all_num(p.unencoded@) {
        DecodeError::BadUnencoded
    } else if !tap_ok(p.tap) {
        DecodeError::BadTap
    } else {
        DecodeError::BadPositions
    }
}

/// The text carried by each entry (meaningful when `all_text` holds).
pub open spec fn texts_from(v: Seq<NativeValue>) -> Seq<Seq<char>> {
    Seq::new(
        v.len(),
        |i: int|
            match v[i] {
                NativeValue::Text(s) => s@,
                _ => Seq::<char>::empty(),
            },
    )
}

/// The number carried by each entry (meaningful when `all_num` holds).
pub open spec fn nums_from(v: Seq<NativeValue>) -> Seq<i64> {
    Seq::new(
        v.len(),
        |i: int|
            match v[i] {
                NativeValue::Num(n) => n,
                _ => 0,
            },
    )
}

/// The event a well-shaped payload decodes to, with the given rendered pip
/// values attached.
pub open spec fn spec_decode(p: NativePayload, pips: Seq<i64>) -> EventV {
    EventV {
        values: texts_from(p.values@),
        handle: match p.handle {
            NativeValue::Num(n) => n as int,
            _ => 0,
        },
        unencoded: nums_from(p.unencoded@),
        tap: match p.tap {
            NativeValue::Bool(b) => b,
            _ => false,
        },
        positions: nums_from(p.positions@),
        pips: pips,
    }
}

/// Copies the text out of every entry; fails on the first entry that is
/// not text.
fn take_texts(v: &Vec<NativeValue>) -> (r: Option<Vec<String>>)
    ensures
        r is Some <==> all_text(v@),
        r matches Some(out) ==> texts_of(out@) =~= texts_from(v@),
{
    let mut out: Vec<String> = Vec::new();
    let mut i: usize = 0;
    while i < v.len()
        invariant
            0 <= i <= v@.len(),
            out@.len() == i,
            forall|j: int| 0 <= j < i ==> v@[j] is Text,
            forall|j: int| 0 <= j < i ==> texts_of(out@)[j] == texts_from(v@)[j],
        decreases v@.len() - i,
    {
        match &v[i] {
            NativeValue::Text(s) => {
                let copy = s.clone();
                out.push(copy);
            },
            _ => {
                return None;
            },
        }
        i = i + 1;
    }
    proof {
        assert(texts_of(out@) =~= texts_from(v@));
    }
    Some(out)
}

/// Copies the number out of every entry; fails on the first entry that is
/// not a number.
fn take_nums(v: &Vec<NativeValue>) -> (r: Option<Vec<i64>>)
    ensures
        r is Some <==> all_num(v@),
        r matches Some(out) ==> out@ =~= nums_from(v@),
{
    let mut out: Vec<i64> = Vec::new();
    let mut i: usize = 0;
    while i < v.len()
        invariant
            0 <= i <= v@.len(),
            out@.len() == i,
            forall|j: int| 0 <= j < i ==> v@[j] is Num,
            forall|j: int| 0 <= j < i ==> out@[j] == nums_from(v@)[j],
        decreases v@.len() - i,
    {
        match &v[i] {
            NativeValue::Num(n) => {
                out.push(*n);
            },
            _ => {
                return None;
            },
        }
        i = i + 1;
    }
    proof {
        assert(out@ =~= nums_from(v@));
    }
    Some(out)
}

/// Decodes one native firing.  Field checks run in payload order, and the
/// first mismatch names the field; a well-shaped payload decodes to exactly
/// the event `spec_decode` describes, with the given rendered pip values
/// attached unchanged.
pub fn decode_event(payload: &NativePayload, pips: Vec<i64>) -> (r: Result<
    Event,
    DecodeError,
>)
    ensures
        r is Ok <==> payload_ok(*payload),
        r matches Ok(e) ==> e@ =~= spec_decode(*payload, pips@),
        !payload_ok(*payload) ==> r == Err::<Event, DecodeError>(spec_decode_err(*payload)),
{
    let values = match take_texts(&payload.values) {
        Some(v) => v,
        None => {
            return Err(DecodeError::BadValues);
        },
    };
    let handle: usize = match &payload.handle {
        NativeValue::Num(n) => {
            if *n >= 0 && (*n as u64) <= (usize::MAX as u64) {
                *n as usize
            } else {
                return Err(DecodeError::BadHandle);
            }
        },
        _ => {
            return Err(DecodeError::BadHandle);
        },
    };
    let unencoded = match take_nums(&payload.unencoded) {
        Some(v) => v,
        None => {
            return Err(DecodeError::BadUnencoded);
        },
    };
    let tap: bool = match &payload.tap {
        NativeValue::Bool(b) => *b,
        _ => {
            return Err(DecodeError::BadTap);
        },
    };
    let positions = match take_nums(&payload.positions) {
        Some(v) => v,
        None => {
            return Err(DecodeError::BadPositions);
        },
    };
    let e = Event { values, handle, unencoded, tap, positions, pips };
    proof {
        assert(e@ =~= spec_decode(*payload, e.pips@));
    }
    Ok(e)
}

}
