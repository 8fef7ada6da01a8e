//! Scalar codec: primitive wire values to and from native scalar types.
//!
//! Identifiers travel as byte sequences that must be exactly 16 bytes long;
//! labels as UTF-8 strings validated by the engine; timestamps as a pair of
//! seconds and nanoseconds; directions as a two-value wire enum.
//!
//! Optional fields follow one shared convention: a reserved value of the
//! ordinary encoding denotes "absent". For identifiers the reserved value is
//! the zero-length byte sequence (never a valid 16-byte encoding); for labels
//! it is the empty string (no valid label is empty); timestamps instead carry
//! an explicit "has field" flag, because zero is a legitimate timestamp.

use vstd::prelude::*;

use crate::errors::AdapterError;
use crate::errors::res_view;

verus! {

/// A 128-bit identity value; its wire form is exactly 16 bytes.
#[derive(Clone, Debug, PartialEq, Eq)]
pub struct Identifier {
    bytes: Vec<u8>,
}

impl View for Identifier {
    type V = Seq<u8>;

    closed spec fn view(&self) -> Seq<u8> {
        self.bytes@
    }
}

/// A typed label, drawn from the application-defined label set the engine
/// validates; never empty.
#[derive(Clone, Debug, PartialEq, Eq)]
pub struct Label {
    value: String,
}

impl View for Label {
    type V = Seq<char>;

    closed spec fn view(&self) -> Seq<char> {
        self.value@
    }
}

/// A UTC timestamp with second and nanosecond precision; the nanosecond
/// component of a well-formed value lies in `[0, 1_000_000_000)`.
#[derive(Clone, Copy, Debug, PartialEq, Eq)]
pub struct Timestamp {
    seconds: i64,
    nanos: u32,
}

/// The mathematical model of a timestamp (native or wire): the pair of its
/// components.
pub struct TimestampModel {
    pub seconds: i64,
    pub nanos: u32,
}

impl View for Timestamp {
    type V = TimestampModel;

    closed spec fn view(&self) -> TimestampModel {
        TimestampModel { seconds: self.seconds, nanos: self.nanos }
    }
}

/// A timestamp as it stands on the wire: unvalidated components.
#[derive(Clone, Copy, Debug, PartialEq, Eq)]
pub struct WireTimestamp {
    pub seconds: i64,
    pub nanos: u32,
}

impl View for WireTimestamp {
    type V = TimestampModel;

    open spec fn view(&self) -> TimestampModel {
        TimestampModel { seconds: self.seconds, nanos: self.nanos }
    }
}

/// Which endpoint of an edge a pipe step follows.
#[derive(Clone, Copy, Debug, PartialEq, Eq, Structural)]
pub enum Direction {
    Outbound,
    Inbound,
}

// ---------------------------------------------------------------------------
// Well-formedness of the native scalars, as seen through their views.
// ---------------------------------------------------------------------------

pub open spec fn identifier_wf(b: Seq<u8>) -> bool {
    b.len() == 16
}

pub open spec fn label_wf(s: Seq<char>) -> bool {
    s.len() > 0 && label_ok(s)
}

pub open spec fn timestamp_wf(t: TimestampModel) -> bool {
    t.nanos < 1_000_000_000
}

// ---------------------------------------------------------------------------
// The engine's label-validation rule.
// ---------------------------------------------------------------------------

/// Whether the engine's validation rule accepts a label string.
pub uninterp spec fn label_ok(s: Seq<char>) -> bool;

/// Relies on `indradb::Identifier::new`, the engine's label-validation rule:
/// it accepts or rejects a string by its length and characters alone
/// (at most 255 bytes; letters, numbers, dashes and underscores).
#[verifier::external_body]
fn validate_label(s: &String) -> (r: bool)
    ensures
        r == label_ok(s@),
{
    indradb::Identifier::new(s.as_str()).is_ok()
}

// ---------------------------------------------------------------------------
// The scalar conversions, as mathematical functions of the wire fields.
// ---------------------------------------------------------------------------

pub open spec fn decode_identifier(b: Seq<u8>) -> Result<Seq<u8>, AdapterError> {
    if b.len() == 16 {
        Ok(b)
    } else {
        Err(AdapterError::MalformedIdentifier)
    }
}

pub open spec fn decode_optional_identifier(b: Seq<u8>) -> Result<Option<Seq<u8>>, AdapterError> {
    if b.len() == 0 {
        Ok(None)
    } else {
        match decode_identifier(b) {
            Ok(i) => Ok(Some(i)),
            Err(e) => Err(e),
        }
    }
}

pub open spec fn encode_optional_identifier(o: Option<Seq<u8>>) -> Seq<u8> {
    match o {
        None => Seq::empty(),
        Some(b) => b,
    }
}

pub open spec fn decode_label(s: Seq<char>) -> Result<Seq<char>, AdapterError> {
    if s.len() > 0 && label_ok(s) {
        Ok(s)
    } else {
        Err(AdapterError::InvalidLabel)
    }
}

pub open spec fn decode_optional_label(s: Seq<char>) -> Result<Option<Seq<char>>, AdapterError> {
    if s.len() == 0 {
        Ok(None)
    } else {
        match decode_label(s) {
            Ok(l) => Ok(Some(l)),
            Err(e) => Err(e),
        }
    }
}

pub open spec fn encode_optional_label(o: Option<Seq<char>>) -> Seq<char> {
    match o {
        None => Seq::empty(),
        Some(s) => s,
    }
}

pub open spec fn decode_timestamp(w: TimestampModel) -> Result<TimestampModel, AdapterError> {
    if w.nanos < 1_000_000_000 {
        Ok(w)
    } else {
        Err(AdapterError::MalformedTimestamp)
    }
}

pub open spec fn decode_optional_timestamp(present: bool, w: TimestampModel) -> Result<
    Option<TimestampModel>,
    AdapterError,
> {
    if !present {
        Ok(None)
    } else {
        match decode_timestamp(w) {
            Ok(t) => Ok(Some(t)),
            Err(e) => Err(e),
        }
    }
}

/// The canonical wire form of an absent timestamp: the flag cleared and the
/// components zeroed.
pub open spec fn zero_timestamp() -> TimestampModel {
    TimestampModel { seconds: 0, nanos: 0 }
}

pub open spec fn encode_optional_timestamp(o: Option<TimestampModel>) -> (bool, TimestampModel) {
    match o {
        None => (false, zero_timestamp()),
        Some(t) => (true, t),
    }
}

pub open spec fn decode_direction(d: u16) -> Result<Direction, AdapterError> {
    if d == 0 {
        Ok(Direction::Outbound)
    } else if d == 1 {
        Ok(Direction::Inbound)
    } else {
        Err(AdapterError::UnknownDirection)
    }
}

pub open spec fn encode_direction(d: Direction) -> u16 {
    match d {
        Direction::Outbound => 0,
        Direction::Inbound => 1,
    }
}

// ---------------------------------------------------------------------------
// Executable conversions.
// ---------------------------------------------------------------------------

/// An element-wise copy of a byte sequence.
pub fn copy_bytes(v: &Vec<u8>) -> (r: Vec<u8>)
    ensures
        r@ == v@,
{
    let mut r: Vec<u8> = Vec::new();
    let mut i: usize = 0;
    while i < v.len()
        invariant
            i <= v.len(),
            r@ == v@.subrange(0, i as int),
        decreases v.len() - i,
    {
        r.push(v[i]);
        proof {
            assert(r@ =~= v@.subrange(0, i as int + 1));
        }
        i = i + 1;
    }
    proof {
        assert(r@ =~= v@);
    }
    r
}

/// Decodes an identifier from its wire bytes; fails with
/// `MalformedIdentifier` unless the input is exactly 16 bytes.
pub fn identifier_from_wire(bytes: &Vec<u8>) -> (r: Result<Identifier, AdapterError>)
    ensures
        res_view(r) == decode_identifier(bytes@),
{
    if bytes.len() == 16 {
        Ok(Identifier { bytes: copy_bytes(bytes) })
    } else {
        Err(AdapterError::MalformedIdentifier)
    }
}

/// Encodes an identifier into its wire bytes; total, and the exact inverse
/// of `identifier_from_wire`.
pub fn identifier_to_wire(id: &Identifier) -> (r: Vec<u8>)
    ensures
        r@ == id@,
{
    copy_bytes(&id.bytes)
}

/// Decodes an optional identifier: the zero-length byte sequence is the
/// reserved value for "absent".
pub fn optional_identifier_from_wire(bytes: &Vec<u8>) -> (r: Result<
    Option<Identifier>,
    AdapterError,
>)
    ensures
        match r {
            Ok(o) => decode_optional_identifier(bytes@) matches Ok(m) && (match o {
                Some(id) => m matches Some(b) && b == id@,
                None => m is None,
            }),
            Err(e) => decode_optional_identifier(bytes@) == Err::<Option<Seq<u8>>, _>(e),
        },
{
    if bytes.len() == 0 {
        Ok(None)
    } else {
        match identifier_from_wire(bytes) {
            Ok(id) => Ok(Some(id)),
            Err(e) => Err(e),
        }
    }
}

/// Encodes an optional identifier: `None` becomes the reserved zero-length
/// byte sequence, `Some` the identifier's 16 bytes.
pub fn optional_identifier_to_wire(o: &Option<Identifier>) -> (r: Vec<u8>)
    ensures
        r@ == encode_optional_identifier(match o {
            Some(id) => Some(id@),
            None => None,
        }),
{
    match o {
        None => Vec::new(),
        Some(id) => identifier_to_wire(id),
    }
}

/// Decodes a label from its wire string; fails with `InvalidLabel` if the
/// string is empty or the engine's validation rule rejects it.
pub fn label_from_wire(s: &String) -> (r: Result<Label, AdapterError>)
    ensures
        res_view(r) == decode_label(s@),
{
    if s.as_str().unicode_len() == 0 {
        Err(AdapterError::InvalidLabel)
    } else if validate_label(s) {
        Ok(Label { value: s.clone() })
    } else {
        Err(AdapterError::InvalidLabel)
    }
}

/// Encodes a label into its wire string; total.
pub fn label_to_wire(l: &Label) -> (r: String)
    ensures
        r@ == l@,
{
    l.value.clone()
}

/// Decodes an optional label: the empty string is the reserved value for
/// "absent" and is never validated.
pub fn optional_label_from_wire(s: &String) -> (r: Result<Option<Label>, AdapterError>)
    ensures
        match r {
            Ok(o) => decode_optional_label(s@) matches Ok(m) && (match o {
                Some(l) => m matches Some(v) && v == l@,
                None => m is None,
            }),
            Err(e) => decode_optional_label(s@) == Err::<Option<Seq<char>>, _>(e),
        },
{
    if s.as_str().unicode_len() == 0 {
        Ok(None)
    } else {
        match label_from_wire(s) {
            Ok(l) => Ok(Some(l)),
            Err(e) => Err(e),
        }
    }
}

/// Encodes an optional label: `None` becomes the reserved empty string.
pub fn optional_label_to_wire(o: &Option<Label>) -> (r: String)
    ensures
        r@ == encode_optional_label(match o {
            Some(l) => Some(l@),
            None => None,
        }),
{
    match o {
        None => String::new(),
        Some(l) => label_to_wire(l),
    }
}

/// Decodes a timestamp from its wire components; fails with
/// `MalformedTimestamp` if the nanosecond component is out of range.
pub fn timestamp_from_wire(seconds: i64, nanos: u32) -> (r: Result<Timestamp, AdapterError>)
    ensures
        res_view(r) == decode_timestamp(TimestampModel { seconds, nanos }),
{
    if nanos < 1_000_000_000 {
        Ok(Timestamp { seconds, nanos })
    } else {
        Err(AdapterError::MalformedTimestamp)
    }
}

/// Encodes a timestamp into its wire components; total, and the exact
/// inverse of `timestamp_from_wire`.
pub fn timestamp_to_wire(t: &Timestamp) -> (r: WireTimestamp)
    ensures
        r@ == t@,
{
    WireTimestamp { seconds: t.seconds, nanos: t.nanos }
}

/// Decodes an optional timestamp: presence is signalled by an explicit
/// "has field" flag, because zero is a legitimate timestamp; the components
/// are validated only when the flag is set.
pub fn optional_timestamp_from_wire(present: bool, w: &WireTimestamp) -> (r: Result<
    Option<Timestamp>,
    AdapterError,
>)
    ensures
        match r {
            Ok(o) => decode_optional_timestamp(present, w@) matches Ok(m) && (match o {
                Some(t) => m matches Some(v) && v == t@,
                None => m is None,
            }),
            Err(e) => decode_optional_timestamp(present, w@) == Err::<Option<TimestampModel>, _>(e),
        },
{
    if !present {
        Ok(None)
    } else {
        match timestamp_from_wire(w.seconds, w.nanos) {
            Ok(t) => Ok(Some(t)),
            Err(e) => Err(e),
        }
    }
}

/// Encodes an optional timestamp: `None` clears the "has field" flag and
/// writes the zeroed components; `Some` sets the flag and writes the value.
pub fn optional_timestamp_to_wire(o: &Option<Timestamp>) -> (r: (bool, WireTimestamp))
    ensures
        (r.0, r.1@) == encode_optional_timestamp(match o {
            Some(t) => Some(t@),
            None => None,
        }),
{
    match o {
        None => (false, WireTimestamp { seconds: 0, nanos: 0 }),
        Some(t) => (true, timestamp_to_wire(t)),
    }
}

/// Decodes a direction from its wire enum value; fails with
/// `UnknownDirection` for any value outside the two known variants.
pub fn direction_from_wire(d: u16) -> (r: Result<Direction, AdapterError>)
    ensures
        r == decode_direction(d),
{
    if d == 0 {
        Ok(Direction::Outbound)
    } else if d == 1 {
        Ok(Direction::Inbound)
    } else {
        Err(AdapterError::UnknownDirection)
    }
}

/// Encodes a direction into its wire enum value; total.
pub fn direction_to_wire(d: Direction) -> (r: u16)
    ensures
        r == encode_direction(d),
{
    match d {
        Direction::Outbound => 0,
        Direction::Inbound => 1,
    }
}

} // verus!
