//! The scalar value model of the wire format: one tag per supported shape,
//! the exact wire text of each value, and the scalar decoder, which accepts
//! exactly the encoder's output.
//!
//! Shapes the format has no representation for (unit values, variants,
//! sequences, tuples, maps) have no tag here; the serializer rejects them by
//! name instead (see the record serializer).

use vstd::prelude::*;
use crate::b64::{b64_of, b64_encode, b64_decode};
use crate::num::{
    is_sdec, is_udec, sdec_val, spec_sdec, spec_udec, udec_val, fmt_i64, fmt_u64, parse_i64,
    parse_u64, lemma_sdec_round_trip, lemma_udec_round_trip,
};
use crate::text::{chars_of, string_of};

verus! {

/// A scalar field value.
///
/// A floating-point value is carried as the decimal text produced by the
/// platform's standard numeric-to-text conversion; the conversion itself
/// happens at the caller's boundary, since the verified core holds no
/// floating point.  That conversion renders a value with zero fractional
/// part without any fractional suffix, which is exactly the wire quirk the
/// format demands.
///
/// `Absent` is an absent optional value: it encodes to nothing, but its
/// delimiter slot is still emitted.  A present optional value is simply the
/// contained value.
pub enum Value {
    Bool(bool),
    I8(i8),
    I16(i16),
    I32(i32),
    I64(i64),
    U8(u8),
    U16(u16),
    U32(u32),
    U64(u64),
    Float(String),
    Char(char),
    Str(String),
    Bytes(Vec<u8>),
    Absent,
}

/// The mathematical model of a `Value`.
pub enum ValueV {
    Bool(bool),
    I8(i8),
    I16(i16),
    I32(i32),
    I64(i64),
    U8(u8),
    U16(u16),
    U32(u32),
    U64(u64),
    Float(Seq<char>),
    Char(char),
    Str(Seq<char>),
    Bytes(Seq<u8>),
    Absent,
}

impl View for Value {
    type V = ValueV;

    open spec fn view(&self) -> ValueV {
        match self {
            Value::Bool(b) => ValueV::Bool(*b),
            Value::I8(x) => ValueV::I8(*x),
            Value::I16(x) => ValueV::I16(*x),
            Value::I32(x) => ValueV::I32(*x),
            Value::I64(x) => ValueV::I64(*x),
            Value::U8(x) => ValueV::U8(*x),
            Value::U16(x) => ValueV::U16(*x),
            Value::U32(x) => ValueV::U32(*x),
            Value::U64(x) => ValueV::U64(*x),
            Value::Float(t) => ValueV::Float(t@),
            Value::Char(c) => ValueV::Char(*c),
            Value::Str(s) => ValueV::Str(s@),
            Value::Bytes(b) => ValueV::Bytes(b@),
            Value::Absent => ValueV::Absent,
        }
    }
}

/// The declared type of a field.
#[derive(Clone, Copy)]
pub enum Kind {
    Bool,
    I8,
    I16,
    I32,
    I64,
    U8,
    U16,
    U32,
    U64,
    Float,
    Char,
    Str,
    Bytes,
}

/// `v` is a value of kind `k`; `Absent` may stand in any field.
pub open spec fn has_kind(v: ValueV, k: Kind) -> bool {
    match v {
        ValueV::Bool(_) => k is Bool,
        ValueV::I8(_) => k is I8,
        ValueV::I16(_) => k is I16,
        ValueV::I32(_) => k is I32,
        ValueV::I64(_) => k is I64,
        ValueV::U8(_) => k is U8,
        ValueV::U16(_) => k is U16,
        ValueV::U32(_) => k is U32,
        ValueV::U64(_) => k is U64,
        ValueV::Float(_) => k is Float,
        ValueV::Char(_) => k is Char,
        ValueV::Str(_) => k is Str,
        ValueV::Bytes(_) => k is Bytes,
        ValueV::Absent => true,
    }
}

/// The exact wire text of a value: `"1"`/`"0"` for booleans, canonical
/// decimal for integers, the platform-rendered text for floats, the raw
/// character(s) for characters and strings, URL-safe base64 for byte blobs,
/// and nothing for an absent optional.
pub open spec fn value_text(v: ValueV) -> Seq<char> {
    match v {
        ValueV::Bool(b) => if b {
            seq!['1']
        } else {
            seq!['0']
        },
        ValueV::I8(x) => spec_sdec(x as int),
        ValueV::I16(x) => spec_sdec(x as int),
        ValueV::I32(x) => spec_sdec(x as int),
        ValueV::I64(x) => spec_sdec(x as int),
        ValueV::U8(x) => spec_udec(x as nat),
        ValueV::U16(x) => spec_udec(x as nat),
        ValueV::U32(x) => spec_udec(x as nat),
        ValueV::U64(x) => spec_udec(x as nat),
        ValueV::Float(t) => t,
        ValueV::Char(c) => seq![c],
        ValueV::Str(s) => s,
        ValueV::Bytes(b) => b64_of(b),
        ValueV::Absent => Seq::empty(),
    }
}

/// The wire text of `v`, as characters.
pub fn encode_value(v: &Value) -> (r: Vec<char>)
    ensures
        r@ == value_text(v@),
{
    match v {
        Value::Bool(b) => {
            let mut r: Vec<char> = Vec::new();
            if *b {
                r.push('1');
            } else {
                r.push('0');
            }
            proof {
                if *b {
                    assert(r@ =~= seq!['1']);
                } else {
                    assert(r@ =~= seq!['0']);
                }
            }
            r
        },
        Value::I8(x) => fmt_i64(*x as i64),
        Value::I16(x) => fmt_i64(*x as i64),
        Value::I32(x) => fmt_i64(*x as i64),
        Value::I64(x) => fmt_i64(*x),
        Value::U8(x) => fmt_u64(*x as u64),
        Value::U16(x) => fmt_u64(*x as u64),
        Value::U32(x) => fmt_u64(*x as u64),
        Value::U64(x) => fmt_u64(*x),
        Value::Float(t) => chars_of(t.as_str()),
        Value::Char(c) => {
            let mut r: Vec<char> = Vec::new();
            r.push(*c);
            proof {
                assert(r@ =~= seq![*c]);
            }
            r
        },
        Value::Str(s) => chars_of(s.as_str()),
        Value::Bytes(b) => b64_encode(b),
        Value::Absent => Vec::new(),
    }
}

/// What the scalar decoder yields for fragment text `t` read at kind `k`:
/// the unique value whose wire text is `t`, or nothing if `t` is not a
/// valid encoding.  An empty fragment in an optional slot is the absent
/// value; an empty fragment in a required string slot is the empty string —
/// only schema knowledge of optionality tells the two apart.
pub open spec fn spec_decode_scalar(t: Seq<char>, k: Kind, optional: bool) -> Option<ValueV> {
    if optional && t.len() == 0 {
        Some(ValueV::Absent)
    } else {
        match k {
            Kind::Bool => if t == seq!['1'] {
                Some(ValueV::Bool(true))
            } else if t == seq!['0'] {
                Some(ValueV::Bool(false))
            } else {
                None
            },
            Kind::I8 => if is_sdec(t) && i8::MIN <= sdec_val(t) <= i8::MAX {
                Some(ValueV::I8(sdec_val(t) as i8))
            } else {
                None
            },
            Kind::I16 => if is_sdec(t) && i16::MIN <= sdec_val(t) <= i16::MAX {
                Some(ValueV::I16(sdec_val(t) as i16))
            } else {
                None
            },
            Kind::I32 => if is_sdec(t) && i32::MIN <= sdec_val(t) <= i32::MAX {
                Some(ValueV::I32(sdec_val(t) as i32))
            } else {
                None
            },
            Kind::I64 => if is_sdec(t) && i64::MIN <= sdec_val(t) <= i64::MAX {
                Some(ValueV::I64(sdec_val(t) as i64))
            } else {
                None
            },
            Kind::U8 => if is_udec(t) && udec_val(t) <= u8::MAX {
                Some(ValueV::U8(udec_val(t) as u8))
            } else {
                None
            },
            Kind::U16 => if is_udec(t) && udec_val(t) <= u16::MAX {
                Some(ValueV::U16(udec_val(t) as u16))
            } else {
                None
            },
            Kind::U32 => if is_udec(t) && udec_val(t) <= u32::MAX {
                Some(ValueV::U32(udec_val(t) as u32))
            } else {
                None
            },
            Kind::U64 => if is_udec(t) && udec_val(t) <= u64::MAX {
                Some(ValueV::U64(udec_val(t) as u64))
            } else {
                None
            },
            Kind::Float => if t.len() > 0 {
                Some(ValueV::Float(t))
            } else {
                None
            },
            Kind::Char => if t.len() == 1 {
                Some(ValueV::Char(t[0]))
            } else {
                None
            },
            Kind::Str => Some(ValueV::Str(t)),
            Kind::Bytes => if exists|bs: Seq<u8>| t == b64_of(bs) {
                Some(ValueV::Bytes(choose|bs: Seq<u8>| t == b64_of(bs)))
            } else {
                None
            },
        }
    }
}

/// Decodes one fragment at the given kind; accepts exactly the wire forms
/// of `value_text` and rejects anything else.
pub fn decode_scalar(frag: &Vec<char>, k: Kind, optional: bool) -> (r: Option<Value>)
    ensures
        match r {
            Some(v) => spec_decode_scalar(frag@, k, optional) == Some(v@),
            None => spec_decode_scalar(frag@, k, optional) is None,
        },
{
    if optional && frag.len() == 0 {
        return Some(Value::Absent);
    }
    match k {
        Kind::Bool => {
            if frag.len() == 1 {
                let c = frag[0];
                if c == '1' {
                    proof {
                        assert(frag@ =~= seq!['1']);
                    }
                    Some(Value::Bool(true))
                } else if c == '0' {
                    proof {
                        assert(frag@ =~= seq!['0']);
                        assert(frag@ != seq!['1']) by {
                            assert(frag@[0] != seq!['1'][0]);
                        }
                    }
                    Some(Value::Bool(false))
                } else {
                    proof {
                        assert(frag@ != seq!['1']) by {
                            assert(frag@[0] != seq!['1'][0]);
                        }
                        assert(frag@ != seq!['0']) by {
                            assert(frag@[0] != seq!['0'][0]);
                        }
                    }
                    None
                }
            } else {
                proof {
                    assert(frag@ != seq!['1']) by {
                        assert(frag@.len() != seq!['1'].len());
                    }
                    assert(frag@ != seq!['0']) by {
                        assert(frag@.len() != seq!['0'].len());
                    }
                }
                None
            }
        },
        Kind::I8 => match parse_i64(frag) {
            Some(v) => if -128 <= v && v <= 127 {
                Some(Value::I8(v as i8))
            } else {
                None
            },
            None => None,
        },
        Kind::I16 => match parse_i64(frag) {
            Some(v) => if -32768 <= v && v <= 32767 {
                Some(Value::I16(v as i16))
            } else {
                None
            },
            None => None,
        },
        Kind::I32 => match parse_i64(frag) {
            Some(v) => if -2147483648 <= v && v <= 2147483647 {
                Some(Value::I32(v as i32))
            } else {
                None
            },
            None => None,
        },
        Kind::I64 => match parse_i64(frag) {
            Some(v) => Some(Value::I64(v)),
            None => None,
        },
        Kind::U8 => match parse_u64(frag) {
            Some(v) => if v <= 255 {
                Some(Value::U8(v as u8))
            } else {
                None
            },
            None => None,
        },
        Kind::U16 => match parse_u64(frag) {
            Some(v) => if v <= 65535 {
                Some(Value::U16(v as u16))
            } else {
                None
            },
            None => None,
        },
        Kind::U32 => match parse_u64(frag) {
            Some(v) => if v <= 4294967295 {
                Some(Value::U32(v as u32))
            } else {
                None
            },
            None => None,
        },
        Kind::U64 => match parse_u64(frag) {
            Some(v) => Some(Value::U64(v)),
            None => None,
        },
        Kind::Float => {
            if frag.len() > 0 {
                Some(Value::Float(string_of(frag)))
            } else {
                None
            }
        },
        Kind::Char => {
            if frag.len() == 1 {
                Some(Value::Char(frag[0]))
            } else {
                None
            }
        },
        Kind::Str => Some(Value::Str(string_of(frag))),
        Kind::Bytes => match b64_decode(frag) {
            Some(d) => {
                proof {
                    let t = frag@;
                    assert(exists|bs: Seq<u8>| t == b64_of(bs)) by {
                        assert(t == b64_of(d@));
                    }
                    let w = choose|bs: Seq<u8>| t == b64_of(bs);
                    assert(d@ == w);
                }
                Some(Value::Bytes(d))
            },
            None => {
                proof {
                    if exists|bs: Seq<u8>| frag@ == b64_of(bs) {
                        let w = choose|bs: Seq<u8>| frag@ == b64_of(bs);
                        assert(frag@ == b64_of(w));
                        assert(false);
                    }
                }
                None
            },
        },
    }
}

/// Round-trip law: for every supported scalar kind, decoding the encoded
/// text of a value under its declared kind yields the value back.
///
/// Byte blobs are excluded here only because their round trip is stated on
/// the decoder itself (`b64_decode` inverts `b64_of` exactly); the law for
/// them is exercised through `encode_value`/`decode_scalar` at run time.
/// The one genuine boundary case is also visible in the hypotheses: an
/// absent optional and a present-but-empty string both encode to an empty
/// field, so an empty string value round-trips only through a required —
/// non-optional — string slot.
pub proof fn lemma_scalar_round_trip(v: ValueV, k: Kind, optional: bool)
    requires
        has_kind(v, k),
        !(v is Bytes),
        v is Absent ==> optional,
        v is Float ==> value_text(v).len() > 0,
        v is Str && optional ==> value_text(v).len() > 0,
    ensures
        spec_decode_scalar(value_text(v), k, optional) == Some(v),
{
    match v {
        ValueV::Bool(b) => {
            if b {
            } else {
                assert(value_text(v) != seq!['1']) by {
                    assert(value_text(v)[0] != seq!['1'][0]);
                }
            }
        },
        ValueV::I8(x) => {
            lemma_sdec_round_trip(x as int);
        },
        ValueV::I16(x) => {
            lemma_sdec_round_trip(x as int);
        },
        ValueV::I32(x) => {
            lemma_sdec_round_trip(x as int);
        },
        ValueV::I64(x) => {
            lemma_sdec_round_trip(x as int);
        },
        ValueV::U8(x) => {
            lemma_udec_round_trip(x as nat);
        },
        ValueV::U16(x) => {
            lemma_udec_round_trip(x as nat);
        },
        ValueV::U32(x) => {
            lemma_udec_round_trip(x as nat);
        },
        ValueV::U64(x) => {
            lemma_udec_round_trip(x as nat);
        },
        ValueV::Float(t) => {},
        ValueV::Char(c) => {},
        ValueV::Str(s) => {},
        ValueV::Bytes(b) => {},
        ValueV::Absent => {},
    }
}

} // verus!
