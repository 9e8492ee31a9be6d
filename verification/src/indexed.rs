//! The record serializer: drives the scalar codec across an ordered list of
//! fields belonging to one record, in either positional ("indexed") or
//! key-prefixed ("keyed") mode.
//!
//! One serializer session encodes exactly one record.  Nested records encode
//! by a further `serialize_fields` call on the same session, which splices
//! the inner record's fields into the stream with the same delimiter.

use vstd::prelude::*;
use crate::text::{chars_of, string_of, subvec};
use crate::value::{encode_value, value_text, Value, ValueV};

verus! {

/// An encoding failure: an attempt to encode a value shape the format
/// cannot represent, named after the offending construct.
#[derive(Debug)]
pub enum EncodeError {
    Unsupported(&'static str),
}

/// One named field of a record.  In positional mode only the value reaches
/// the wire; in keyed mode the name does too.
pub struct Field {
    pub name: String,
    pub value: Value,
}

/// The mathematical model of a `Field`.
pub struct FieldV {
    pub name: Seq<char>,
    pub value: ValueV,
}

impl View for Field {
    type V = FieldV;

    open spec fn view(&self) -> FieldV {
        FieldV { name: self.name@, value: self.value@ }
    }
}

/// What stands between the previous output and the next value: nothing at
/// the very start of a session, the field delimiter afterwards.
pub open spec fn sep_prefix(is_start: bool, delim: Seq<char>) -> Seq<char> {
    if is_start {
        Seq::empty()
    } else {
        delim
    }
}

/// The text one value appends to a session with flag `is_start`, and the
/// flag afterwards.  An absent optional appends the bare delimiter and
/// leaves the flag alone: its slot is emitted, but it starts nothing.
pub open spec fn emit_value(is_start: bool, delim: Seq<char>, v: ValueV) -> (Seq<char>, bool) {
    if v is Absent {
        (delim, is_start)
    } else {
        (sep_prefix(is_start, delim) + value_text(v), false)
    }
}

/// The text one field appends: in keyed mode the field's name (as a value
/// of its own), then the value; in positional mode just the value.
pub open spec fn emit_field(
    is_start: bool,
    delim: Seq<char>,
    map_like: bool,
    name: Seq<char>,
    v: ValueV,
) -> (Seq<char>, bool) {
    if map_like {
        (
            sep_prefix(is_start, delim) + name + emit_value(false, delim, v).0,
            emit_value(false, delim, v).1,
        )
    } else {
        emit_value(is_start, delim, v)
    }
}

/// The text a whole field list appends, visiting fields in declared order.
pub open spec fn emit_fields(
    is_start: bool,
    delim: Seq<char>,
    map_like: bool,
    fields: Seq<FieldV>,
) -> (Seq<char>, bool)
    decreases fields.len(),
{
    if fields.len() == 0 {
        (Seq::empty(), is_start)
    } else {
        let head = emit_field(is_start, delim, map_like, fields[0].name, fields[0].value);
        let rest = emit_fields(head.1, delim, map_like, fields.drop_first());
        (head.0 + rest.0, rest.1)
    }
}

/// A serializer session for one record.
pub struct IndexedSerializer {
    pub delimiter: Vec<char>,
    pub buffer: Vec<char>,
    pub map_like: bool,
    /// Whether nothing has been serialized yet.  This flag cannot be
    /// replaced by a check that the buffer is still empty: the first field
    /// may be an absent optional, which serializes to the empty string, and
    /// the next field must still be preceded by a delimiter.
    pub is_start: bool,
}

impl IndexedSerializer {
    pub fn new(delimiter: &str, map_like: bool) -> (r: IndexedSerializer)
        ensures
            r.delimiter@ == delimiter@,
            r.buffer@ == Seq::<char>::empty(),
            r.map_like == map_like,
            r.is_start,
    {
        IndexedSerializer {
            delimiter: chars_of(delimiter),
            buffer: Vec::new(),
            map_like,
            is_start: true,
        }
    }

    fn append_chars(&mut self, cs: &Vec<char>) -> (r: Result<(), EncodeError>)
        ensures
            r is Ok,
            final(self).buffer@ == old(self).buffer@ + sep_prefix(
                old(self).is_start,
                old(self).delimiter@,
            ) + cs@,
            !final(self).is_start,
            final(self).delimiter == old(self).delimiter,
            final(self).map_like == old(self).map_like,
    {
        if self.is_start {
            self.is_start = false;
        } else {
            let mut d = subvec(&self.delimiter, 0, self.delimiter.len());
            proof {
                assert(d@ =~= self.delimiter@);
            }
            self.buffer.append(&mut d);
        }
        let mut c = subvec(cs, 0, cs.len());
        proof {
            assert(c@ =~= cs@);
        }
        self.buffer.append(&mut c);
        proof {
            assert(self.buffer@ =~= old(self).buffer@ + sep_prefix(
                old(self).is_start,
                old(self).delimiter@,
            ) + cs@);
        }
        Ok(())
    }

    /// Appends raw text as one value: a delimiter first unless the session
    /// has emitted nothing yet.
    pub fn append(&mut self, s: &str) -> (r: Result<(), EncodeError>)
        ensures
            r is Ok,
            final(self).buffer@ == old(self).buffer@ + sep_prefix(
                old(self).is_start,
                old(self).delimiter@,
            ) + s@,
            !final(self).is_start,
            final(self).delimiter == old(self).delimiter,
            final(self).map_like == old(self).map_like,
    {
        let cs = chars_of(s);
        self.append_chars(&cs)
    }

    /// Serializes one scalar value.  An absent optional appends the bare
    /// delimiter — its slot stays — and leaves the start flag alone.
    pub fn serialize_value(&mut self, v: &Value) -> (r: Result<(), EncodeError>)
        ensures
            r is Ok,
            final(self).buffer@ == old(self).buffer@ + emit_value(
                old(self).is_start,
                old(self).delimiter@,
                v@,
            ).0,
            final(self).is_start == emit_value(old(self).is_start, old(self).delimiter@, v@).1,
            final(self).delimiter == old(self).delimiter,
            final(self).map_like == old(self).map_like,
    {
        match v {
            Value::Absent => self.serialize_none(),
            _ => {
                let cs = encode_value(v);
                self.append_chars(&cs)
            },
        }
    }

    /// Serializes an absent optional: the surrounding delimiter is emitted,
    /// nothing else, and the start flag is left as it was.
    pub fn serialize_none(&mut self) -> (r: Result<(), EncodeError>)
        ensures
            r is Ok,
            final(self).buffer@ == old(self).buffer@ + old(self).delimiter@,
            final(self).is_start == old(self).is_start,
            final(self).delimiter == old(self).delimiter,
            final(self).map_like == old(self).map_like,
    {
        let mut d = subvec(&self.delimiter, 0, self.delimiter.len());
        proof {
            assert(d@ =~= self.delimiter@);
        }
        self.buffer.append(&mut d);
        Ok(())
    }

    /// Serializes a present optional: exactly the contained value.
    pub fn serialize_some(&mut self, v: &Value) -> (r: Result<(), EncodeError>)
        ensures
            r is Ok,
            final(self).buffer@ == old(self).buffer@ + emit_value(
                old(self).is_start,
                old(self).delimiter@,
                v@,
            ).0,
            final(self).is_start == emit_value(old(self).is_start, old(self).delimiter@, v@).1,
            final(self).delimiter == old(self).delimiter,
            final(self).map_like == old(self).map_like,
    {
        self.serialize_value(v)
    }

    /// Serializes one field: in keyed mode the declared name first, then
    /// the value, each preceded by the delimiter logic of the session.
    pub fn serialize_field(&mut self, key: &str, v: &Value) -> (r: Result<(), EncodeError>)
        ensures
            r is Ok,
            final(self).buffer@ == old(self).buffer@ + emit_field(
                old(self).is_start,
                old(self).delimiter@,
                old(self).map_like,
                key@,
                v@,
            ).0,
            final(self).is_start == emit_field(
                old(self).is_start,
                old(self).delimiter@,
                old(self).map_like,
                key@,
                v@,
            ).1,
            final(self).delimiter == old(self).delimiter,
            final(self).map_like == old(self).map_like,
    {
        if self.map_like {
            let _ = self.append(key);
        }
        let r = self.serialize_value(v);
        proof {
            if old(self).map_like {
                assert(self.buffer@ =~= old(self).buffer@ + emit_field(
                    old(self).is_start,
                    old(self).delimiter@,
                    old(self).map_like,
                    key@,
                    v@,
                ).0);
            }
        }
        r
    }

    /// Serializes a whole record: its fields in declared order.
    pub fn serialize_fields(&mut self, fields: &Vec<Field>) -> (r: Result<(), EncodeError>)
        ensures
            r is Ok,
            final(self).buffer@ == old(self).buffer@ + emit_fields(
                old(self).is_start,
                old(self).delimiter@,
                old(self).map_like,
                fields@.map_values(|f: Field| f@),
            ).0,
            final(self).is_start == emit_fields(
                old(self).is_start,
                old(self).delimiter@,
                old(self).map_like,
                fields@.map_values(|f: Field| f@),
            ).1,
            final(self).delimiter == old(self).delimiter,
            final(self).map_like == old(self).map_like,
    {
        let ghost views = fields@.map_values(|f: Field| f@);
        let ghost d = old(self).delimiter@;
        let ghost m = old(self).map_like;
        let ghost start0 = old(self).is_start;
        let ghost buf0 = old(self).buffer@;
        let mut i: usize = 0;
        proof {
            assert(views.skip(0) =~= views);
        }
        while i < fields.len()
            invariant
                i <= fields@.len(),
                views == fields@.map_values(|f: Field| f@),
                views.len() == fields@.len(),
                self.delimiter@ == d,
                self.delimiter == old(self).delimiter,
                self.map_like == m,
                buf0 + emit_fields(start0, d, m, views).0 == self.buffer@ + emit_fields(
                    self.is_start,
                    d,
                    m,
                    views.skip(i as int),
                ).0,
                emit_fields(start0, d, m, views).1 == emit_fields(
                    self.is_start,
                    d,
                    m,
                    views.skip(i as int),
                ).1,
            decreases fields@.len() - i,
        {
            let ghost pre_start = self.is_start;
            let ghost pre_buf = self.buffer@;
            proof {
                assert(views.skip(i as int).drop_first() =~= views.skip(i + 1 as int));
                assert(views.skip(i as int)[0] == views[i as int]);
                assert(views[i as int] == fields@[i as int]@);
            }
            let fld = &fields[i];
            let _ = self.serialize_field(fld.name.as_str(), &fld.value);
            proof {
                let head = emit_field(pre_start, d, m, views[i as int].name, views[i as int].value);
                let rest = emit_fields(head.1, d, m, views.skip(i + 1 as int));
                assert(emit_fields(pre_start, d, m, views.skip(i as int)).0 == head.0 + rest.0);
                assert(pre_buf + (head.0 + rest.0) =~= (pre_buf + head.0) + rest.0);
            }
            i = i + 1;
        }
        proof {
            assert(views.skip(views.len() as int) =~= Seq::<FieldV>::empty());
            assert(self.buffer@ + Seq::<char>::empty() =~= self.buffer@);
            assert(buf0 + emit_fields(start0, d, m, views).0 =~= self.buffer@);
        }
        Ok(())
    }

    /// The text serialized so far, as a string.
    pub fn into_string(self) -> (r: String)
        ensures
            r@ == self.buffer@,
    {
        string_of(&self.buffer)
    }

    /// Starts a record; the format stores neither the record's name nor its
    /// field count, so there is nothing to emit.
    pub fn serialize_struct(&mut self) -> (r: Result<(), EncodeError>)
        ensures
            r is Ok,
            *final(self) == *old(self),
    {
        Ok(())
    }

    /// The format has no representation for a bare unit value.
    pub fn serialize_unit(&self) -> (r: Result<(), EncodeError>)
        ensures
            r matches Err(EncodeError::Unsupported(n)) && n@ == "serialize_unit"@,
    {
        Err(EncodeError::Unsupported("serialize_unit"))
    }

    /// The format has no representation for a unit struct.
    pub fn serialize_unit_struct(&self) -> (r: Result<(), EncodeError>)
        ensures
            r matches Err(EncodeError::Unsupported(n)) && n@ == "serialize_unit_struct"@,
    {
        Err(EncodeError::Unsupported("serialize_unit_struct"))
    }

    /// The format has no representation for a tag-only variant.
    pub fn serialize_unit_variant(&self) -> (r: Result<(), EncodeError>)
        ensures
            r matches Err(EncodeError::Unsupported(n)) && n@ == "serialize_unit_variant"@,
    {
        Err(EncodeError::Unsupported("serialize_unit_variant"))
    }

    /// The format has no representation for a newtype struct.
    pub fn serialize_newtype_struct(&self) -> (r: Result<(), EncodeError>)
        ensures
            r matches Err(EncodeError::Unsupported(n)) && n@ == "serialize_newtype_struct"@,
    {
        Err(EncodeError::Unsupported("serialize_newtype_struct"))
    }

    /// The format has no representation for a tag-with-payload variant.
    pub fn serialize_newtype_variant(&self) -> (r: Result<(), EncodeError>)
        ensures
            r matches Err(EncodeError::Unsupported(n)) && n@ == "serialize_newtype_variant"@,
    {
        Err(EncodeError::Unsupported("serialize_newtype_variant"))
    }

    /// The format has no representation for a sequence.
    pub fn serialize_seq(&self) -> (r: Result<(), EncodeError>)
        ensures
            r matches Err(EncodeError::Unsupported(n)) && n@ == "serialize_seq"@,
    {
        Err(EncodeError::Unsupported("serialize_seq"))
    }

    /// The format has no representation for a tuple.
    pub fn serialize_tuple(&self) -> (r: Result<(), EncodeError>)
        ensures
            r matches Err(EncodeError::Unsupported(n)) && n@ == "serialize_tuple"@,
    {
        Err(EncodeError::Unsupported("serialize_tuple"))
    }

    /// The format has no representation for a tuple struct.
    pub fn serialize_tuple_struct(&self) -> (r: Result<(), EncodeError>)
        ensures
            r matches Err(EncodeError::Unsupported(n)) && n@ == "serialize_tuple_struct"@,
    {
        Err(EncodeError::Unsupported("serialize_tuple_struct"))
    }

    /// The format has no representation for a tuple variant.
    pub fn serialize_tuple_variant(&self) -> (r: Result<(), EncodeError>)
        ensures
            r matches Err(EncodeError::Unsupported(n)) && n@ == "serialize_tuple_variant"@,
    {
        Err(EncodeError::Unsupported("serialize_tuple_variant"))
    }

    /// The format has no representation for a map.
    pub fn serialize_map(&self) -> (r: Result<(), EncodeError>)
        ensures
            r matches Err(EncodeError::Unsupported(n)) && n@ == "serialize_map"@,
    {
        Err(EncodeError::Unsupported("serialize_map"))
    }

    /// The format has no representation for a struct-shaped variant.
    pub fn serialize_struct_variant(&self) -> (r: Result<(), EncodeError>)
        ensures
            r matches Err(EncodeError::Unsupported(n)) && n@ == "serialize_struct_variant"@,
    {
        Err(EncodeError::Unsupported("serialize_struct_variant"))
    }

    /// The format has no representation for a formatted, collected string.
    pub fn collect_str(&self) -> (r: Result<(), EncodeError>)
        ensures
            r matches Err(EncodeError::Unsupported(n)) && n@ == "collect_str"@,
    {
        Err(EncodeError::Unsupported("collect_str"))
    }
}

/// Encodes one whole record in a fresh session and returns its wire text.
pub fn encode_record(fields: &Vec<Field>, delimiter: &str, map_like: bool) -> (r: String)
    ensures
        r@ == emit_fields(true, delimiter@, map_like, fields@.map_values(|f: Field| f@)).0,
{
    let mut ser = IndexedSerializer::new(delimiter, map_like);
    let _ = ser.serialize_fields(fields);
    ser.into_string()
}

} // verus!
