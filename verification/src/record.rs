//! The record decoder: splits one record's wire text on its field delimiter
//! and reads each declared field, positionally or by key.
//!
//! Decoding accepts exactly the serializer's forms and rejects anything
//! else with an error naming the offending field.

use vstd::prelude::*;
use crate::text::{chars_eq, spec_split, split_chars, string_of, subvec};
use crate::value::{has_kind, spec_decode_scalar, decode_scalar, Kind, Value, ValueV};

verus! {

/// A decoding failure: the fragment for a field could not be parsed into
/// its declared type, a required field was missing, or a keyed record's
/// fragments did not pair up into keys and values.
#[derive(Debug)]
pub enum DeError {
    Missing { field: String },
    Invalid { field: String, text: String },
    Malformed,
}

/// The mathematical model of a `DeError`.
pub enum DeErrorV {
    Missing { field: Seq<char> },
    Invalid { field: Seq<char>, text: Seq<char> },
    Malformed,
}

impl View for DeError {
    type V = DeErrorV;

    open spec fn view(&self) -> DeErrorV {
        match self {
            DeError::Missing { field } => DeErrorV::Missing { field: field@ },
            DeError::Invalid { field, text } => DeErrorV::Invalid { field: field@, text: text@ },
            DeError::Malformed => DeErrorV::Malformed,
        }
    }
}

/// One declared field of a record's schema: its wire name, its scalar kind,
/// and whether it is optional.
pub struct FieldSchema {
    pub name: String,
    pub kind: Kind,
    pub optional: bool,
}

/// The mathematical model of a `FieldSchema`.
pub struct FieldSchemaV {
    pub name: Seq<char>,
    pub kind: Kind,
    pub optional: bool,
}

impl View for FieldSchema {
    type V = FieldSchemaV;

    open spec fn view(&self) -> FieldSchemaV {
        FieldSchemaV { name: self.name@, kind: self.kind, optional: self.optional }
    }
}

/// Positional decoding of the fields of `schema` from position `i` on,
/// where `frags[j]` is the fragment for the `j`-th declared field.  A
/// fragment past the end of the fragment list stands for an absent optional
/// — or a missing required field; extra fragments are ignored.
pub open spec fn spec_decode_positional_from(
    frags: Seq<Seq<char>>,
    schema: Seq<FieldSchemaV>,
    i: int,
) -> Result<Seq<ValueV>, DeErrorV>
    decreases schema.len() - i,
{
    if i < 0 || i >= schema.len() {
        Ok(seq![])
    } else {
        let fld = schema[i];
        if i >= frags.len() {
            if fld.optional {
                match spec_decode_positional_from(frags, schema, i + 1) {
                    Ok(vs) => Ok(seq![ValueV::Absent] + vs),
                    Err(e) => Err(e),
                }
            } else {
                Err(DeErrorV::Missing { field: fld.name })
            }
        } else {
            match spec_decode_scalar(frags[i], fld.kind, fld.optional) {
                Some(v) => match spec_decode_positional_from(frags, schema, i + 1) {
                    Ok(vs) => Ok(seq![v] + vs),
                    Err(e) => Err(e),
                },
                None => Err(DeErrorV::Invalid { field: fld.name, text: frags[i] }),
            }
        }
    }
}

/// The value fragment paired with the first occurrence of key `name`,
/// scanning key/value fragment pairs from position `i` on.
pub open spec fn spec_lookup_from(frags: Seq<Seq<char>>, name: Seq<char>, i: int) -> Option<
    Seq<char>,
>
    decreases frags.len() - i,
{
    if i < 0 || i + 2 > frags.len() {
        None
    } else if frags[i] == name {
        Some(frags[i + 1])
    } else {
        spec_lookup_from(frags, name, i + 2)
    }
}

/// Keyed decoding of the fields of `schema` from position `i` on: each
/// field's fragment is looked up by its declared name among the key/value
/// pairs; unknown keys are ignored, and a field whose key is absent is an
/// absent optional — or a missing required field.
pub open spec fn spec_decode_keyed_from(
    frags: Seq<Seq<char>>,
    schema: Seq<FieldSchemaV>,
    i: int,
) -> Result<Seq<ValueV>, DeErrorV>
    decreases schema.len() - i,
{
    if i < 0 || i >= schema.len() {
        Ok(seq![])
    } else {
        let fld = schema[i];
        match spec_lookup_from(frags, fld.name, 0) {
            None => if fld.optional {
                match spec_decode_keyed_from(frags, schema, i + 1) {
                    Ok(vs) => Ok(seq![ValueV::Absent] + vs),
                    Err(e) => Err(e),
                }
            } else {
                Err(DeErrorV::Missing { field: fld.name })
            },
            Some(t) => match spec_decode_scalar(t, fld.kind, fld.optional) {
                Some(v) => match spec_decode_keyed_from(frags, schema, i + 1) {
                    Ok(vs) => Ok(seq![v] + vs),
                    Err(e) => Err(e),
                },
                None => Err(DeErrorV::Invalid { field: fld.name, text: t }),
            },
        }
    }
}

/// What decoding one record's text yields: the text is split on the field
/// delimiter; in keyed mode the fragments must pair up into keys and
/// values, and each declared field reads its fragment by name; in
/// positional mode the `j`-th declared field reads the `j`-th fragment.
pub open spec fn spec_decode_record(
    text: Seq<char>,
    delim: Seq<char>,
    map_like: bool,
    schema: Seq<FieldSchemaV>,
) -> Result<Seq<ValueV>, DeErrorV> {
    let frags = spec_split(text, delim);
    if map_like {
        if frags.len() % 2 == 1 {
            Err(DeErrorV::Malformed)
        } else {
            spec_decode_keyed_from(frags, schema, 0)
        }
    } else {
        spec_decode_positional_from(frags, schema, 0)
    }
}

/// A decoded scalar is of its declared kind, and a required one is never
/// the absent value.
pub proof fn lemma_scalar_kind(t: Seq<char>, k: Kind, optional: bool)
    ensures
        spec_decode_scalar(t, k, optional) matches Some(v) ==> has_kind(v, k) && (!optional
            ==> !(v is Absent)),
{
}

/// A positionally decoded record has one value per declared field, each of
/// its declared kind; required fields are never absent.
pub proof fn lemma_positional_kinds(frags: Seq<Seq<char>>, schema: Seq<FieldSchemaV>, i: int)
    requires
        0 <= i <= schema.len(),
    ensures
        spec_decode_positional_from(frags, schema, i) matches Ok(vs) ==> vs.len() == schema.len()
            - i && (forall|j: int|
            0 <= j < vs.len() ==> has_kind(#[trigger] vs[j], schema[i + j].kind) && (!schema[i
                + j].optional ==> !(vs[j] is Absent))),
    decreases schema.len() - i,
{
    if i < schema.len() {
        lemma_positional_kinds(frags, schema, i + 1);
        let r = spec_decode_positional_from(frags, schema, i);
        if r is Ok {
            let vs = r->Ok_0;
            let rest = spec_decode_positional_from(frags, schema, i + 1);
            if i < frags.len() {
                lemma_scalar_kind(frags[i], schema[i].kind, schema[i].optional);
            }
            assert forall|j: int| 0 <= j < vs.len() implies has_kind(
                #[trigger] vs[j],
                schema[i + j].kind,
            ) && (!schema[i + j].optional ==> !(vs[j] is Absent)) by {
                if j > 0 {
                    assert(vs[j] == rest->Ok_0[j - 1]);
                }
            }
        }
    }
}

/// The keyed counterpart of `lemma_positional_kinds`.
pub proof fn lemma_keyed_kinds(frags: Seq<Seq<char>>, schema: Seq<FieldSchemaV>, i: int)
    requires
        0 <= i <= schema.len(),
    ensures
        spec_decode_keyed_from(frags, schema, i) matches Ok(vs) ==> vs.len() == schema.len() - i
            && (forall|j: int|
            0 <= j < vs.len() ==> has_kind(#[trigger] vs[j], schema[i + j].kind) && (!schema[i
                + j].optional ==> !(vs[j] is Absent))),
    decreases schema.len() - i,
{
    if i < schema.len() {
        lemma_keyed_kinds(frags, schema, i + 1);
        let r = spec_decode_keyed_from(frags, schema, i);
        if r is Ok {
            let vs = r->Ok_0;
            let rest = spec_decode_keyed_from(frags, schema, i + 1);
            if spec_lookup_from(frags, schema[i].name, 0) is Some {
                lemma_scalar_kind(
                    spec_lookup_from(frags, schema[i].name, 0)->Some_0,
                    schema[i].kind,
                    schema[i].optional,
                );
            }
            assert forall|j: int| 0 <= j < vs.len() implies has_kind(
                #[trigger] vs[j],
                schema[i + j].kind,
            ) && (!schema[i + j].optional ==> !(vs[j] is Absent)) by {
                if j > 0 {
                    assert(vs[j] == rest->Ok_0[j - 1]);
                }
            }
        }
    }
}

fn lookup(frags: &Vec<Vec<char>>, name: &Vec<char>) -> (r: Option<Vec<char>>)
    ensures
        match r {
            Some(t) => spec_lookup_from(
                frags@.map_values(|f: Vec<char>| f@),
                name@,
                0,
            ) == Some(t@),
            None => spec_lookup_from(frags@.map_values(|f: Vec<char>| f@), name@, 0) is None,
        },
{
    let ghost fviews = frags@.map_values(|f: Vec<char>| f@);
    let len: usize = frags.len();
    let mut i: usize = 0;
    while len >= 2 && i <= len - 2
        invariant
            fviews == frags@.map_values(|f: Vec<char>| f@),
            fviews.len() == len,
            len == frags@.len(),
            i <= len,
            spec_lookup_from(fviews, name@, 0) == spec_lookup_from(fviews, name@, i as int),
        decreases len - i,
    {
        proof {
            assert(fviews[i as int] == frags@[i as int]@);
            assert(fviews[i + 1 as int] == frags@[i + 1 as int]@);
        }
        if chars_eq(&frags[i], name) {
            let t = subvec(&frags[i + 1], 0, frags[i + 1].len());
            proof {
                assert(t@ =~= fviews[i + 1 as int]);
            }
            return Some(t);
        }
        i = i + 2;
    }
    None
}

/// Decodes one record's wire text against its schema.  The result has one
/// value per declared field, in order, each of its declared kind; the first
/// offending field aborts the decode with an error naming it.
pub fn decode_record(
    text: &Vec<char>,
    delim: &Vec<char>,
    map_like: bool,
    schema: &Vec<FieldSchema>,
) -> (r: Result<Vec<Value>, DeError>)
    requires
        delim@.len() > 0,
    ensures
        match r {
            Ok(vs) => spec_decode_record(
                text@,
                delim@,
                map_like,
                schema@.map_values(|f: FieldSchema| f@),
            ) == Ok::<Seq<ValueV>, DeErrorV>(vs@.map_values(|v: Value| v@)),
            Err(e) => spec_decode_record(
                text@,
                delim@,
                map_like,
                schema@.map_values(|f: FieldSchema| f@),
            ) == Err::<Seq<ValueV>, DeErrorV>(e@),
        },
{
    let ghost sviews = schema@.map_values(|f: FieldSchema| f@);
    let frags = split_chars(text, delim);
    let ghost fviews = frags@.map_values(|f: Vec<char>| f@);
    proof {
        assert(fviews =~= spec_split(text@, delim@));
    }
    if map_like && frags.len() % 2 == 1 {
        return Err(DeError::Malformed);
    }
    let ghost full = if map_like {
        spec_decode_keyed_from(fviews, sviews, 0)
    } else {
        spec_decode_positional_from(fviews, sviews, 0)
    };
    let mut out: Vec<Value> = Vec::new();
    let mut i: usize = 0;
    proof {
        if full is Ok {
            assert(Seq::<ValueV>::empty() + full->Ok_0 =~= full->Ok_0);
        }
    }
    while i < schema.len()
        invariant
            delim@.len() > 0,
            sviews == schema@.map_values(|f: FieldSchema| f@),
            sviews.len() == schema@.len(),
            fviews == frags@.map_values(|f: Vec<char>| f@),
            fviews.len() == frags@.len(),
            fviews == spec_split(text@, delim@),
            map_like ==> fviews.len() % 2 != 1,
            full == if map_like {
                spec_decode_keyed_from(fviews, sviews, 0)
            } else {
                spec_decode_positional_from(fviews, sviews, 0)
            },
            i <= schema@.len(),
            out@.len() == i,
            full == (match (if map_like {
                spec_decode_keyed_from(fviews, sviews, i as int)
            } else {
                spec_decode_positional_from(fviews, sviews, i as int)
            }) {
                Ok(vs) => Ok::<Seq<ValueV>, DeErrorV>(out@.map_values(|v: Value| v@) + vs),
                Err(e) => Err::<Seq<ValueV>, DeErrorV>(e),
            }),
        decreases schema@.len() - i,
    {
        let ghost pre = out@.map_values(|v: Value| v@);
        let ghost si = i as int;
        proof {
            assert(sviews[si] == schema@[si]@);
        }
        let fld = &schema[i];
        let decoded: Option<Value> = if map_like {
            let name = crate::text::chars_of(fld.name.as_str());
            match lookup(&frags, &name) {
                None => {
                    if fld.optional {
                        Some(Value::Absent)
                    } else {
                        proof {
                            assert(spec_decode_keyed_from(fviews, sviews, si)
                                == Err::<Seq<ValueV>, DeErrorV>(
                                DeErrorV::Missing { field: sviews[si].name },
                            ));
                        }
                        return Err(DeError::Missing { field: fld.name.clone() });
                    }
                },
                Some(t) => match decode_scalar(&t, fld.kind, fld.optional) {
                    Some(v) => Some(v),
                    None => {
                        proof {
                            assert(spec_decode_keyed_from(fviews, sviews, si)
                                == Err::<Seq<ValueV>, DeErrorV>(
                                DeErrorV::Invalid { field: sviews[si].name, text: t@ },
                            ));
                        }
                        return Err(
                            DeError::Invalid { field: fld.name.clone(), text: string_of(&t) },
                        );
                    },
                },
            }
        } else {
            if i >= frags.len() {
                if fld.optional {
                    Some(Value::Absent)
                } else {
                    proof {
                        assert(spec_decode_positional_from(fviews, sviews, si)
                            == Err::<Seq<ValueV>, DeErrorV>(
                            DeErrorV::Missing { field: sviews[si].name },
                        ));
                    }
                    return Err(DeError::Missing { field: fld.name.clone() });
                }
            } else {
                proof {
                    assert(fviews[si] == frags@[si]@);
                }
                match decode_scalar(&frags[i], fld.kind, fld.optional) {
                    Some(v) => Some(v),
                    None => {
                        proof {
                            assert(spec_decode_positional_from(fviews, sviews, si)
                                == Err::<Seq<ValueV>, DeErrorV>(
                                DeErrorV::Invalid { field: sviews[si].name, text: fviews[si] },
                            ));
                        }
                        return Err(
                            DeError::Invalid {
                                field: fld.name.clone(),
                                text: string_of(&frags[i]),
                            },
                        );
                    },
                }
            }
        };
        match decoded {
            Some(v) => {
                out.push(v);
                proof {
                    let x = out@.last()@;
                    assert(out@.map_values(|v: Value| v@) =~= pre + seq![x]);
                    if map_like {
                        assert(spec_decode_keyed_from(fviews, sviews, si) == (
                        match spec_decode_keyed_from(fviews, sviews, si + 1) {
                            Ok(vs) => Ok::<Seq<ValueV>, DeErrorV>(seq![x] + vs),
                            Err(e) => Err::<Seq<ValueV>, DeErrorV>(e),
                        }));
                        if spec_decode_keyed_from(fviews, sviews, si + 1) is Ok {
                            let vs = spec_decode_keyed_from(fviews, sviews, si + 1)->Ok_0;
                            assert(pre + (seq![x] + vs) =~= (pre + seq![x]) + vs);
                        }
                    } else {
                        assert(spec_decode_positional_from(fviews, sviews, si) == (
                        match spec_decode_positional_from(fviews, sviews, si + 1) {
                            Ok(vs) => Ok::<Seq<ValueV>, DeErrorV>(seq![x] + vs),
                            Err(e) => Err::<Seq<ValueV>, DeErrorV>(e),
                        }));
                        if spec_decode_positional_from(fviews, sviews, si + 1) is Ok {
                            let vs = spec_decode_positional_from(fviews, sviews, si + 1)->Ok_0;
                            assert(pre + (seq![x] + vs) =~= (pre + seq![x]) + vs);
                        }
                    }
                }
            },
            None => {
                proof {
                    assert(false);
                }
            },
        }
        i = i + 1;
    }
    proof {
        assert(out@.map_values(|v: Value| v@) + Seq::<ValueV>::empty() =~= out@.map_values(
            |v: Value| v@,
        ));
    }
    Ok(out)
}

} // verus!
