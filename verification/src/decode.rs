//! The decode capability over structured input: fills a staging value of a
//! given shape from an input value, or fails.
//!
//! Every way of failing — a missing field, a value of the wrong kind, a
//! wrong array length, an unknown discriminant, a field type with no decode
//! capability — travels the same parse-failure path.  In particular, a
//! generic parameter whose leaf type is absent from the environment fails
//! like any other parse failure, not through a channel of its own.

use vstd::prelude::*;
use vstd::string::StringExecFns;
use crate::decl::{FieldDecl, FieldModel, RecordShape, RecordShapeModel, TypeShape,
    TypeShapeModel, VariantModel, VariantShape};
use crate::error::DecodeError;
use crate::lookup::{assoc, lemma_assoc_at, lemma_assoc_none};
use crate::value::{env_lookup, is_leaf, leaf_matches, FieldInput, InputModel, InputValue,
    Leaf, ObjEntry, PayloadInput, RecordValModel, StagedField, StagedRecord, StagedValue,
    TypeEnv, ValModel};

verus! {

// ---------------------------------------------------------------------------
// What decoding means, on the model.
// ---------------------------------------------------------------------------

/// An atom decodes at a field type when the environment makes the type
/// decodable and the atom is of its kind.
pub open spec fn leaf_ok(
    env: Seq<(Seq<char>, crate::value::LeafKind)>,
    ty: Seq<char>,
    v: InputModel,
) -> bool {
    &&& env_lookup(env, ty) is Some
    &&& leaf_matches(env_lookup(env, ty)->Some_0, v)
}

/// A named field decodes from an object when the first entry under its name
/// exists, is an atom, and decodes at the field's type.
pub open spec fn named_field_ok(
    env: Seq<(Seq<char>, crate::value::LeafKind)>,
    f: FieldModel,
    obj: Seq<(Seq<char>, InputModel)>,
) -> bool {
    &&& assoc(obj, f.name) is Some
    &&& is_leaf(assoc(obj, f.name)->Some_0)
    &&& leaf_ok(env, f.ty, assoc(obj, f.name)->Some_0)
}

/// The staged fields of a named record: each declared field, in declared
/// order, paired with the first object value under its name.
pub open spec fn named_result(
    fields: Seq<FieldModel>,
    obj: Seq<(Seq<char>, InputModel)>,
) -> Seq<(Seq<char>, InputModel)> {
    Seq::new(fields.len(), |i: int| (fields[i].name, assoc(obj, fields[i].name)->Some_0))
}

/// What a record's worth of input decodes to, if anything: a named record
/// needs an object carrying every declared field, a positional record an
/// array of exactly the declared length, a unit record the null input.
pub open spec fn decode_record(
    env: Seq<(Seq<char>, crate::value::LeafKind)>,
    r: RecordShapeModel,
    v: InputModel,
) -> Option<RecordValModel> {
    match r {
        RecordShapeModel::Named(fields) => if v matches InputModel::Obj(entries) && (
        forall|i: int| 0 <= i < fields.len() ==> named_field_ok(env, #[trigger] fields[i],
            entries,
        )) {
            Some(RecordValModel::Named(named_result(fields, v->Obj_0)))
        } else {
            None
        },
        RecordShapeModel::Positional(tys) => if tys.len() == 1 {
            // A single positional field stands for its bare value, with no
            // array around it.
            if is_leaf(v) && leaf_ok(env, tys[0], v) {
                Some(RecordValModel::Positional(seq![v]))
            } else {
                None
            }
        } else if v matches InputModel::Arr(elems) && elems.len() == tys.len() && (
        forall|i: int|
            0 <= i < tys.len() ==> is_leaf(#[trigger] elems[i]) && leaf_ok(
                env,
                tys[i],
                elems[i],
            )) {
            Some(RecordValModel::Positional(v->Arr_0))
        } else {
            None
        },
        RecordShapeModel::Unit => if v is Null {
            Some(RecordValModel::Unit)
        } else {
            None
        },
    }
}

/// The variants of a union, as a lookup table keyed by variant name.
pub open spec fn variant_table(vs: Seq<VariantModel>) -> Seq<(Seq<char>, RecordShapeModel)> {
    vs.map_values(|v: VariantModel| (v.name, v.fields))
}

/// What a shape's worth of input decodes to, if anything.  A tagged union
/// needs a one-entry object whose key names a variant; the entry's value
/// then decodes by that variant's record shape.
pub open spec fn decode_shape(
    env: Seq<(Seq<char>, crate::value::LeafKind)>,
    s: TypeShapeModel,
    v: InputModel,
) -> Option<ValModel> {
    match s {
        TypeShapeModel::Record(r) => match decode_record(env, r, v) {
            Some(rv) => Some(ValModel::Record(rv)),
            None => None,
        },
        TypeShapeModel::TaggedUnion(vs) => if v matches InputModel::Obj(entries)
            && entries.len() == 1 {
            match assoc(variant_table(vs), v->Obj_0[0].0) {
                Some(fields) => match decode_record(env, fields, v->Obj_0[0].1) {
                    Some(rv) => Some(
                        ValModel::Variant { name: v->Obj_0[0].0, fields: rv },
                    ),
                    None => None,
                },
                None => None,
            }
        } else {
            None
        },
    }
}

// ---------------------------------------------------------------------------
// The executable decoder.
// ---------------------------------------------------------------------------

/// Builds a parse failure carrying the given description.
fn parse_err(msg: &str) -> (e: DecodeError)
    ensures
        e is Parse,
{
    DecodeError::Parse(String::from_str(msg))
}

/// Decodes one atom at a field type.
fn decode_leaf(env: &TypeEnv, ty: &String, l: &Leaf) -> (r: Result<Leaf, DecodeError>)
    ensures
        leaf_ok(env@, ty@, l@) ==> (r matches Ok(out) && out@ == l@),
        !leaf_ok(env@, ty@, l@) ==> (r matches Err(e) && e is Parse),
{
    match env.lookup(ty) {
        None => Err(parse_err("field type has no decode capability")),
        Some(k) => {
            let fits: bool = match (k, l) {
                (crate::value::LeafKind::Str, Leaf::Str(_)) => true,
                (crate::value::LeafKind::Int, Leaf::Int(_)) => true,
                (crate::value::LeafKind::Bool, Leaf::Bool(_)) => true,
                _ => false,
            };
            if fits {
                Ok(l.clone())
            } else {
                Err(parse_err("value does not match the field type"))
            }
        },
    }
}

/// The first value under `key` in a top-level object, if any.
fn find_entry<'a>(entries: &'a Vec<ObjEntry>, key: &String) -> (r: Option<
    &'a PayloadInput,
>)
    ensures
        assoc(entries@.map_values(|e: ObjEntry| e@), key@) matches Some(v) ==> (
        r matches Some(p) && p@ == v),
        assoc(entries@.map_values(|e: ObjEntry| e@), key@) is None ==> r is None,
{
    let ghost obj = entries@.map_values(|e: ObjEntry| e@);
    let mut i: usize = 0;
    while i < entries.len()
        invariant
            i <= entries.len(),
            obj == entries@.map_values(|e: ObjEntry| e@),
            forall|j: int| 0 <= j < i ==> (#[trigger] obj[j]).0 != key@,
        decreases entries.len() - i,
    {
        proof {
            assert(obj[i as int] == entries@[i as int]@);
        }
        if entries[i].key == *key {
            proof {
                lemma_assoc_at(obj, key@, i as int);
            }
            return Some(&entries[i].value);
        }
        i = i + 1;
    }
    proof {
        lemma_assoc_none(obj, key@);
    }
    None
}

/// The first atom under `key` in a variant payload object, if any.
fn find_field<'a>(fs: &'a Vec<FieldInput>, key: &String) -> (r: Option<&'a Leaf>)
    ensures
        assoc(fs@.map_values(|f: FieldInput| f@), key@) matches Some(v) ==> (
        r matches Some(l) && l@ == v),
        assoc(fs@.map_values(|f: FieldInput| f@), key@) is None ==> r is None,
{
    let ghost obj = fs@.map_values(|f: FieldInput| f@);
    let mut i: usize = 0;
    while i < fs.len()
        invariant
            i <= fs.len(),
            obj == fs@.map_values(|f: FieldInput| f@),
            forall|j: int| 0 <= j < i ==> (#[trigger] obj[j]).0 != key@,
        decreases fs.len() - i,
    {
        proof {
            assert(obj[i as int] == fs@[i as int]@);
        }
        if fs[i].key == *key {
            proof {
                lemma_assoc_at(obj, key@, i as int);
            }
            return Some(&fs[i].value);
        }
        i = i + 1;
    }
    proof {
        lemma_assoc_none(obj, key@);
    }
    None
}

/// The first variant of the list carrying the given name, if any.
fn find_variant<'a>(vs: &'a Vec<VariantShape>, key: &String) -> (r: Option<
    &'a VariantShape,
>)
    ensures
        assoc(variant_table(vs@.map_values(|v: VariantShape| v@)), key@) matches Some(
            fields,
        ) ==> (r matches Some(var) && var@.fields == fields && var@.name == key@),
        assoc(variant_table(vs@.map_values(|v: VariantShape| v@)), key@) is None ==> r
            is None,
{
    let ghost table = variant_table(vs@.map_values(|v: VariantShape| v@));
    let mut i: usize = 0;
    while i < vs.len()
        invariant
            i <= vs.len(),
            table == variant_table(vs@.map_values(|v: VariantShape| v@)),
            forall|j: int| 0 <= j < i ==> (#[trigger] table[j]).0 != key@,
        decreases vs.len() - i,
    {
        proof {
            assert(table[i as int] == (vs@[i as int]@.name, vs@[i as int]@.fields));
        }
        if vs[i].name == *key {
            proof {
                lemma_assoc_at(table, key@, i as int);
            }
            return Some(&vs[i]);
        }
        i = i + 1;
    }
    proof {
        lemma_assoc_none(table, key@);
    }
    None
}

/// Decodes the declared fields of a named record out of a top-level object.
fn decode_named_entries(env: &TypeEnv, fields: &Vec<FieldDecl>, entries: &Vec<ObjEntry>) -> (r:
    Result<Vec<StagedField>, DecodeError>)
    ensures
        ({
            let fields_m = fields@.map_values(|f: FieldDecl| f@);
            let obj = entries@.map_values(|e: ObjEntry| e@);
            &&& (forall|i: int|
                0 <= i < fields_m.len() ==> named_field_ok(env@, #[trigger] fields_m[i],
                    obj,
                )) ==> (r matches Ok(out) && out@.map_values(|f: StagedField| f@)
                == named_result(fields_m, obj))
            &&& !(forall|i: int|
                0 <= i < fields_m.len() ==> named_field_ok(env@, #[trigger] fields_m[i],
                    obj,
                )) ==> (r matches Err(e) && e is Parse)
        }),
{
    let ghost fields_m = fields@.map_values(|f: FieldDecl| f@);
    let ghost obj = entries@.map_values(|e: ObjEntry| e@);
    let mut out: Vec<StagedField> = Vec::new();
    let mut i: usize = 0;
    while i < fields.len()
        invariant
            i <= fields.len(),
            out.len() == i,
            fields_m == fields@.map_values(|f: FieldDecl| f@),
            obj == entries@.map_values(|e: ObjEntry| e@),
            forall|k: int|
                0 <= k < i ==> named_field_ok(env@, #[trigger] fields_m[k], obj),
            forall|k: int|
                0 <= k < i ==> out@[k]@ == (fields_m[k].name, assoc(
                    obj,
                    fields_m[k].name,
                )->Some_0),
        decreases fields.len() - i,
    {
        proof {
            assert(fields_m[i as int] == fields@[i as int]@);
        }
        match find_entry(entries, &fields[i].name) {
            None => {
                proof {
                    assert(!named_field_ok(env@, fields_m[i as int], obj));
                }
                return Err(parse_err("a declared field is missing from the object"));
            },
            Some(p) => match p {
                PayloadInput::Leaf(l) => match decode_leaf(env, &fields[i].ty, l) {
                    Ok(val) => {
                        out.push(StagedField { name: fields[i].name.clone(), value: val });
                    },
                    Err(e) => {
                        proof {
                            assert(!named_field_ok(env@, fields_m[i as int], obj));
                        }
                        return Err(e);
                    },
                },
                _ => {
                    proof {
                        assert(!is_leaf(assoc(obj, fields_m[i as int].name)->Some_0));
                        assert(!named_field_ok(env@, fields_m[i as int], obj));
                    }
                    return Err(parse_err("a declared field is not an atom"));
                },
            },
        }
        i = i + 1;
    }
    proof {
        assert(out@.map_values(|f: StagedField| f@) =~= named_result(fields_m, obj));
    }
    Ok(out)
}

/// Decodes the declared fields of a named variant payload out of its object.
fn decode_named_fields(env: &TypeEnv, fields: &Vec<FieldDecl>, fs: &Vec<FieldInput>) -> (r:
    Result<Vec<StagedField>, DecodeError>)
    ensures
        ({
            let fields_m = fields@.map_values(|f: FieldDecl| f@);
            let obj = fs@.map_values(|f: FieldInput| f@);
            &&& (forall|i: int|
                0 <= i < fields_m.len() ==> named_field_ok(env@, #[trigger] fields_m[i],
                    obj,
                )) ==> (r matches Ok(out) && out@.map_values(|f: StagedField| f@)
                == named_result(fields_m, obj))
            &&& !(forall|i: int|
                0 <= i < fields_m.len() ==> named_field_ok(env@, #[trigger] fields_m[i],
                    obj,
                )) ==> (r matches Err(e) && e is Parse)
        }),
{
    let ghost fields_m = fields@.map_values(|f: FieldDecl| f@);
    let ghost obj = fs@.map_values(|f: FieldInput| f@);
    let mut out: Vec<StagedField> = Vec::new();
    let mut i: usize = 0;
    while i < fields.len()
        invariant
            i <= fields.len(),
            out.len() == i,
            fields_m == fields@.map_values(|f: FieldDecl| f@),
            obj == fs@.map_values(|f: FieldInput| f@),
            forall|k: int|
                0 <= k < i ==> named_field_ok(env@, #[trigger] fields_m[k], obj),
            forall|k: int|
                0 <= k < i ==> out@[k]@ == (fields_m[k].name, assoc(
                    obj,
                    fields_m[k].name,
                )->Some_0),
        decreases fields.len() - i,
    {
        proof {
            assert(fields_m[i as int] == fields@[i as int]@);
        }
        match find_field(fs, &fields[i].name) {
            None => {
                proof {
                    assert(!named_field_ok(env@, fields_m[i as int], obj));
                }
                return Err(parse_err("a declared field is missing from the object"));
            },
            Some(l) => {
                proof {
                    assert(is_leaf(l@));
                }
                match decode_leaf(env, &fields[i].ty, l) {
                    Ok(val) => {
                        out.push(StagedField { name: fields[i].name.clone(), value: val });
                    },
                    Err(e) => {
                        proof {
                            assert(!named_field_ok(env@, fields_m[i as int], obj));
                        }
                        return Err(e);
                    },
                }
            },
        }
        i = i + 1;
    }
    proof {
        assert(out@.map_values(|f: StagedField| f@) =~= named_result(fields_m, obj));
    }
    Ok(out)
}

/// Decodes the atoms of a positional record out of an array, position by
/// position.
fn decode_positional(env: &TypeEnv, tys: &Vec<String>, elems: &Vec<Leaf>) -> (r: Result<
    Vec<Leaf>,
    DecodeError,
>)
    requires
        elems@.len() == tys@.len(),
    ensures
        ({
            let tys_m = tys@.map_values(|t: String| t@);
            let elems_m = elems@.map_values(|l: Leaf| l@);
            &&& (forall|i: int|
                0 <= i < tys_m.len() ==> is_leaf(#[trigger] elems_m[i]) && leaf_ok(
                    env@,
                    tys_m[i],
                    elems_m[i],
                )) ==> (r matches Ok(out) && out@.map_values(|l: Leaf| l@) == elems_m)
            &&& !(forall|i: int|
                0 <= i < tys_m.len() ==> is_leaf(#[trigger] elems_m[i]) && leaf_ok(
                    env@,
                    tys_m[i],
                    elems_m[i],
                )) ==> (r matches Err(e) && e is Parse)
        }),
{
    let ghost tys_m = tys@.map_values(|t: String| t@);
    let ghost elems_m = elems@.map_values(|l: Leaf| l@);
    let mut out: Vec<Leaf> = Vec::new();
    let mut i: usize = 0;
    while i < tys.len()
        invariant
            i <= tys.len(),
            out.len() == i,
            elems@.len() == tys@.len(),
            tys_m == tys@.map_values(|t: String| t@),
            elems_m == elems@.map_values(|l: Leaf| l@),
            forall|k: int|
                0 <= k < i ==> is_leaf(#[trigger] elems_m[k]) && leaf_ok(
                    env@,
                    tys_m[k],
                    elems_m[k],
                ),
            forall|k: int| 0 <= k < i ==> out@[k]@ == elems_m[k],
        decreases tys.len() - i,
    {
        proof {
            assert(tys_m[i as int] == tys@[i as int]@);
            assert(elems_m[i as int] == elems@[i as int]@);
            assert(is_leaf(elems_m[i as int]));
        }
        match decode_leaf(env, &tys[i], &elems[i]) {
            Ok(val) => {
                out.push(val);
            },
            Err(e) => {
                return Err(e);
            },
        }
        i = i + 1;
    }
    proof {
        assert(out@.map_values(|l: Leaf| l@) =~= elems_m);
    }
    Ok(out)
}

/// Decodes a record shape out of a top-level input value.
fn decode_record_top(env: &TypeEnv, rec: &RecordShape, input: &InputValue) -> (r: Result<
    StagedRecord,
    DecodeError,
>)
    ensures
        decode_record(env@, rec@, input@) matches Some(rv) ==> (r matches Ok(out) && out@
            == rv),
        decode_record(env@, rec@, input@) is None ==> (r matches Err(e) && e is Parse),
{
    match rec {
        RecordShape::Named(fields) => match input {
            InputValue::Obj(entries) => match decode_named_entries(env, fields, entries) {
                Ok(out) => {
                    let sr = StagedRecord::Named(out);
                    Ok(sr)
                },
                Err(e) => Err(e),
            },
            _ => Err(parse_err("a named record needs an object")),
        },
        RecordShape::Positional(tys) => {
            if tys.len() == 1 {
                match input {
                    InputValue::Leaf(l) => match decode_leaf(env, &tys[0], l) {
                        Ok(val) => {
                            let out = StagedRecord::Positional(vec![val]);
                            proof {
                                assert(out@->Positional_0 =~= seq![input@]);
                            }
                            Ok(out)
                        },
                        Err(e) => Err(e),
                    },
                    _ => Err(
                        parse_err("a single positional field needs its bare value"),
                    ),
                }
            } else {
                match input {
                    InputValue::Arr(elems) => {
                        if elems.len() != tys.len() {
                            return Err(
                                parse_err("the array length is not the field count"),
                            );
                        }
                        match decode_positional(env, tys, elems) {
                            Ok(out) => Ok(StagedRecord::Positional(out)),
                            Err(e) => Err(e),
                        }
                    },
                    _ => Err(parse_err("a positional record needs an array")),
                }
            }
        },
        RecordShape::Unit => match input {
            InputValue::Leaf(Leaf::Null) => Ok(StagedRecord::Unit),
            _ => Err(parse_err("a unit record needs the null input")),
        },
    }
}

/// Decodes a record shape out of a variant payload.
fn decode_record_payload(env: &TypeEnv, rec: &RecordShape, payload: &PayloadInput) -> (r:
    Result<StagedRecord, DecodeError>)
    ensures
        decode_record(env@, rec@, payload@) matches Some(rv) ==> (r matches Ok(out) && out@
            == rv),
        decode_record(env@, rec@, payload@) is None ==> (r matches Err(e) && e is Parse),
{
    match rec {
        RecordShape::Named(fields) => match payload {
            PayloadInput::Obj(fs) => match decode_named_fields(env, fields, fs) {
                Ok(out) => Ok(StagedRecord::Named(out)),
                Err(e) => Err(e),
            },
            _ => Err(parse_err("a named record needs an object")),
        },
        RecordShape::Positional(tys) => {
            if tys.len() == 1 {
                match payload {
                    PayloadInput::Leaf(l) => match decode_leaf(env, &tys[0], l) {
                        Ok(val) => {
                            let out = StagedRecord::Positional(vec![val]);
                            proof {
                                assert(out@->Positional_0 =~= seq![payload@]);
                            }
                            Ok(out)
                        },
                        Err(e) => Err(e),
                    },
                    _ => Err(
                        parse_err("a single positional field needs its bare value"),
                    ),
                }
            } else {
                match payload {
                    PayloadInput::Arr(elems) => {
                        if elems.len() != tys.len() {
                            return Err(
                                parse_err("the array length is not the field count"),
                            );
                        }
                        match decode_positional(env, tys, elems) {
                            Ok(out) => Ok(StagedRecord::Positional(out)),
                            Err(e) => Err(e),
                        }
                    },
                    _ => Err(parse_err("a positional record needs an array")),
                }
            }
        },
        RecordShape::Unit => match payload {
            PayloadInput::Leaf(Leaf::Null) => Ok(StagedRecord::Unit),
            _ => Err(parse_err("a unit record needs the null input")),
        },
    }
}

/// Decodes a staging value of the given shape from a structured input.
///
/// The result is `Ok` exactly when the model says the input decodes at the
/// shape, and then carries exactly the decoded staging value.  Every failure
/// is a parse failure.
pub fn decode_value(shape: &TypeShape, env: &TypeEnv, input: &InputValue) -> (r: Result<
    StagedValue,
    DecodeError,
>)
    ensures
        decode_shape(env@, shape@, input@) matches Some(sv) ==> (r matches Ok(out) && out@
            == sv),
        decode_shape(env@, shape@, input@) is None ==> (r matches Err(e) && e is Parse),
{
    match shape {
        TypeShape::Record(rec) => match decode_record_top(env, rec, input) {
            Ok(sr) => Ok(StagedValue::Record(sr)),
            Err(e) => Err(e),
        },
        TypeShape::TaggedUnion(vs) => match input {
            InputValue::Obj(entries) => {
                if entries.len() != 1 {
                    return Err(
                        parse_err("a tagged union needs an object with one entry"),
                    );
                }
                proof {
                    assert(input@->Obj_0[0] == entries@[0]@);
                }
                match find_variant(vs, &entries[0].key) {
                    None => Err(parse_err("the key names no variant of the union")),
                    Some(var) => match decode_record_payload(
                        env,
                        &var.fields,
                        &entries[0].value,
                    ) {
                        Ok(sr) => Ok(
                            StagedValue::Variant {
                                name: entries[0].key.clone(),
                                fields: sr,
                            },
                        ),
                        Err(e) => Err(e),
                    },
                }
            },
            _ => Err(parse_err("a tagged union needs an object")),
        },
    }
}

} // verus!
