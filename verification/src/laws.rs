//! The laws the pipeline obeys, stated and proved over the models: round
//! trips through encode and decode, exhaustiveness of the union conversion,
//! the positional bijection, and the propagation of the decodable
//! requirement to generic parameters.

use vstd::prelude::*;
use crate::convert::{arm_table, conv_body_model, conv_compatible, variant_conv_model,
    ConvBodyModel};
use crate::decl::{record_shape_wf, type_shape_wf, FieldModel, RecordShapeModel,
    TypeShapeModel, VariantModel};
use crate::decode::{decode_record, decode_shape, leaf_ok, named_field_ok, named_result,
    variant_table};
use crate::lookup::{assoc, lemma_assoc_at, lemma_assoc_none, lemma_assoc_some};
use crate::value::{encode_model, encode_record_model, env_lookup, is_leaf, InputModel,
    LeafKind, RecordValModel, ValModel};
use crate::wire::{decode_outcome, OutcomeModel};

verus! {

// ---------------------------------------------------------------------------
// Well-typed values.
// ---------------------------------------------------------------------------

/// Whether a record's worth of data is well typed for a record shape under
/// the environment: right layout, right field names in order, every atom of
/// its declared leaf type.
pub open spec fn record_matches(
    env: Seq<(Seq<char>, LeafKind)>,
    r: RecordShapeModel,
    rv: RecordValModel,
) -> bool {
    match r {
        RecordShapeModel::Named(fields) => rv matches RecordValModel::Named(pairs)
            && pairs.len() == fields.len() && (forall|i: int|
            0 <= i < fields.len() ==> (#[trigger] pairs[i]).0 == fields[i].name && is_leaf(
                pairs[i].1,
            ) && leaf_ok(env, fields[i].ty, pairs[i].1)),
        RecordShapeModel::Positional(tys) => rv matches RecordValModel::Positional(ls)
            && ls.len() == tys.len() && (forall|i: int|
            0 <= i < tys.len() ==> is_leaf(#[trigger] ls[i]) && leaf_ok(
                env,
                tys[i],
                ls[i],
            )),
        RecordShapeModel::Unit => rv is Unit,
    }
}

/// Whether a value is well typed for a shape under the environment.  For a
/// union, the value's discriminant must pick out a variant and the payload
/// must be well typed for that variant's record.
pub open spec fn value_matches(
    env: Seq<(Seq<char>, LeafKind)>,
    s: TypeShapeModel,
    v: ValModel,
) -> bool {
    match s {
        TypeShapeModel::Record(r) => v matches ValModel::Record(rv) && record_matches(
            env,
            r,
            rv,
        ),
        TypeShapeModel::TaggedUnion(vs) => v matches ValModel::Variant { name, fields }
            && (assoc(variant_table(vs), name) matches Some(r) && record_matches(
            env,
            r,
            fields,
        )),
    }
}

// ---------------------------------------------------------------------------
// Round trips.
// ---------------------------------------------------------------------------

/// Encoding a well-typed record's worth of data and decoding it at its own
/// shape gives the data back exactly.
pub proof fn lemma_record_round_trip(
    env: Seq<(Seq<char>, LeafKind)>,
    r: RecordShapeModel,
    rv: RecordValModel,
)
    requires
        record_shape_wf(r),
        record_matches(env, r, rv),
    ensures
        decode_record(env, r, encode_record_model(rv)) == Some(rv),
{
    match r {
        RecordShapeModel::Named(fields) => {
            let pairs = rv->Named_0;
            let names = fields.map_values(|f: FieldModel| f.name);
            assert forall|i: int| 0 <= i < fields.len() implies #[trigger] assoc(
                pairs,
                fields[i].name,
            ) == Some(pairs[i].1) by {
                assert forall|j: int| 0 <= j < i implies (#[trigger] pairs[j]).0
                    != fields[i].name by {
                    assert(names[j] == fields[j].name);
                    assert(names[i] == fields[i].name);
                }
                assert(pairs[i].0 == fields[i].name);
                lemma_assoc_at(pairs, fields[i].name, i);
            }
            assert forall|i: int| 0 <= i < fields.len() implies named_field_ok(
                env,
                #[trigger] fields[i],
                pairs,
            ) by {
                assert(assoc(pairs, fields[i].name) == Some(pairs[i].1));
            }
            assert(named_result(fields, pairs) =~= pairs);
        },
        RecordShapeModel::Positional(tys) => {
            let ls = rv->Positional_0;
            if tys.len() == 1 {
                assert(seq![ls[0]] =~= ls);
            }
        },
        RecordShapeModel::Unit => {},
    }
}

/// Round trip: encoding a well-typed value and decoding it at its own shape
/// gives the value back exactly.
pub proof fn lemma_round_trip(
    env: Seq<(Seq<char>, LeafKind)>,
    s: TypeShapeModel,
    v: ValModel,
)
    requires
        type_shape_wf(s),
        value_matches(env, s, v),
    ensures
        decode_shape(env, s, encode_model(v)) == Some(v),
{
    match s {
        TypeShapeModel::Record(r) => {
            lemma_record_round_trip(env, r, v->Record_0);
        },
        TypeShapeModel::TaggedUnion(vs) => {
            let name = v->name;
            let fields = v->fields;
            let r = assoc(variant_table(vs), name)->Some_0;
            lemma_assoc_some(variant_table(vs), name);
            let i = choose|i: int|
                0 <= i < variant_table(vs).len() && (#[trigger] variant_table(vs)[i]).0
                    == name && variant_table(vs)[i].1 == r && (forall|j: int|
                    0 <= j < i ==> (#[trigger] variant_table(vs)[j]).0 != name);
            assert(variant_table(vs)[i] == (vs[i].name, vs[i].fields));
            assert(record_shape_wf(vs[i].fields));
            lemma_record_round_trip(env, r, fields);
            let encoded = encode_model(v);
            assert(encoded->Obj_0[0] == (name, encode_record_model(fields)));
        },
    }
}

/// Round-trip rejection: a well-typed value that fails the validity rule is
/// decoded and converted, and then rejected — the wired operation never
/// hands it out.
pub proof fn lemma_round_trip_rejection(
    env: Seq<(Seq<char>, LeafKind)>,
    s: TypeShapeModel,
    v: ValModel,
    valid: spec_fn(ValModel) -> bool,
)
    requires
        type_shape_wf(s),
        value_matches(env, s, v),
        !valid(v),
    ensures
        decode_outcome(s, env, encode_model(v), valid) == OutcomeModel::Rejected,
{
    lemma_round_trip(env, s, v);
}

/// Round-trip acceptance: a well-typed value that passes the validity rule
/// comes back from the wired operation exactly as it was encoded.
pub proof fn lemma_round_trip_acceptance(
    env: Seq<(Seq<char>, LeafKind)>,
    s: TypeShapeModel,
    v: ValModel,
    valid: spec_fn(ValModel) -> bool,
)
    requires
        type_shape_wf(s),
        value_matches(env, s, v),
        valid(v),
    ensures
        decode_outcome(s, env, encode_model(v), valid) == OutcomeModel::Accepted(v),
{
    lemma_round_trip(env, s, v);
}

// ---------------------------------------------------------------------------
// Exhaustiveness of the union conversion.
// ---------------------------------------------------------------------------

/// The conversion of a tagged union has exactly one arm per variant, in
/// variant order, each under its variant's own name; no catch-all arm can
/// exist, since the conversion body has no representation of one.
pub proof fn lemma_conversion_exhaustive(vs: Seq<VariantModel>)
    ensures
        conv_body_model(TypeShapeModel::TaggedUnion(vs)) matches ConvBodyModel::Union(
            arms,
        ) && arms.len() == vs.len() && (forall|i: int|
            0 <= i < vs.len() ==> (#[trigger] arms[i]).variant == vs[i].name
                && arms[i].conv == variant_conv_model(vs[i].fields)),
{
}

/// A variant added to the union without regenerating the conversion is
/// rejected: a staged value under a name outside the arm list fits no arm,
/// so conversion cannot accept it.
pub proof fn lemma_unknown_variant_incompatible(
    vs: Seq<VariantModel>,
    name: Seq<char>,
    fields: RecordValModel,
)
    requires
        forall|i: int| 0 <= i < vs.len() ==> (#[trigger] vs[i]).name != name,
    ensures
        !conv_compatible(
            conv_body_model(TypeShapeModel::TaggedUnion(vs)),
            ValModel::Variant { name, fields },
        ),
{
    let arms = conv_body_model(TypeShapeModel::TaggedUnion(vs))->Union_0;
    assert forall|j: int| 0 <= j < arm_table(arms).len() implies (#[trigger] arm_table(
        arms,
    )[j]).0 != name by {
        assert(arm_table(arms)[j].0 == arms[j].variant);
        assert(arms[j].variant == vs[j].name);
    }
    lemma_assoc_none(arm_table(arms), name);
}

/// The decode capability likewise rejects a discriminant outside the
/// declared variant list, at the same parse-failure exit.
pub proof fn lemma_unknown_discriminant_not_decoded(
    env: Seq<(Seq<char>, LeafKind)>,
    vs: Seq<VariantModel>,
    input: InputModel,
)
    requires
        input matches InputModel::Obj(entries) && entries.len() == 1 && (forall|i: int|
            0 <= i < vs.len() ==> (#[trigger] vs[i]).name != entries[0].0),
    ensures
        decode_shape(env, TypeShapeModel::TaggedUnion(vs), input) is None,
{
    let entries = input->Obj_0;
    assert forall|j: int| 0 <= j < variant_table(vs).len() implies (
    #[trigger] variant_table(vs)[j]).0 != entries[0].0 by {
        assert(variant_table(vs)[j].0 == vs[j].name);
    }
    lemma_assoc_none(variant_table(vs), entries[0].0);
}

// ---------------------------------------------------------------------------
// The positional bijection.
// ---------------------------------------------------------------------------

/// Decoding input at a positional shape of any length maps position `i` of
/// the input to field `i` of the staged record, for every position; and
/// conversion carries the staged record over unchanged, so the law reaches
/// the real value as well.  A single positional field stands for the bare
/// input value itself.
pub proof fn lemma_positional_bijection(
    env: Seq<(Seq<char>, LeafKind)>,
    tys: Seq<Seq<char>>,
    input: InputModel,
)
    requires
        decode_shape(env, TypeShapeModel::Record(RecordShapeModel::Positional(tys)), input)
            is Some,
    ensures
        ({
            let out = decode_shape(
                env,
                TypeShapeModel::Record(RecordShapeModel::Positional(tys)),
                input,
            )->Some_0;
            &&& out matches ValModel::Record(RecordValModel::Positional(ls))
            &&& ls.len() == tys.len()
            &&& tys.len() == 1 ==> ls == seq![input]
            &&& tys.len() != 1 ==> input is Arr && (forall|i: int|
                0 <= i < tys.len() ==> #[trigger] ls[i] == input->Arr_0[i])
        }),
{
}

// ---------------------------------------------------------------------------
// Propagation of the decodable requirement.
// ---------------------------------------------------------------------------

/// Whether a record shape mentions a leaf type by name.
pub open spec fn record_mentions(r: RecordShapeModel, t: Seq<char>) -> bool {
    match r {
        RecordShapeModel::Named(fields) => exists|i: int|
            0 <= i < fields.len() && (#[trigger] fields[i]).ty == t,
        RecordShapeModel::Positional(tys) => exists|i: int|
            0 <= i < tys.len() && #[trigger] tys[i] == t,
        RecordShapeModel::Unit => false,
    }
}

/// Whether every leaf type a record shape declares is decodable under the
/// environment.
pub open spec fn record_tys_decodable(
    env: Seq<(Seq<char>, LeafKind)>,
    r: RecordShapeModel,
) -> bool {
    match r {
        RecordShapeModel::Named(fields) => forall|i: int|
            0 <= i < fields.len() ==> env_lookup(env, (#[trigger] fields[i]).ty) is Some,
        RecordShapeModel::Positional(tys) => forall|i: int|
            0 <= i < tys.len() ==> env_lookup(env, #[trigger] tys[i]) is Some,
        RecordShapeModel::Unit => true,
    }
}

/// A record decodes only if every leaf type it declares is decodable.
pub proof fn lemma_decode_needs_decodable(
    env: Seq<(Seq<char>, LeafKind)>,
    r: RecordShapeModel,
    input: InputModel,
)
    requires
        decode_record(env, r, input) is Some,
    ensures
        record_tys_decodable(env, r),
{
    match r {
        RecordShapeModel::Named(fields) => {
            let entries = input->Obj_0;
            assert forall|i: int| 0 <= i < fields.len() implies env_lookup(
                env,
                (#[trigger] fields[i]).ty,
            ) is Some by {
                assert(named_field_ok(env, fields[i], entries));
            }
        },
        RecordShapeModel::Positional(tys) => {
            if tys.len() == 1 {
                assert forall|i: int| 0 <= i < tys.len() implies env_lookup(
                    env,
                    #[trigger] tys[i],
                ) is Some by {
                    assert(leaf_ok(env, tys[0], input));
                }
            } else {
                let elems = input->Arr_0;
                assert forall|i: int| 0 <= i < tys.len() implies env_lookup(
                    env,
                    #[trigger] tys[i],
                ) is Some by {
                    assert(is_leaf(elems[i]) && leaf_ok(env, tys[i], elems[i]));
                }
            }
        },
        RecordShapeModel::Unit => {},
    }
}

/// Generic propagation, record form: a shape that mentions a parameter's
/// leaf type decodes nothing at all while that type has no decode
/// capability.  The failure is the ordinary parse failure, not a channel of
/// its own: the decoder's contract sends every decode failure down the same
/// exit.
pub proof fn lemma_undecodable_param_never_decodes(
    env: Seq<(Seq<char>, LeafKind)>,
    r: RecordShapeModel,
    t: Seq<char>,
    input: InputModel,
)
    requires
        env_lookup(env, t) is None,
        record_mentions(r, t),
    ensures
        decode_shape(env, TypeShapeModel::Record(r), input) is None,
{
    if decode_record(env, r, input) is Some {
        lemma_decode_needs_decodable(env, r, input);
    }
}

/// Generic propagation, union form: when the selected variant's record
/// mentions the undecodable leaf type, the whole operation fails the same
/// way.
pub proof fn lemma_undecodable_param_variant(
    env: Seq<(Seq<char>, LeafKind)>,
    vs: Seq<VariantModel>,
    t: Seq<char>,
    input: InputModel,
)
    requires
        env_lookup(env, t) is None,
        input matches InputModel::Obj(entries) && entries.len() == 1 && (assoc(
            variant_table(vs),
            entries[0].0,
        ) matches Some(r) && record_mentions(r, t)),
    ensures
        decode_shape(env, TypeShapeModel::TaggedUnion(vs), input) is None,
{
    let entries = input->Obj_0;
    let r = assoc(variant_table(vs), entries[0].0)->Some_0;
    if decode_record(env, r, entries[0].1) is Some {
        lemma_decode_needs_decodable(env, r, entries[0].1);
    }
}

} // verus!
