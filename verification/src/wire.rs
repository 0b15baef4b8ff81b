//! The orchestrator and bound propagator: computes the final bound set of
//! the emitted operation and wires decode, convert and validate into one
//! linear pass with two failure exits.
//!
//! Per invocation the wired operation moves through decode, conversion and
//! validation in that order; a decode failure is propagated unchanged, a
//! validation failure is translated onto the same error channel, and nothing
//! is retried.

use vstd::prelude::*;
use vstd::string::StringExecFns;
use crate::convert::{arm_table, build_conversion, conv_body_model, conv_compatible,
    convert, variant_conv_model, ConversionMap, ConversionMapModel};
use crate::decl::{clone_generics, FieldModel, GenericParamDecl, GenericParamModel,
    RecordShapeModel, SourceDecl, TypeDecl, TypeDeclModel, TypeShapeModel};
use crate::decode::{decode_record, decode_shape, decode_value, variant_table};
use crate::error::{DecodeError, ShapeError};
use crate::extract::extract;
use crate::lookup::{assoc, lemma_assoc_at, lemma_assoc_some};
use crate::staging::{staging_name_model, synthesize_staging, type_param_names,
    StagingDecl, StagingModel};
use crate::value::{InputModel, InputValue, Leaf, LeafKind, RealField, RealRecord,
    RealValue, RecordValModel, TypeEnv, ValModel};

verus! {

// ---------------------------------------------------------------------------
// The final bound set.
// ---------------------------------------------------------------------------

/// `texts` with every repeated entry dropped, first occurrences kept, in
/// order.
pub open spec fn dedup_model(texts: Seq<Seq<char>>) -> Seq<Seq<char>>
    decreases texts.len(),
{
    if texts.len() == 0 {
        Seq::empty()
    } else {
        let front = dedup_model(texts.drop_last());
        if front.contains(texts.last()) {
            front
        } else {
            front.push(texts.last())
        }
    }
}

/// Whether one of the strings is the given text.
fn texts_contain(xs: &Vec<String>, x: &String) -> (b: bool)
    ensures
        b == xs@.map_values(|s: String| s@).contains(x@),
{
    let ghost m = xs@.map_values(|s: String| s@);
    let mut i: usize = 0;
    while i < xs.len()
        invariant
            i <= xs.len(),
            m == xs@.map_values(|s: String| s@),
            forall|j: int| 0 <= j < i ==> m[j] != x@,
        decreases xs.len() - i,
    {
        proof {
            assert(m[i as int] == xs@[i as int]@);
        }
        if xs[i] == *x {
            proof {
                assert(m.contains(x@));
            }
            return true;
        }
        i = i + 1;
    }
    proof {
        assert(forall|j: int| 0 <= j < m.len() ==> m[j] != x@);
    }
    false
}

/// Drops repeated entries, keeping first occurrences in order: the
/// deduplication step of the bound-set union.
pub fn dedup_texts(xs: &Vec<String>) -> (r: Vec<String>)
    ensures
        r@.map_values(|s: String| s@) == dedup_model(xs@.map_values(|s: String| s@)),
{
    let ghost m = xs@.map_values(|s: String| s@);
    let mut out: Vec<String> = Vec::new();
    let mut i: usize = 0;
    while i < xs.len()
        invariant
            i <= xs.len(),
            m == xs@.map_values(|s: String| s@),
            out@.map_values(|s: String| s@) == dedup_model(m.take(i as int)),
        decreases xs.len() - i,
    {
        proof {
            assert(m.take(i + 1).drop_last() =~= m.take(i as int));
            assert(m.take(i + 1).last() == m[i as int]);
            assert(m[i as int] == xs@[i as int]@);
        }
        if !texts_contain(&out, &xs[i]) {
            out.push(xs[i].clone());
            proof {
                assert(out@.map_values(|s: String| s@) =~= dedup_model(m.take(i + 1)));
            }
        } else {
            proof {
                assert(out@.map_values(|s: String| s@) =~= dedup_model(m.take(i + 1)));
            }
        }
        i = i + 1;
    }
    proof {
        assert(m.take(m.len() as int) =~= m);
    }
    out
}

/// The deduplicated set keeps exactly the original texts: membership is
/// unchanged by the union's deduplication.
pub proof fn lemma_dedup_same_texts(texts: Seq<Seq<char>>)
    ensures
        forall|x: Seq<char>| dedup_model(texts).contains(x) <==> texts.contains(x),
        forall|i: int, j: int|
            0 <= i < j < dedup_model(texts).len() ==> dedup_model(texts)[i] != dedup_model(
                texts,
            )[j],
    decreases texts.len(),
{
    if texts.len() > 0 {
        lemma_dedup_same_texts(texts.drop_last());
        let front = dedup_model(texts.drop_last());
        assert forall|x: Seq<char>| dedup_model(texts).contains(x) implies texts.contains(
            x,
        ) by {
            if front.contains(x) {
                assert(texts.drop_last().contains(x));
                let k = choose|k: int|
                    0 <= k < texts.drop_last().len() && texts.drop_last()[k] == x;
                assert(texts[k] == x);
            } else {
                assert(x == texts.last());
            }
        }
        assert forall|x: Seq<char>| texts.contains(x) implies dedup_model(texts).contains(
            x,
        ) by {
            let k = choose|k: int| 0 <= k < texts.len() && texts[k] == x;
            if k < texts.len() - 1 {
                assert(texts.drop_last()[k] == x);
                assert(texts.drop_last().contains(x));
                assert(front.contains(x));
                if !front.contains(texts.last()) {
                    let j = choose|j: int| 0 <= j < front.len() && front[j] == x;
                    assert(front.push(texts.last())[j] == x);
                }
            } else {
                if front.contains(texts.last()) {
                    assert(dedup_model(texts).contains(x));
                } else {
                    let n = front.len() as int;
                    assert(front.push(texts.last())[n] == x);
                }
            }
        }
    }
}

// ---------------------------------------------------------------------------
// The wired operation.
// ---------------------------------------------------------------------------

/// The operation emitted for one declaration: generic over the same
/// parameters as the original, under the original bounds united with one
/// decodable bound per type parameter, deduplicated; it decodes the staging
/// declaration, converts, validates, and reports on one error channel.
#[derive(Debug)]
pub struct DecodeOperation {
    pub real_name: String,
    pub staging: StagingDecl,
    pub generics: Vec<GenericParamDecl>,
    /// The declaration's own `where` predicates, deduplicated.
    pub where_preds: Vec<String>,
    /// The type parameters that must themselves be decodable, deduplicated:
    /// this is what lets nested user types compose.
    pub decodable_preds: Vec<String>,
    pub conversion: ConversionMap,
}

/// Model of the wired operation.
pub struct OperationModel {
    pub real_name: Seq<char>,
    pub staging: StagingModel,
    pub generics: Seq<GenericParamModel>,
    pub where_preds: Seq<Seq<char>>,
    pub decodable_preds: Seq<Seq<char>>,
    pub conversion: ConversionMapModel,
}

impl View for DecodeOperation {
    type V = OperationModel;

    open spec fn view(&self) -> OperationModel {
        OperationModel {
            real_name: self.real_name@,
            staging: self.staging@,
            generics: self.generics@.map_values(|g: GenericParamDecl| g@),
            where_preds: self.where_preds@.map_values(|p: String| p@),
            decodable_preds: self.decodable_preds@.map_values(|p: String| p@),
            conversion: self.conversion@,
        }
    }
}

/// Whether a staging declaration is the one synthesized for a declaration.
pub open spec fn staging_matches_decl(s: StagingModel, d: TypeDeclModel) -> bool {
    &&& s.name == staging_name_model(d.name)
    &&& s.generics == d.generics
    &&& s.where_preds == d.where_preds
    &&& s.shape == d.shape
    &&& s.decodable_params == type_param_names(d.generics)
}

/// Whether a conversion map is the one built for a declaration and its
/// staging declaration.
pub open spec fn conversion_matches_decl(c: ConversionMapModel, d: TypeDeclModel) -> bool {
    &&& c.real_name == d.name
    &&& c.staging_name == staging_name_model(d.name)
    &&& c.body == conv_body_model(d.shape)
}

/// Internal consistency of a wired operation: its conversion is the one its
/// staging shape gives rise to.  The wiring below relies on nothing more.
pub open spec fn op_wf(op: OperationModel) -> bool {
    op.conversion.body == conv_body_model(op.staging.shape)
}

/// Whether a wired operation is the one emitted for a declaration.
pub open spec fn op_matches_decl(op: OperationModel, d: TypeDeclModel) -> bool {
    &&& op.real_name == d.name
    &&& staging_matches_decl(op.staging, d)
    &&& op.generics == d.generics
    &&& op.where_preds == dedup_model(d.where_preds)
    &&& op.decodable_preds == dedup_model(type_param_names(d.generics))
    &&& conversion_matches_decl(op.conversion, d)
}

/// Wires the staging declaration and the conversion into the emitted
/// operation, computing the final bound set: the original `where` predicates
/// united with one decodable bound per type parameter, deduplicated.
pub fn wire(decl: &TypeDecl, staging: StagingDecl, conversion: ConversionMap) -> (r:
    DecodeOperation)
    requires
        staging_matches_decl(staging@, decl@),
        conversion_matches_decl(conversion@, decl@),
    ensures
        r@.real_name == decl@.name,
        r@.staging == staging@,
        r@.generics == decl@.generics,
        r@.where_preds == dedup_model(decl@.where_preds),
        r@.decodable_preds == dedup_model(type_param_names(decl@.generics)),
        r@.conversion == conversion@,
        op_matches_decl(r@, decl@),
        op_wf(r@),
{
    let decodable_preds = dedup_texts(&staging.decodable_params);
    DecodeOperation {
        real_name: decl.name.clone(),
        generics: clone_generics(&decl.generics),
        where_preds: dedup_texts(&decl.where_preds),
        decodable_preds,
        staging,
        conversion,
    }
}

/// Runs the whole generation pass for one source declaration: classify the
/// shape, synthesize the staging declaration, build the conversion, wire the
/// operation.  A declaration of an unsupported kind aborts generation with
/// the diagnostic instead.
pub fn generate(decl: SourceDecl) -> (r: Result<DecodeOperation, ShapeError>)
    ensures
        decl@.data is Struct ==> (r matches Ok(op) && op_matches_decl(
            op@,
            TypeDeclModel {
                name: decl@.name,
                generics: decl@.generics,
                where_preds: decl@.where_preds,
                shape: TypeShapeModel::Record(decl@.data->Struct_0),
            },
        ) && op_wf(op@)),
        decl@.data is Enum ==> (r matches Ok(op) && op_matches_decl(
            op@,
            TypeDeclModel {
                name: decl@.name,
                generics: decl@.generics,
                where_preds: decl@.where_preds,
                shape: TypeShapeModel::TaggedUnion(decl@.data->Enum_0),
            },
        ) && op_wf(op@)),
        decl@.data is Union ==> (r matches Err(e)
            && e matches ShapeError::UnsupportedShape { decl: n } && n@ == decl@.name),
{
    let classified = match extract(decl) {
        Ok(t) => t,
        Err(e) => {
            return Err(e);
        },
    };
    let staging = synthesize_staging(&classified);
    let conversion = build_conversion(&classified.name, &staging.name, &classified.shape);
    Ok(wire(&classified, staging, conversion))
}

// ---------------------------------------------------------------------------
// The run-time pass: decode, convert, validate.
// ---------------------------------------------------------------------------

/// The validation capability: a rule over fully formed real values, with its
/// verdict as ok or a human-readable description of the failure.
pub trait ValidityCheck {
    /// The rule itself, as a mathematical predicate over the value model.
    spec fn valid(&self, v: ValModel) -> bool;

    /// Judges a real value, returning `Ok(())` exactly when the rule holds.
    fn check(&self, v: &RealValue) -> (r: Result<(), String>)
        ensures
            r is Ok <==> self.valid(v@),
    ;
}

/// Folds a validation verdict into the single error channel: a valid value
/// passes through unchanged, an invalid one becomes a decode failure
/// carrying the validation error's description.
pub fn apply_validation(value: RealValue, verdict: Result<(), String>) -> (r: Result<
    RealValue,
    DecodeError,
>)
    ensures
        verdict is Ok ==> (r matches Ok(v) && v@ == value@),
        verdict matches Err(d) ==> (r matches Err(e)
            && e matches DecodeError::Invalid(msg) && msg@ == d@),
{
    match verdict {
        Ok(_) => Ok(value),
        Err(d) => Err(DecodeError::Invalid(d)),
    }
}

/// A successfully decoded staging value always fits the conversion map its
/// shape gives rise to: the case analysis is exhaustive over everything the
/// decode capability can produce.
pub proof fn lemma_decoded_compatible(
    env: Seq<(Seq<char>, LeafKind)>,
    s: TypeShapeModel,
    input: InputModel,
)
    requires
        decode_shape(env, s, input) is Some,
    ensures
        conv_compatible(conv_body_model(s), decode_shape(env, s, input)->Some_0),
{
    let sv = decode_shape(env, s, input)->Some_0;
    match s {
        TypeShapeModel::Record(r) => {
            lemma_decoded_record_compatible_record(env, r, input);
        },
        TypeShapeModel::TaggedUnion(vs) => {
            let entries = input->Obj_0;
            let key = entries[0].0;
            let payload = entries[0].1;
            let fields = assoc(variant_table(vs), key)->Some_0;
            lemma_assoc_some(variant_table(vs), key);
            let i = choose|i: int|
                0 <= i < variant_table(vs).len() && (#[trigger] variant_table(vs)[i]).0
                    == key && variant_table(vs)[i].1 == fields && (forall|j: int|
                    0 <= j < i ==> (#[trigger] variant_table(vs)[j]).0 != key);
            let arms = conv_body_model(s)->Union_0;
            assert forall|j: int| 0 <= j < i implies (#[trigger] arm_table(arms)[j]).0
                != key by {
                assert(arm_table(arms)[j].0 == vs[j].name);
                assert(variant_table(vs)[j].0 == vs[j].name);
            }
            assert(arm_table(arms)[i].0 == vs[i].name);
            assert(variant_table(vs)[i].0 == vs[i].name);
            lemma_assoc_at(arm_table(arms), key, i);
            assert(arm_table(arms)[i].1 == variant_conv_model(vs[i].fields));
            assert(vs[i].fields == fields);
            lemma_decoded_record_fits_variant_conv(env, fields, payload);
        },
    }
}

/// A record's worth of decoded data fits the record conversion of its shape.
proof fn lemma_decoded_record_compatible_record(
    env: Seq<(Seq<char>, LeafKind)>,
    r: RecordShapeModel,
    input: InputModel,
)
    requires
        decode_record(env, r, input) is Some,
    ensures
        crate::convert::record_conv_compatible(
            crate::convert::record_conv_model(r),
            decode_record(env, r, input)->Some_0,
        ),
{
    match r {
        RecordShapeModel::Named(fields) => {
            let staged = decode_record(env, r, input)->Some_0->Named_0;
            assert forall|i: int|
                0 <= i < fields.map_values(|f: FieldModel| f.name).len() implies
                fields.map_values(|f: FieldModel| f.name)[i] == (#[trigger] staged[i]).0 by {
                assert(staged[i] == (fields[i].name, assoc(
                    input->Obj_0,
                    fields[i].name,
                )->Some_0));
            }
        },
        RecordShapeModel::Positional(_) => {},
        RecordShapeModel::Unit => {},
    }
}

/// A variant payload's worth of decoded data fits the variant conversion of
/// its record shape.
proof fn lemma_decoded_record_fits_variant_conv(
    env: Seq<(Seq<char>, LeafKind)>,
    r: RecordShapeModel,
    input: InputModel,
)
    requires
        decode_record(env, r, input) is Some,
    ensures
        crate::convert::variant_conv_compatible(
            variant_conv_model(r),
            decode_record(env, r, input)->Some_0,
        ),
{
    match r {
        RecordShapeModel::Named(fields) => {
            let staged = decode_record(env, r, input)->Some_0->Named_0;
            assert forall|i: int|
                0 <= i < fields.map_values(|f: FieldModel| f.name).len() implies
                fields.map_values(|f: FieldModel| f.name)[i] == (#[trigger] staged[i]).0 by {
                assert(staged[i] == (fields[i].name, assoc(
                    input->Obj_0,
                    fields[i].name,
                )->Some_0));
            }
        },
        RecordShapeModel::Positional(_) => {},
        RecordShapeModel::Unit => {},
    }
}

/// What the wired operation returns, as a function of the input and the
/// validity rule: the state machine has one linear pass and two failure
/// exits.
pub enum OutcomeModel {
    /// The decode capability failed; no value was produced.
    ParseFailed,
    /// A value was decoded and converted, and the validity rule rejected it.
    Rejected,
    /// A value was decoded, converted and accepted.
    Accepted(ValModel),
}

/// The outcome the wired operation owes for a given input: decode, then
/// judge the converted value (conversion itself is the structural identity
/// on the model).
pub open spec fn decode_outcome(
    s: TypeShapeModel,
    env: Seq<(Seq<char>, LeafKind)>,
    input: InputModel,
    valid: spec_fn(ValModel) -> bool,
) -> OutcomeModel {
    match decode_shape(env, s, input) {
        None => OutcomeModel::ParseFailed,
        Some(sv) => if valid(sv) {
            OutcomeModel::Accepted(sv)
        } else {
            OutcomeModel::Rejected
        },
    }
}

/// The wired operation: decode a staging value, convert it — infallibly —
/// into the real value, judge the real value, and hand it out only if the
/// rule accepted it.
///
/// A parse failure is propagated unchanged; a rejection travels the same
/// error channel, carrying the validity error's description.  A caller
/// holding an `Ok` value therefore holds a decoded, converted and validated
/// value — never anything less.
pub fn decode_validated<C: ValidityCheck>(
    op: &DecodeOperation,
    env: &TypeEnv,
    input: &InputValue,
    checker: &C,
) -> (r: Result<RealValue, DecodeError>)
    requires
        op_wf(op@),
    ensures
        ({
            let outcome = decode_outcome(
                op@.staging.shape,
                env@,
                input@,
                |v: ValModel| checker.valid(v),
            );
            &&& outcome is ParseFailed ==> (r matches Err(e) && e is Parse)
            &&& outcome is Rejected ==> (r matches Err(e) && e is Invalid)
            &&& outcome matches OutcomeModel::Accepted(v) ==> (r matches Ok(out) && out@
                == v)
        }),
{
    match decode_value(&op.staging.shape, env, input) {
        Err(e) => Err(e),
        Ok(staged) => {
            proof {
                lemma_decoded_compatible(env@, op@.staging.shape, input@);
            }
            let converted = convert(&op.conversion, staged);
            let verdict = checker.check(&converted);
            apply_validation(converted, verdict)
        },
    }
}

// ---------------------------------------------------------------------------
// A ready-made validity rule.
// ---------------------------------------------------------------------------

/// Whether one atom passes the ready-made rule: strings are non-empty,
/// integers non-negative, booleans true, and null passes.
pub open spec fn leaf_rule_ok(v: InputModel) -> bool {
    match v {
        InputModel::Str(s) => s.len() > 0,
        InputModel::Int(i) => i >= 0,
        InputModel::Bool(b) => b,
        _ => true,
    }
}

/// Whether every atom of a record's worth of data passes the rule.
pub open spec fn record_rule_ok(r: RecordValModel) -> bool {
    match r {
        RecordValModel::Named(fs) => forall|i: int|
            0 <= i < fs.len() ==> leaf_rule_ok((#[trigger] fs[i]).1),
        RecordValModel::Positional(ls) => forall|i: int|
            0 <= i < ls.len() ==> leaf_rule_ok(#[trigger] ls[i]),
        RecordValModel::Unit => true,
    }
}

/// Whether every atom of a real value passes the rule.
pub open spec fn value_rule_ok(v: ValModel) -> bool {
    match v {
        ValModel::Record(r) => record_rule_ok(r),
        ValModel::Variant { fields, .. } => record_rule_ok(fields),
    }
}

/// A ready-made validity rule: every string non-empty, every integer
/// non-negative, every boolean true.
pub struct NonEmptyNonNegative;

/// Whether one atom passes the ready-made rule.
fn leaf_passes(l: &crate::value::Leaf) -> (b: bool)
    ensures
        b == leaf_rule_ok(l@),
{
    match l {
        crate::value::Leaf::Null => true,
        crate::value::Leaf::Bool(v) => *v,
        crate::value::Leaf::Int(i) => *i >= 0,
        crate::value::Leaf::Str(s) => !s.as_str().is_empty(),
    }
}

/// Whether every atom of a real record passes the ready-made rule.
fn record_passes(rec: &RealRecord) -> (b: bool)
    ensures
        b == record_rule_ok(rec@),
{
    match rec {
        RealRecord::Named(fs) => {
            let mut i: usize = 0;
            while i < fs.len()
                invariant
                    i <= fs.len(),
                    rec@ == RecordValModel::Named(fs@.map_values(|f: RealField| f@)),
                    forall|k: int|
                        0 <= k < i ==> leaf_rule_ok((#[trigger] fs@[k]@).1),
                decreases fs.len() - i,
            {
                if !leaf_passes(&fs[i].value) {
                    proof {
                        let m = rec@->Named_0;
                        assert(m[i as int] == fs@[i as int]@);
                        assert(!leaf_rule_ok(m[i as int].1));
                        assert(!record_rule_ok(rec@));
                    }
                    return false;
                }
                i = i + 1;
            }
            proof {
                let m = rec@->Named_0;
                assert forall|k: int| 0 <= k < m.len() implies leaf_rule_ok((
                #[trigger] m[k]).1) by {
                    assert(m[k] == fs@[k]@);
                }
            }
            true
        },
        RealRecord::Positional(ls) => {
            let mut i: usize = 0;
            while i < ls.len()
                invariant
                    i <= ls.len(),
                    rec@ == RecordValModel::Positional(ls@.map_values(|l: Leaf| l@)),
                    forall|k: int| 0 <= k < i ==> leaf_rule_ok(#[trigger] ls@[k]@),
                decreases ls.len() - i,
            {
                if !leaf_passes(&ls[i]) {
                    proof {
                        let m = rec@->Positional_0;
                        assert(m[i as int] == ls@[i as int]@);
                        assert(!leaf_rule_ok(m[i as int]));
                        assert(!record_rule_ok(rec@));
                    }
                    return false;
                }
                i = i + 1;
            }
            proof {
                let m = rec@->Positional_0;
                assert forall|k: int| 0 <= k < m.len() implies leaf_rule_ok(
                    #[trigger] m[k],
                ) by {
                    assert(m[k] == ls@[k]@);
                }
            }
            true
        },
        RealRecord::Unit => true,
    }
}

impl ValidityCheck for NonEmptyNonNegative {
    open spec fn valid(&self, v: ValModel) -> bool {
        value_rule_ok(v)
    }

    fn check(&self, v: &RealValue) -> (r: Result<(), String>) {
        let passes = match v {
            RealValue::Record(rec) => record_passes(rec),
            RealValue::Variant { fields, .. } => record_passes(fields),
        };
        if passes {
            Ok(())
        } else {
            Err(String::from_str(
                "a string was empty, an integer negative, or a boolean false",
            ))
        }
    }
}

} // verus!
