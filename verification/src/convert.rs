//! The conversion synthesizer: from a shape it derives the pure, total
//! mapping that rebuilds a real value out of a staging value, and applies
//! that mapping.
//!
//! Records convert by a field-for-field copy (by name or by position); a
//! tagged union converts by an exhaustive case analysis with exactly one arm
//! per variant and no catch-all arm.  Positional variant payloads get
//! synthesized binder names, unique within their arm.

use vstd::prelude::*;
use vstd::string::StringExecFns;
use crate::decl::{distinct_names, FieldModel, RecordShape, RecordShapeModel, TypeShape,
    TypeShapeModel, VariantModel};
use crate::lookup::{assoc, lemma_assoc_at, lemma_assoc_none};
use crate::value::{RealField, RealRecord, RealValue, RecordValModel, StagedField,
    StagedRecord, StagedValue, ValModel};

verus! {

// ---------------------------------------------------------------------------
// The conversion map.
// ---------------------------------------------------------------------------

/// How a record's worth of staging data is copied into the real value.
#[derive(Debug)]
pub enum RecordConv {
    /// One copy per field name, in declared order.
    Named(Vec<String>),
    /// One copy per position: index `i` maps unconditionally to position `i`.
    Positional(usize),
    /// The zero-argument real value, unconditionally.
    Unit,
}

/// Model of a record conversion.
pub enum RecordConvModel {
    Named(Seq<Seq<char>>),
    Positional(int),
    Unit,
}

impl View for RecordConv {
    type V = RecordConvModel;

    open spec fn view(&self) -> RecordConvModel {
        match self {
            RecordConv::Named(names) => RecordConvModel::Named(
                names@.map_values(|n: String| n@),
            ),
            RecordConv::Positional(n) => RecordConvModel::Positional(*n as int),
            RecordConv::Unit => RecordConvModel::Unit,
        }
    }
}

/// How one union arm destructures its staging payload and rebuilds the real
/// variant.  A positional payload is destructured through synthesized binder
/// names, one per position.
#[derive(Debug)]
pub enum VariantConv {
    Named(Vec<String>),
    Positional(Vec<String>),
    Unit,
}

/// Model of a variant conversion.
pub enum VariantConvModel {
    Named(Seq<Seq<char>>),
    Positional(Seq<Seq<char>>),
    Unit,
}

impl View for VariantConv {
    type V = VariantConvModel;

    open spec fn view(&self) -> VariantConvModel {
        match self {
            VariantConv::Named(names) => VariantConvModel::Named(
                names@.map_values(|n: String| n@),
            ),
            VariantConv::Positional(binders) => VariantConvModel::Positional(
                binders@.map_values(|n: String| n@),
            ),
            VariantConv::Unit => VariantConvModel::Unit,
        }
    }
}

/// One case arm of a union conversion: the variant it matches by name, and
/// how it copies that variant's payload.
#[derive(Debug)]
pub struct ArmConv {
    pub variant: String,
    pub conv: VariantConv,
}

/// Model of one case arm.
pub struct ArmConvModel {
    pub variant: Seq<char>,
    pub conv: VariantConvModel,
}

impl View for ArmConv {
    type V = ArmConvModel;

    open spec fn view(&self) -> ArmConvModel {
        ArmConvModel { variant: self.variant@, conv: self.conv@ }
    }
}

/// The body of a conversion: a single record copy, or an exhaustive case
/// analysis over union arms.  There is no representation of a catch-all arm.
#[derive(Debug)]
pub enum ConvBody {
    Record(RecordConv),
    Union(Vec<ArmConv>),
}

/// Model of a conversion body.
pub enum ConvBodyModel {
    Record(RecordConvModel),
    Union(Seq<ArmConvModel>),
}

impl View for ConvBody {
    type V = ConvBodyModel;

    open spec fn view(&self) -> ConvBodyModel {
        match self {
            ConvBody::Record(rc) => ConvBodyModel::Record(rc@),
            ConvBody::Union(arms) => ConvBodyModel::Union(
                arms@.map_values(|a: ArmConv| a@),
            ),
        }
    }
}

/// The pure mapping from a staging value to a real value, as a description:
/// which real type it builds, from which staging type, and how.
#[derive(Debug)]
pub struct ConversionMap {
    pub real_name: String,
    pub staging_name: String,
    pub body: ConvBody,
}

/// Model of a conversion map.
pub struct ConversionMapModel {
    pub real_name: Seq<char>,
    pub staging_name: Seq<char>,
    pub body: ConvBodyModel,
}

impl View for ConversionMap {
    type V = ConversionMapModel;

    open spec fn view(&self) -> ConversionMapModel {
        ConversionMapModel {
            real_name: self.real_name@,
            staging_name: self.staging_name@,
            body: self.body@,
        }
    }
}

// ---------------------------------------------------------------------------
// Synthesized binder names for positional arms.
// ---------------------------------------------------------------------------

/// The decimal digit character for `d`.
pub open spec fn digit_char(d: int) -> char {
    if d == 0 {
        '0'
    } else if d == 1 {
        '1'
    } else if d == 2 {
        '2'
    } else if d == 3 {
        '3'
    } else if d == 4 {
        '4'
    } else if d == 5 {
        '5'
    } else if d == 6 {
        '6'
    } else if d == 7 {
        '7'
    } else if d == 8 {
        '8'
    } else {
        '9'
    }
}

/// The decimal digit string of `n`, most significant digit first.
pub open spec fn digits_model(n: nat) -> Seq<char>
    decreases n,
{
    if n < 10 {
        seq![digit_char(n as int)]
    } else {
        digits_model(n / 10).push(digit_char((n % 10) as int))
    }
}

/// The synthesized binder name for position `i` of a positional arm.
pub open spec fn binder_model(i: int) -> Seq<char> {
    "value_"@ + digits_model(i as nat)
}

/// The single-character string for a decimal digit.
fn digit_str(d: usize) -> (r: &'static str)
    requires
        d < 10,
    ensures
        r@ == seq![digit_char(d as int)],
{
    proof {
        reveal_strlit("0");
        reveal_strlit("1");
        reveal_strlit("2");
        reveal_strlit("3");
        reveal_strlit("4");
        reveal_strlit("5");
        reveal_strlit("6");
        reveal_strlit("7");
        reveal_strlit("8");
        reveal_strlit("9");
    }
    match d {
        0 => "0",
        1 => "1",
        2 => "2",
        3 => "3",
        4 => "4",
        5 => "5",
        6 => "6",
        7 => "7",
        8 => "8",
        _ => "9",
    }
}

/// Formats an index in decimal.
fn format_index(n: usize) -> (r: String)
    ensures
        r@ == digits_model(n as nat),
    decreases n,
{
    if n < 10 {
        String::from_str(digit_str(n))
    } else {
        proof {
            assert(n / 10 < n) by (nonlinear_arith)
                requires
                    n >= 10,
            ;
        }
        let r = format_index(n / 10).concat(digit_str(n % 10));
        proof {
            assert(digits_model((n / 10) as nat) + seq![
                digit_char((n % 10) as int),
            ] =~= digits_model((n / 10) as nat).push(digit_char((n % 10) as int)));
        }
        r
    }
}

/// Builds the synthesized binder name for position `i`.
fn binder_name(i: usize) -> (r: String)
    ensures
        r@ == binder_model(i as int),
{
    String::from_str("value_").concat(format_index(i).as_str())
}

/// A decimal digit string is never empty.
pub proof fn lemma_digits_len(n: nat)
    ensures
        digits_model(n).len() >= 1,
    decreases n,
{
    if n >= 10 {
        lemma_digits_len(n / 10);
    }
}

/// The decimal digit strings of two different numbers differ.
pub proof fn lemma_digits_injective(a: nat, b: nat)
    requires
        a != b,
    ensures
        digits_model(a) != digits_model(b),
    decreases a + b,
{
    if a < 10 && b < 10 {
        assert(digits_model(a)[0] == digit_char(a as int));
        assert(digits_model(b)[0] == digit_char(b as int));
    } else if a < 10 {
        lemma_digits_len((b / 10) as nat);
        assert(digits_model(b).len() >= 2);
    } else if b < 10 {
        lemma_digits_len((a / 10) as nat);
        assert(digits_model(a).len() >= 2);
    } else {
        if digits_model(a) == digits_model(b) {
            assert(digits_model(a).last() == digit_char((a % 10) as int));
            assert(digits_model(b).last() == digit_char((b % 10) as int));
            assert(a % 10 == b % 10);
            assert(digits_model(a).drop_last() =~= digits_model(a / 10));
            assert(digits_model(b).drop_last() =~= digits_model(b / 10));
            if a / 10 == b / 10 {
                assert(a == 10 * (a / 10) + a % 10) by (nonlinear_arith);
                assert(b == 10 * (b / 10) + b % 10) by (nonlinear_arith);
            } else {
                lemma_digits_injective((a / 10) as nat, (b / 10) as nat);
            }
        }
    }
}

/// Synthesized binder names are unique within their arm.
pub proof fn lemma_binders_distinct(n: int)
    requires
        n >= 0,
    ensures
        distinct_names(Seq::new(n as nat, |i: int| binder_model(i))),
{
    let binders = Seq::new(n as nat, |i: int| binder_model(i));
    assert forall|i: int, j: int| 0 <= i < j < n implies binders[i] != binders[j] by {
        lemma_digits_injective(i as nat, j as nat);
        assert(binders[i].skip(6) =~= digits_model(i as nat)) by {
            reveal_strlit("value_");
        }
        assert(binders[j].skip(6) =~= digits_model(j as nat)) by {
            reveal_strlit("value_");
        }
    }
}

// ---------------------------------------------------------------------------
// Building the conversion map from a shape.
// ---------------------------------------------------------------------------

/// The conversion of a record at the top of a declaration.
pub open spec fn record_conv_model(r: RecordShapeModel) -> RecordConvModel {
    match r {
        RecordShapeModel::Named(fields) => RecordConvModel::Named(
            fields.map_values(|f: FieldModel| f.name),
        ),
        RecordShapeModel::Positional(tys) => RecordConvModel::Positional(tys.len() as int),
        RecordShapeModel::Unit => RecordConvModel::Unit,
    }
}

/// The conversion of one variant's payload, with synthesized binders for the
/// positional case.
pub open spec fn variant_conv_model(r: RecordShapeModel) -> VariantConvModel {
    match r {
        RecordShapeModel::Named(fields) => VariantConvModel::Named(
            fields.map_values(|f: FieldModel| f.name),
        ),
        RecordShapeModel::Positional(tys) => VariantConvModel::Positional(
            Seq::new(tys.len(), |i: int| binder_model(i)),
        ),
        RecordShapeModel::Unit => VariantConvModel::Unit,
    }
}

/// The conversion body a shape gives rise to: a record copy, or one arm per
/// variant, in variant order, under the variant's own name.
pub open spec fn conv_body_model(s: TypeShapeModel) -> ConvBodyModel {
    match s {
        TypeShapeModel::Record(r) => ConvBodyModel::Record(record_conv_model(r)),
        TypeShapeModel::TaggedUnion(vs) => ConvBodyModel::Union(
            vs.map_values(
                |v: VariantModel| ArmConvModel {
                    variant: v.name,
                    conv: variant_conv_model(v.fields),
                },
            ),
        ),
    }
}

/// Collects the field names of a named record, in declared order.
fn field_names(fields: &Vec<crate::decl::FieldDecl>) -> (r: Vec<String>)
    ensures
        r@.map_values(|n: String| n@) == fields@.map_values(|f: crate::decl::FieldDecl| f@)
            .map_values(|f: FieldModel| f.name),
{
    let mut out: Vec<String> = Vec::new();
    let mut i: usize = 0;
    while i < fields.len()
        invariant
            i <= fields.len(),
            out.len() == i,
            forall|j: int| 0 <= j < i ==> out@[j]@ == fields@[j].name@,
        decreases fields.len() - i,
    {
        out.push(fields[i].name.clone());
        i = i + 1;
    }
    proof {
        assert(out@.map_values(|n: String| n@) =~= fields@.map_values(
            |f: crate::decl::FieldDecl| f@,
        ).map_values(|f: FieldModel| f.name));
    }
    out
}

/// Builds the list of synthesized binder names for `n` positions.
fn binder_names(n: usize) -> (r: Vec<String>)
    ensures
        r@.map_values(|s: String| s@) == Seq::new(n as nat, |i: int| binder_model(i)),
{
    let mut out: Vec<String> = Vec::new();
    let mut i: usize = 0;
    while i < n
        invariant
            i <= n,
            out.len() == i,
            forall|j: int| 0 <= j < i ==> out@[j]@ == binder_model(j),
        decreases n - i,
    {
        out.push(binder_name(i));
        i = i + 1;
    }
    proof {
        assert(out@.map_values(|s: String| s@) =~= Seq::new(
            n as nat,
            |i: int| binder_model(i),
        ));
    }
    out
}

/// Builds the conversion map for a shape: the description of the pure, total
/// function from a staging value of that shape to the real value.
///
/// Every field is covered exactly once, in declared order; a union gets
/// exactly one arm per variant, under the variant's name, and no catch-all
/// arm exists at all.
pub fn build_conversion(real_name: &String, staging_name: &String, shape: &TypeShape) -> (r:
    ConversionMap)
    ensures
        r@.real_name == real_name@,
        r@.staging_name == staging_name@,
        r@.body == conv_body_model(shape@),
{
    let body = match shape {
        TypeShape::Record(rec) => ConvBody::Record(
            match rec {
                RecordShape::Named(fields) => RecordConv::Named(field_names(fields)),
                RecordShape::Positional(tys) => RecordConv::Positional(tys.len()),
                RecordShape::Unit => RecordConv::Unit,
            },
        ),
        TypeShape::TaggedUnion(vs) => {
            let mut arms: Vec<ArmConv> = Vec::new();
            let mut i: usize = 0;
            while i < vs.len()
                invariant
                    i <= vs.len(),
                    arms.len() == i,
                    forall|j: int|
                        0 <= j < i ==> #[trigger] arms@[j]@ == (ArmConvModel {
                            variant: vs@[j]@.name,
                            conv: variant_conv_model(vs@[j]@.fields),
                        }),
                decreases vs.len() - i,
            {
                let conv = match &vs[i].fields {
                    RecordShape::Named(fields) => VariantConv::Named(field_names(fields)),
                    RecordShape::Positional(tys) => VariantConv::Positional(
                        binder_names(tys.len()),
                    ),
                    RecordShape::Unit => VariantConv::Unit,
                };
                arms.push(ArmConv { variant: vs[i].name.clone(), conv });
                i = i + 1;
            }
            let body = ConvBody::Union(arms);
            proof {
                assert(body@->Union_0 =~= conv_body_model(shape@)->Union_0);
            }
            body
        },
    };
    ConversionMap {
        real_name: real_name.clone(),
        staging_name: staging_name.clone(),
        body,
    }
}

// ---------------------------------------------------------------------------
// Compatibility and application.
// ---------------------------------------------------------------------------

/// Whether a record conversion fits a record's worth of staged data.
pub open spec fn record_conv_compatible(c: RecordConvModel, r: RecordValModel) -> bool {
    match c {
        RecordConvModel::Named(names) => r matches RecordValModel::Named(fields)
            && names.len() == fields.len() && (forall|i: int|
            0 <= i < names.len() ==> names[i] == (#[trigger] fields[i]).0),
        RecordConvModel::Positional(n) => r matches RecordValModel::Positional(ls)
            && ls.len() == n,
        RecordConvModel::Unit => r is Unit,
    }
}

/// Whether a variant conversion fits a record's worth of staged payload.
pub open spec fn variant_conv_compatible(c: VariantConvModel, r: RecordValModel) -> bool {
    match c {
        VariantConvModel::Named(names) => r matches RecordValModel::Named(fields)
            && names.len() == fields.len() && (forall|i: int|
            0 <= i < names.len() ==> names[i] == (#[trigger] fields[i]).0),
        VariantConvModel::Positional(binders) => r matches RecordValModel::Positional(ls)
            && ls.len() == binders.len(),
        VariantConvModel::Unit => r is Unit,
    }
}

/// The arms of a union conversion, as a lookup table keyed by variant name.
pub open spec fn arm_table(arms: Seq<ArmConvModel>) -> Seq<(Seq<char>, VariantConvModel)> {
    arms.map_values(|a: ArmConvModel| (a.variant, a.conv))
}

/// Whether a conversion body fits a staged value: a record conversion fits a
/// staged record of the same layout, and a union conversion fits a staged
/// variant only if some arm matches its name and fits its payload.  A staged
/// variant outside the arm list fits nothing: there is no catch-all.
pub open spec fn conv_compatible(c: ConvBodyModel, v: ValModel) -> bool {
    match c {
        ConvBodyModel::Record(rc) => v matches ValModel::Record(rv)
            && record_conv_compatible(rc, rv),
        ConvBodyModel::Union(arms) => v matches ValModel::Variant { name, fields }
            && (assoc(arm_table(arms), name) matches Some(ac) && variant_conv_compatible(
            ac,
            fields,
        )),
    }
}

/// Copies one named record's worth of staged fields, the conversion's field
/// list driving the copy.
fn convert_named(names: &Vec<String>, fields: Vec<StagedField>) -> (r: Vec<RealField>)
    requires
        names@.len() == fields@.len(),
        forall|i: int|
            0 <= i < names@.len() ==> names@[i]@ == (#[trigger] fields@[i]@).0,
    ensures
        r@.map_values(|f: RealField| f@) == fields@.map_values(|f: StagedField| f@),
{
    let mut out: Vec<RealField> = Vec::new();
    let mut i: usize = 0;
    while i < names.len()
        invariant
            i <= names.len(),
            out.len() == i,
            names@.len() == fields@.len(),
            forall|j: int|
                0 <= j < names@.len() ==> names@[j]@ == (#[trigger] fields@[j]@).0,
            forall|j: int| 0 <= j < i ==> out@[j]@ == fields@[j]@,
        decreases names.len() - i,
    {
        out.push(RealField { name: names[i].clone(), value: fields[i].value.clone() });
        i = i + 1;
    }
    proof {
        assert(out@.map_values(|f: RealField| f@) =~= fields@.map_values(
            |f: StagedField| f@,
        ));
    }
    out
}

/// Copies a positional record's worth of staged atoms, position by position.
fn convert_positional(n: usize, leaves: Vec<crate::value::Leaf>) -> (r: Vec<
    crate::value::Leaf,
>)
    requires
        leaves@.len() == n,
    ensures
        r@.map_values(|l: crate::value::Leaf| l@) == leaves@.map_values(
            |l: crate::value::Leaf| l@,
        ),
{
    let mut out: Vec<crate::value::Leaf> = Vec::new();
    let mut i: usize = 0;
    while i < n
        invariant
            i <= n,
            out.len() == i,
            leaves@.len() == n,
            forall|j: int| 0 <= j < i ==> out@[j]@ == leaves@[j]@,
        decreases n - i,
    {
        out.push(leaves[i].clone());
        i = i + 1;
    }
    proof {
        assert(out@.map_values(|l: crate::value::Leaf| l@) =~= leaves@.map_values(
            |l: crate::value::Leaf| l@,
        ));
    }
    out
}

/// Applies a conversion map to a staging value it fits: a pure structural
/// copy, infallible by construction.  The resulting real value carries
/// exactly the staged data.
pub fn convert(map: &ConversionMap, staged: StagedValue) -> (r: RealValue)
    requires
        conv_compatible(map@.body, staged@),
    ensures
        r@ == staged@,
{
    match staged {
        StagedValue::Record(sr) => {
            let rec: RealRecord = match sr {
                StagedRecord::Named(fields) => match &map.body {
                    ConvBody::Record(RecordConv::Named(names)) => {
                        proof {
                            let names_m = names@.map_values(|n: String| n@);
                            let fields_m = fields@.map_values(|f: StagedField| f@);
                            assert forall|k: int|
                                0 <= k < names@.len() implies names@[k]@ == (
                            #[trigger] fields@[k]@).0 by {
                                assert(names_m[k] == names@[k]@);
                                assert(fields_m[k] == fields@[k]@);
                            }
                        }
                        let out = convert_named(names, fields);
                        RealRecord::Named(out)
                    },
                    _ => vstd::pervasive::unreached(),
                },
                StagedRecord::Positional(leaves) => match &map.body {
                    ConvBody::Record(RecordConv::Positional(n)) => {
                        let out = convert_positional(*n, leaves);
                        RealRecord::Positional(out)
                    },
                    _ => vstd::pervasive::unreached(),
                },
                StagedRecord::Unit => RealRecord::Unit,
            };
            RealValue::Record(rec)
        },
        StagedValue::Variant { name, fields } => {
            match &map.body {
                ConvBody::Union(arms) => {
                    let mut i: usize = 0;
                    let n = arms.len();
                    while i < n
                        invariant
                            i <= n,
                            n == arms.len(),
                            staged@ == (ValModel::Variant { name: name@, fields: fields@ }),
                            conv_compatible(
                                map@.body,
                                ValModel::Variant { name: name@, fields: fields@ },
                            ),
                            map@.body == ConvBodyModel::Union(
                                arms@.map_values(|a: ArmConv| a@),
                            ),
                            forall|j: int|
                                0 <= j < i ==> (#[trigger] arm_table(
                                    map@.body->Union_0,
                                )[j]).0 != name@,
                        decreases n - i,
                    {
                        proof {
                            assert(arm_table(map@.body->Union_0)[i as int] == (arms@[
                                i as int]@.variant, arms@[i as int]@.conv));
                        }
                        if arms[i].variant == name {
                            proof {
                                lemma_assoc_at(
                                    arm_table(map@.body->Union_0),
                                    name@,
                                    i as int,
                                );
                            }
                            let rec: RealRecord = match fields {
                                StagedRecord::Named(sfields) => match &arms[i].conv {
                                    VariantConv::Named(names) => {
                                        proof {
                                            let names_m = names@.map_values(
                                                |s: String| s@,
                                            );
                                            let fields_m = sfields@.map_values(
                                                |f: StagedField| f@,
                                            );
                                            assert forall|k: int|
                                                0 <= k < names@.len() implies names@[k]@
                                                == (#[trigger] sfields@[k]@).0 by {
                                                assert(names_m[k] == names@[k]@);
                                                assert(fields_m[k] == sfields@[k]@);
                                            }
                                        }
                                        let out = convert_named(names, sfields);
                                        RealRecord::Named(out)
                                    },
                                    _ => vstd::pervasive::unreached(),
                                },
                                StagedRecord::Positional(leaves) => match &arms[
                                    i].conv {
                                    VariantConv::Positional(binders) => {
                                        let out = convert_positional(
                                            binders.len(),
                                            leaves,
                                        );
                                        RealRecord::Positional(out)
                                    },
                                    _ => vstd::pervasive::unreached(),
                                },
                                StagedRecord::Unit => RealRecord::Unit,
                            };
                            return RealValue::Variant { name, fields: rec };
                        }
                        i = i + 1;
                    }
                    proof {
                        lemma_assoc_none(arm_table(map@.body->Union_0), name@);
                    }
                    vstd::pervasive::unreached()
                },
                _ => vstd::pervasive::unreached(),
            }
        },
    }
}

} // verus!
