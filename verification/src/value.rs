//! The value side of the pipeline: structured input values as the decode
//! capability hands them over, staging values, real values, and the encoding
//! of a real value back into a structured input.
//!
//! Field types are leaf types here: a leaf-type environment says which type
//! names are decodable and to which leaf kind each decodes.  A type name
//! outside the environment is not decodable, which is exactly the situation
//! of a generic parameter whose own decode capability is missing.

use vstd::prelude::*;

verus! {

// ---------------------------------------------------------------------------
// Structured input.
// ---------------------------------------------------------------------------

/// Model of a structured input value.
pub enum InputModel {
    Null,
    Bool(bool),
    Int(int),
    Str(Seq<char>),
    Arr(Seq<InputModel>),
    Obj(Seq<(Seq<char>, InputModel)>),
}

/// An atomic input value.
#[derive(Debug, PartialEq, Eq)]
pub enum Leaf {
    Null,
    Bool(bool),
    Int(i64),
    Str(String),
}

impl View for Leaf {
    type V = InputModel;

    open spec fn view(&self) -> InputModel {
        match self {
            Leaf::Null => InputModel::Null,
            Leaf::Bool(b) => InputModel::Bool(*b),
            Leaf::Int(i) => InputModel::Int(*i as int),
            Leaf::Str(s) => InputModel::Str(s@),
        }
    }
}

impl Clone for Leaf {
    fn clone(&self) -> (r: Self)
        ensures
            r@ == self@,
    {
        match self {
            Leaf::Null => Leaf::Null,
            Leaf::Bool(b) => Leaf::Bool(*b),
            Leaf::Int(i) => Leaf::Int(*i),
            Leaf::Str(s) => Leaf::Str(s.clone()),
        }
    }
}

/// One entry of an object whose values are atomic: a variant payload object.
#[derive(Debug, PartialEq, Eq)]
pub struct FieldInput {
    pub key: String,
    pub value: Leaf,
}

impl View for FieldInput {
    type V = (Seq<char>, InputModel);

    open spec fn view(&self) -> (Seq<char>, InputModel) {
        (self.key@, self.value@)
    }
}

/// The payload under a tagged union's discriminant key: an atom, an array of
/// atoms, or an object of atoms, mirroring the three record layouts.
#[derive(Debug, PartialEq, Eq)]
pub enum PayloadInput {
    Leaf(Leaf),
    Arr(Vec<Leaf>),
    Obj(Vec<FieldInput>),
}

impl View for PayloadInput {
    type V = InputModel;

    open spec fn view(&self) -> InputModel {
        match self {
            PayloadInput::Leaf(l) => l@,
            PayloadInput::Arr(ls) => InputModel::Arr(ls@.map_values(|l: Leaf| l@)),
            PayloadInput::Obj(fs) => InputModel::Obj(
                fs@.map_values(|f: FieldInput| f@),
            ),
        }
    }
}

/// One entry of a top-level object: a field of a named record, or the single
/// discriminant entry of a tagged union.
#[derive(Debug, PartialEq, Eq)]
pub struct ObjEntry {
    pub key: String,
    pub value: PayloadInput,
}

impl View for ObjEntry {
    type V = (Seq<char>, InputModel);

    open spec fn view(&self) -> (Seq<char>, InputModel) {
        (self.key@, self.value@)
    }
}

/// A top-level structured input value.
#[derive(Debug, PartialEq, Eq)]
pub enum InputValue {
    Leaf(Leaf),
    Arr(Vec<Leaf>),
    Obj(Vec<ObjEntry>),
}

impl View for InputValue {
    type V = InputModel;

    open spec fn view(&self) -> InputModel {
        match self {
            InputValue::Leaf(l) => l@,
            InputValue::Arr(ls) => InputModel::Arr(ls@.map_values(|l: Leaf| l@)),
            InputValue::Obj(es) => InputModel::Obj(
                es@.map_values(|e: ObjEntry| e@),
            ),
        }
    }
}

/// An input value that an atomic field can hold.
pub open spec fn is_leaf(v: InputModel) -> bool {
    v is Null || v is Bool || v is Int || v is Str
}

// ---------------------------------------------------------------------------
// Leaf-type environment.
// ---------------------------------------------------------------------------

/// The kind of atom a decodable leaf type decodes to.
#[derive(Clone, Copy, Debug, PartialEq, Eq, Structural)]
pub enum LeafKind {
    Str,
    Int,
    Bool,
}

/// Whether an input value is an atom of the given kind.
pub open spec fn leaf_matches(k: LeafKind, v: InputModel) -> bool {
    match k {
        LeafKind::Str => v is Str,
        LeafKind::Int => v is Int,
        LeafKind::Bool => v is Bool,
    }
}

/// One binding of the environment: a type name and the leaf kind it decodes
/// to.
#[derive(Debug, PartialEq, Eq)]
pub struct EnvEntry {
    pub name: String,
    pub kind: LeafKind,
}

impl View for EnvEntry {
    type V = (Seq<char>, LeafKind);

    open spec fn view(&self) -> (Seq<char>, LeafKind) {
        (self.name@, self.kind)
    }
}

/// The set of decodable leaf types, in lookup order.  A type name absent from
/// the environment has no decode capability.
#[derive(Debug, PartialEq, Eq)]
pub struct TypeEnv {
    pub entries: Vec<EnvEntry>,
}

impl View for TypeEnv {
    type V = Seq<(Seq<char>, LeafKind)>;

    open spec fn view(&self) -> Seq<(Seq<char>, LeafKind)> {
        self.entries@.map_values(|e: EnvEntry| e@)
    }
}

/// The leaf kind the environment gives to a type name: its first binding.
pub open spec fn env_lookup(env: Seq<(Seq<char>, LeafKind)>, ty: Seq<char>) -> Option<
    LeafKind,
> {
    crate::lookup::assoc(env, ty)
}

impl TypeEnv {
    /// Looks the type name up, returning its first binding if there is one.
    pub fn lookup(&self, ty: &String) -> (r: Option<LeafKind>)
        ensures
            r == env_lookup(self@, ty@),
    {
        let mut i: usize = 0;
        while i < self.entries.len()
            invariant
                i <= self.entries.len(),
                forall|j: int| 0 <= j < i ==> (#[trigger] self@[j]).0 != ty@,
            decreases self.entries.len() - i,
        {
            proof {
                assert(self@[i as int] == (self.entries@[i as int].name@, self.entries@[
                    i as int].kind));
            }
            if self.entries[i].name == *ty {
                proof {
                    crate::lookup::lemma_assoc_at(self@, ty@, i as int);
                }
                return Some(self.entries[i].kind);
            }
            i = i + 1;
        }
        proof {
            crate::lookup::lemma_assoc_none(self@, ty@);
        }
        None
    }
}

// ---------------------------------------------------------------------------
// Staging values and real values.
// ---------------------------------------------------------------------------

/// Model of a record's worth of decoded atoms.  The pair sequence of the
/// named form holds field names and atomic values.
pub enum RecordValModel {
    Named(Seq<(Seq<char>, InputModel)>),
    Positional(Seq<InputModel>),
    Unit,
}

/// Model of a staging value and of a real value alike: the conversion between
/// the two is a pure structural copy, so both sides share one model.
pub enum ValModel {
    Record(RecordValModel),
    Variant { name: Seq<char>, fields: RecordValModel },
}

/// One decoded named field of a staging value.
#[derive(Debug, PartialEq, Eq)]
pub struct StagedField {
    pub name: String,
    pub value: Leaf,
}

impl View for StagedField {
    type V = (Seq<char>, InputModel);

    open spec fn view(&self) -> (Seq<char>, InputModel) {
        (self.name@, self.value@)
    }
}

/// A record's worth of a staging value.
#[derive(Debug, PartialEq, Eq)]
pub enum StagedRecord {
    Named(Vec<StagedField>),
    Positional(Vec<Leaf>),
    Unit,
}

impl View for StagedRecord {
    type V = RecordValModel;

    open spec fn view(&self) -> RecordValModel {
        match self {
            StagedRecord::Named(fs) => RecordValModel::Named(
                fs@.map_values(|f: StagedField| f@),
            ),
            StagedRecord::Positional(ls) => RecordValModel::Positional(
                ls@.map_values(|l: Leaf| l@),
            ),
            StagedRecord::Unit => RecordValModel::Unit,
        }
    }
}

/// A staging value: what the decode capability produces, before conversion
/// and before any validation.
#[derive(Debug, PartialEq, Eq)]
pub enum StagedValue {
    Record(StagedRecord),
    Variant { name: String, fields: StagedRecord },
}

impl View for StagedValue {
    type V = ValModel;

    open spec fn view(&self) -> ValModel {
        match self {
            StagedValue::Record(r) => ValModel::Record(r@),
            StagedValue::Variant { name, fields } => ValModel::Variant {
                name: name@,
                fields: fields@,
            },
        }
    }
}

/// One named field of a real value.
#[derive(Debug, PartialEq, Eq)]
pub struct RealField {
    pub name: String,
    pub value: Leaf,
}

impl View for RealField {
    type V = (Seq<char>, InputModel);

    open spec fn view(&self) -> (Seq<char>, InputModel) {
        (self.name@, self.value@)
    }
}

/// A record's worth of a real value.
#[derive(Debug, PartialEq, Eq)]
pub enum RealRecord {
    Named(Vec<RealField>),
    Positional(Vec<Leaf>),
    Unit,
}

impl View for RealRecord {
    type V = RecordValModel;

    open spec fn view(&self) -> RecordValModel {
        match self {
            RealRecord::Named(fs) => RecordValModel::Named(
                fs@.map_values(|f: RealField| f@),
            ),
            RealRecord::Positional(ls) => RecordValModel::Positional(
                ls@.map_values(|l: Leaf| l@),
            ),
            RealRecord::Unit => RecordValModel::Unit,
        }
    }
}

/// A real value: what conversion produces and validation judges.  Only the
/// wired operation hands these out, so a caller holding one can never have
/// skipped validation.
#[derive(Debug, PartialEq, Eq)]
pub enum RealValue {
    Record(RealRecord),
    Variant { name: String, fields: RealRecord },
}

impl View for RealValue {
    type V = ValModel;

    open spec fn view(&self) -> ValModel {
        match self {
            RealValue::Record(r) => ValModel::Record(r@),
            RealValue::Variant { name, fields } => ValModel::Variant {
                name: name@,
                fields: fields@,
            },
        }
    }
}

// ---------------------------------------------------------------------------
// Encoding a real value back into structured input.
// ---------------------------------------------------------------------------

/// The structured input that carries exactly the structural shape of a
/// record's worth of atoms.  A single positional field encodes as its bare
/// value, with no array around it.
pub open spec fn encode_record_model(r: RecordValModel) -> InputModel {
    match r {
        RecordValModel::Named(fs) => InputModel::Obj(fs),
        RecordValModel::Positional(ls) => if ls.len() == 1 {
            ls[0]
        } else {
            InputModel::Arr(ls)
        },
        RecordValModel::Unit => InputModel::Null,
    }
}

/// The structured input that carries exactly the structural shape of a real
/// value: records encode as themselves, a variant as a one-entry object under
/// its discriminant name.
pub open spec fn encode_model(v: ValModel) -> InputModel {
    match v {
        ValModel::Record(r) => encode_record_model(r),
        ValModel::Variant { name, fields } => InputModel::Obj(
            seq![(name, encode_record_model(fields))],
        ),
    }
}

/// Encodes a real value into the structured input carrying its shape.
pub fn encode(v: &RealValue) -> (r: InputValue)
    ensures
        r@ == encode_model(v@),
{
    match v {
        RealValue::Record(rec) => match rec {
            RealRecord::Named(fs) => {
                let mut out: Vec<ObjEntry> = Vec::new();
                let mut i: usize = 0;
                while i < fs.len()
                    invariant
                        i <= fs.len(),
                        out.len() == i,
                        forall|j: int| 0 <= j < i ==> out@[j]@ == fs@[j]@,
                    decreases fs.len() - i,
                {
                    out.push(
                        ObjEntry {
                            key: fs[i].name.clone(),
                            value: PayloadInput::Leaf(fs[i].value.clone()),
                        },
                    );
                    i = i + 1;
                }
                let r = InputValue::Obj(out);
                proof {
                    assert(r@->Obj_0 =~= encode_model(v@)->Obj_0);
                }
                r
            },
            RealRecord::Positional(ls) => {
                if ls.len() == 1 {
                    InputValue::Leaf(ls[0].clone())
                } else {
                    let mut out: Vec<Leaf> = Vec::new();
                    let mut i: usize = 0;
                    while i < ls.len()
                        invariant
                            i <= ls.len(),
                            out.len() == i,
                            forall|j: int| 0 <= j < i ==> out@[j]@ == ls@[j]@,
                        decreases ls.len() - i,
                    {
                        out.push(ls[i].clone());
                        i = i + 1;
                    }
                    let r = InputValue::Arr(out);
                    proof {
                        assert(r@->Arr_0 =~= encode_model(v@)->Arr_0);
                    }
                    r
                }
            },
            RealRecord::Unit => InputValue::Leaf(Leaf::Null),
        },
        RealValue::Variant { name, fields } => {
            let payload: PayloadInput = match fields {
                RealRecord::Named(fs) => {
                    let mut out: Vec<FieldInput> = Vec::new();
                    let mut i: usize = 0;
                    while i < fs.len()
                        invariant
                            i <= fs.len(),
                            out.len() == i,
                            forall|j: int| 0 <= j < i ==> out@[j]@ == fs@[j]@,
                        decreases fs.len() - i,
                    {
                        out.push(
                            FieldInput {
                                key: fs[i].name.clone(),
                                value: fs[i].value.clone(),
                            },
                        );
                        i = i + 1;
                    }
                    let p = PayloadInput::Obj(out);
                    proof {
                        assert(p@->Obj_0 =~= encode_record_model(fields@)->Obj_0);
                    }
                    p
                },
                RealRecord::Positional(ls) => {
                    if ls.len() == 1 {
                        PayloadInput::Leaf(ls[0].clone())
                    } else {
                        let mut out: Vec<Leaf> = Vec::new();
                        let mut i: usize = 0;
                        while i < ls.len()
                            invariant
                                i <= ls.len(),
                                out.len() == i,
                                forall|j: int| 0 <= j < i ==> out@[j]@ == ls@[j]@,
                            decreases ls.len() - i,
                        {
                            out.push(ls[i].clone());
                            i = i + 1;
                        }
                        let p = PayloadInput::Arr(out);
                        proof {
                            assert(p@->Arr_0 =~= encode_record_model(fields@)->Arr_0);
                        }
                        p
                    }
                },
                RealRecord::Unit => PayloadInput::Leaf(Leaf::Null),
            };
            let r = InputValue::Obj(vec![ObjEntry { key: name.clone(), value: payload }]);
            proof {
                assert(r@->Obj_0 =~= encode_model(v@)->Obj_0);
            }
            r
        },
    }
}

} // verus!
