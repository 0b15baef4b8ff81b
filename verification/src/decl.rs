//! The model of type declarations: the four structural kinds, generic
//! parameters with their bounds, and the declarations that carry them.
//!
//! Field and variant order is significant everywhere and is preserved
//! end-to-end: positional indices and the staging layout both depend on it.

use vstd::prelude::*;

verus! {

// ---------------------------------------------------------------------------
// Mathematical models.  Each executable type below views into one of these.
// ---------------------------------------------------------------------------

/// Model of one named field: its name and the text of its type.
pub struct FieldModel {
    pub name: Seq<char>,
    pub ty: Seq<char>,
}

/// Model of a record layout: named fields, positional fields, or none.
pub enum RecordShapeModel {
    Named(Seq<FieldModel>),
    Positional(Seq<Seq<char>>),
    Unit,
}

/// Model of one tagged-union variant: a discriminant name and a record
/// payload.  Unions never nest directly as a variant payload.
pub struct VariantModel {
    pub name: Seq<char>,
    pub fields: RecordShapeModel,
}

/// Model of a type's structural classification.
pub enum TypeShapeModel {
    Record(RecordShapeModel),
    TaggedUnion(Seq<VariantModel>),
}

/// Model of one generic parameter of a declaration.
pub enum GenericParamModel {
    TypeParam { name: Seq<char>, bounds: Seq<Seq<char>> },
    LifetimeParam { name: Seq<char> },
    ConstParam { name: Seq<char>, ty: Seq<char> },
}

/// Model of a supported declaration: name, generics, `where` predicates and
/// shape.
pub struct TypeDeclModel {
    pub name: Seq<char>,
    pub generics: Seq<GenericParamModel>,
    pub where_preds: Seq<Seq<char>>,
    pub shape: TypeShapeModel,
}

/// Model of the body of an arbitrary source declaration, before it is
/// classified.  A discriminant-free union is the one unsupported kind.
pub enum SourceDataModel {
    Struct(RecordShapeModel),
    Enum(Seq<VariantModel>),
    Union(Seq<FieldModel>),
}

/// Model of a source declaration as it arrives from the host language.
pub struct SourceDeclModel {
    pub name: Seq<char>,
    pub generics: Seq<GenericParamModel>,
    pub where_preds: Seq<Seq<char>>,
    pub data: SourceDataModel,
}

// ---------------------------------------------------------------------------
// Executable declaration data.
// ---------------------------------------------------------------------------

/// One named field of a record: its name and the text of its type.
#[derive(Debug)]
pub struct FieldDecl {
    pub name: String,
    pub ty: String,
}

impl View for FieldDecl {
    type V = FieldModel;

    open spec fn view(&self) -> FieldModel {
        FieldModel { name: self.name@, ty: self.ty@ }
    }
}

/// A record layout: named fields, an ordered list of positional field types,
/// or no fields at all.
#[derive(Debug)]
pub enum RecordShape {
    Named(Vec<FieldDecl>),
    Positional(Vec<String>),
    Unit,
}

impl View for RecordShape {
    type V = RecordShapeModel;

    open spec fn view(&self) -> RecordShapeModel {
        match self {
            RecordShape::Named(fields) => RecordShapeModel::Named(
                fields@.map_values(|f: FieldDecl| f@),
            ),
            RecordShape::Positional(tys) => RecordShapeModel::Positional(
                tys@.map_values(|t: String| t@),
            ),
            RecordShape::Unit => RecordShapeModel::Unit,
        }
    }
}

/// One variant of a tagged union: a discriminant name plus a record payload.
#[derive(Debug)]
pub struct VariantShape {
    pub name: String,
    pub fields: RecordShape,
}

impl View for VariantShape {
    type V = VariantModel;

    open spec fn view(&self) -> VariantModel {
        VariantModel { name: self.name@, fields: self.fields@ }
    }
}

/// The structural classification of a supported type: a record of one of the
/// three record layouts, or a tagged union of such records.
#[derive(Debug)]
pub enum TypeShape {
    Record(RecordShape),
    TaggedUnion(Vec<VariantShape>),
}

impl View for TypeShape {
    type V = TypeShapeModel;

    open spec fn view(&self) -> TypeShapeModel {
        match self {
            TypeShape::Record(r) => TypeShapeModel::Record(r@),
            TypeShape::TaggedUnion(vs) => TypeShapeModel::TaggedUnion(
                vs@.map_values(|v: VariantShape| v@),
            ),
        }
    }
}

/// One generic parameter of a declaration, with any inline bounds on a type
/// parameter kept as text.
#[derive(Debug)]
pub enum GenericParamDecl {
    TypeParam { name: String, bounds: Vec<String> },
    LifetimeParam { name: String },
    ConstParam { name: String, ty: String },
}

impl View for GenericParamDecl {
    type V = GenericParamModel;

    open spec fn view(&self) -> GenericParamModel {
        match self {
            GenericParamDecl::TypeParam { name, bounds } => GenericParamModel::TypeParam {
                name: name@,
                bounds: bounds@.map_values(|b: String| b@),
            },
            GenericParamDecl::LifetimeParam { name } => GenericParamModel::LifetimeParam {
                name: name@,
            },
            GenericParamDecl::ConstParam { name, ty } => GenericParamModel::ConstParam {
                name: name@,
                ty: ty@,
            },
        }
    }
}

/// A classified declaration: one of the four supported kinds, together with
/// its name, generic parameters and `where` predicates.
#[derive(Debug)]
pub struct TypeDecl {
    pub name: String,
    pub generics: Vec<GenericParamDecl>,
    pub where_preds: Vec<String>,
    pub shape: TypeShape,
}

impl View for TypeDecl {
    type V = TypeDeclModel;

    open spec fn view(&self) -> TypeDeclModel {
        TypeDeclModel {
            name: self.name@,
            generics: self.generics@.map_values(|g: GenericParamDecl| g@),
            where_preds: self.where_preds@.map_values(|p: String| p@),
            shape: self.shape@,
        }
    }
}

/// The body of a source declaration before classification.  The union form
/// carries its fields only so that a diagnostic can describe it; it is never
/// classified.
#[derive(Debug)]
pub enum SourceData {
    Struct(RecordShape),
    Enum(Vec<VariantShape>),
    Union(Vec<FieldDecl>),
}

impl View for SourceData {
    type V = SourceDataModel;

    open spec fn view(&self) -> SourceDataModel {
        match self {
            SourceData::Struct(r) => SourceDataModel::Struct(r@),
            SourceData::Enum(vs) => SourceDataModel::Enum(
                vs@.map_values(|v: VariantShape| v@),
            ),
            SourceData::Union(fs) => SourceDataModel::Union(
                fs@.map_values(|f: FieldDecl| f@),
            ),
        }
    }
}

/// A source declaration as handed over by the host language, not yet
/// classified into a supported shape.
#[derive(Debug)]
pub struct SourceDecl {
    pub name: String,
    pub generics: Vec<GenericParamDecl>,
    pub where_preds: Vec<String>,
    pub data: SourceData,
}

impl View for SourceDecl {
    type V = SourceDeclModel;

    open spec fn view(&self) -> SourceDeclModel {
        SourceDeclModel {
            name: self.name@,
            generics: self.generics@.map_values(|g: GenericParamDecl| g@),
            where_preds: self.where_preds@.map_values(|p: String| p@),
            data: self.data@,
        }
    }
}

// ---------------------------------------------------------------------------
// Well-formedness.
// ---------------------------------------------------------------------------

/// No two entries of `names` are the same string.
pub open spec fn distinct_names(names: Seq<Seq<char>>) -> bool {
    forall|i: int, j: int| 0 <= i < j < names.len() ==> names[i] != names[j]
}

/// A record layout is well formed when its field names are pairwise distinct.
pub open spec fn record_shape_wf(r: RecordShapeModel) -> bool {
    match r {
        RecordShapeModel::Named(fields) => distinct_names(
            fields.map_values(|f: FieldModel| f.name),
        ),
        RecordShapeModel::Positional(_) => true,
        RecordShapeModel::Unit => true,
    }
}

/// A shape is well formed when every record in it is well formed and, for a
/// tagged union, the variant names are pairwise distinct.
pub open spec fn type_shape_wf(s: TypeShapeModel) -> bool {
    match s {
        TypeShapeModel::Record(r) => record_shape_wf(r),
        TypeShapeModel::TaggedUnion(vs) => {
            &&& distinct_names(vs.map_values(|v: VariantModel| v.name))
            &&& forall|i: int| 0 <= i < vs.len() ==> record_shape_wf(#[trigger] vs[i].fields)
        },
    }
}

// ---------------------------------------------------------------------------
// Cloning, specified: the copy views to the same model as the original.
// ---------------------------------------------------------------------------

impl Clone for FieldDecl {
    fn clone(&self) -> (r: Self)
        ensures
            r@ == self@,
    {
        FieldDecl { name: self.name.clone(), ty: self.ty.clone() }
    }
}

impl Clone for RecordShape {
    fn clone(&self) -> (r: Self)
        ensures
            r@ == self@,
    {
        match self {
            RecordShape::Named(fields) => {
                let mut out: Vec<FieldDecl> = Vec::new();
                let mut i: usize = 0;
                while i < fields.len()
                    invariant
                        i <= fields.len(),
                        out.len() == i,
                        forall|j: int| 0 <= j < i ==> out@[j]@ == fields@[j]@,
                    decreases fields.len() - i,
                {
                    out.push(fields[i].clone());
                    i = i + 1;
                }
                let r = RecordShape::Named(out);
                proof {
                    assert(r@->Named_0 =~= self@->Named_0);
                }
                r
            },
            RecordShape::Positional(tys) => {
                let mut out: Vec<String> = Vec::new();
                let mut i: usize = 0;
                while i < tys.len()
                    invariant
                        i <= tys.len(),
                        out.len() == i,
                        forall|j: int| 0 <= j < i ==> out@[j]@ == tys@[j]@,
                    decreases tys.len() - i,
                {
                    out.push(tys[i].clone());
                    i = i + 1;
                }
                let r = RecordShape::Positional(out);
                proof {
                    assert(r@->Positional_0 =~= self@->Positional_0);
                }
                r
            },
            RecordShape::Unit => RecordShape::Unit,
        }
    }
}

impl Clone for VariantShape {
    fn clone(&self) -> (r: Self)
        ensures
            r@ == self@,
    {
        VariantShape { name: self.name.clone(), fields: self.fields.clone() }
    }
}

impl Clone for TypeShape {
    fn clone(&self) -> (r: Self)
        ensures
            r@ == self@,
    {
        match self {
            TypeShape::Record(rec) => TypeShape::Record(rec.clone()),
            TypeShape::TaggedUnion(vs) => {
                let mut out: Vec<VariantShape> = Vec::new();
                let mut i: usize = 0;
                while i < vs.len()
                    invariant
                        i <= vs.len(),
                        out.len() == i,
                        forall|j: int| 0 <= j < i ==> out@[j]@ == vs@[j]@,
                    decreases vs.len() - i,
                {
                    out.push(vs[i].clone());
                    i = i + 1;
                }
                let r = TypeShape::TaggedUnion(out);
                proof {
                    assert(r@->TaggedUnion_0 =~= self@->TaggedUnion_0);
                }
                r
            },
        }
    }
}

impl Clone for GenericParamDecl {
    fn clone(&self) -> (r: Self)
        ensures
            r@ == self@,
    {
        match self {
            GenericParamDecl::TypeParam { name, bounds } => {
                let mut out: Vec<String> = Vec::new();
                let mut i: usize = 0;
                while i < bounds.len()
                    invariant
                        i <= bounds.len(),
                        out.len() == i,
                        forall|j: int| 0 <= j < i ==> out@[j]@ == bounds@[j]@,
                    decreases bounds.len() - i,
                {
                    out.push(bounds[i].clone());
                    i = i + 1;
                }
                let r = GenericParamDecl::TypeParam { name: name.clone(), bounds: out };
                proof {
                    assert(r@->TypeParam_bounds =~= self@->TypeParam_bounds);
                }
                r
            },
            GenericParamDecl::LifetimeParam { name } => GenericParamDecl::LifetimeParam {
                name: name.clone(),
            },
            GenericParamDecl::ConstParam { name, ty } => GenericParamDecl::ConstParam {
                name: name.clone(),
                ty: ty.clone(),
            },
        }
    }
}

/// Copies a vector of generic parameters; the copy views to the same model.
pub fn clone_generics(generics: &Vec<GenericParamDecl>) -> (r: Vec<GenericParamDecl>)
    ensures
        r@.map_values(|g: GenericParamDecl| g@) == generics@.map_values(
            |g: GenericParamDecl| g@,
        ),
{
    let mut out: Vec<GenericParamDecl> = Vec::new();
    let mut i: usize = 0;
    while i < generics.len()
        invariant
            i <= generics.len(),
            out.len() == i,
            forall|j: int| 0 <= j < i ==> out@[j]@ == generics@[j]@,
        decreases generics.len() - i,
    {
        out.push(generics[i].clone());
        i = i + 1;
    }
    proof {
        assert(out@.map_values(|g: GenericParamDecl| g@) =~= generics@.map_values(
            |g: GenericParamDecl| g@,
        ));
    }
    out
}

/// Copies a vector of strings; the copy views to the same sequence of texts.
pub fn clone_strings(strs: &Vec<String>) -> (r: Vec<String>)
    ensures
        r@.map_values(|s: String| s@) == strs@.map_values(|s: String| s@),
{
    let mut out: Vec<String> = Vec::new();
    let mut i: usize = 0;
    while i < strs.len()
        invariant
            i <= strs.len(),
            out.len() == i,
            forall|j: int| 0 <= j < i ==> out@[j]@ == strs@[j]@,
        decreases strs.len() - i,
    {
        out.push(strs[i].clone());
        i = i + 1;
    }
    proof {
        assert(out@.map_values(|s: String| s@) =~= strs@.map_values(|s: String| s@));
    }
    out
}

} // verus!
