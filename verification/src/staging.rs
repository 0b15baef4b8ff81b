//! The staging-type synthesizer: from a classified declaration it derives the
//! isomorphic staging declaration that the decode capability fills in.
//!
//! The staging declaration keeps the shape, the generic parameters and the
//! `where` predicates of the original, carries a fresh collision-free name,
//! and records that every type parameter additionally needs to be decodable.
//! Being a `StagingDecl` at all is the mark that makes it consumable by the
//! decode capability; nothing else may construct staging values.

use vstd::prelude::*;
use vstd::string::StringExecFns;
use crate::decl::{
    clone_generics, clone_strings, GenericParamDecl, GenericParamModel, TypeDecl,
    TypeDeclModel, TypeShape, TypeShapeModel,
};

verus! {

/// The staging declaration derived one-to-one from a classified declaration.
#[derive(Debug)]
pub struct StagingDecl {
    pub name: String,
    pub generics: Vec<GenericParamDecl>,
    pub where_preds: Vec<String>,
    pub shape: TypeShape,
    /// The type parameters that additionally must be decodable: every type
    /// parameter of the original, in declaration order.
    pub decodable_params: Vec<String>,
}

/// Model of a staging declaration.
pub struct StagingModel {
    pub name: Seq<char>,
    pub generics: Seq<GenericParamModel>,
    pub where_preds: Seq<Seq<char>>,
    pub shape: TypeShapeModel,
    pub decodable_params: Seq<Seq<char>>,
}

impl View for StagingDecl {
    type V = StagingModel;

    open spec fn view(&self) -> StagingModel {
        StagingModel {
            name: self.name@,
            generics: self.generics@.map_values(|g: GenericParamDecl| g@),
            where_preds: self.where_preds@.map_values(|p: String| p@),
            shape: self.shape@,
            decodable_params: self.decodable_params@.map_values(|s: String| s@),
        }
    }
}

/// The reserved prefix from which staging names are derived.
pub open spec fn staging_prefix() -> Seq<char> {
    "__ValidDeserialize"@
}

/// The staging name derived from an original name.
pub open spec fn staging_name_model(name: Seq<char>) -> Seq<char> {
    staging_prefix() + name
}

/// Derives the staging declaration's name from the original's.  The reserved
/// prefix keeps it apart from every user-visible name in the same scope.
pub fn staging_name(name: &String) -> (r: String)
    ensures
        r@ == staging_name_model(name@),
{
    String::from_str("__ValidDeserialize").concat(name.as_str())
}

/// The naming scheme is collision-free: two distinct original names give two
/// distinct staging names, and a staging name never equals an original name.
pub proof fn lemma_staging_name_fresh(a: Seq<char>, b: Seq<char>)
    ensures
        a != b ==> staging_name_model(a) != staging_name_model(b),
        staging_name_model(a) != a,
{
    reveal_strlit("__ValidDeserialize");
    if a != b && staging_name_model(a) == staging_name_model(b) {
        assert(staging_name_model(a).skip(18) =~= a);
        assert(staging_name_model(b).skip(18) =~= b);
    }
    assert(staging_name_model(a).len() == a.len() + 18);
}

/// The names of the type parameters among `gs`, in order.
pub open spec fn type_param_names(gs: Seq<GenericParamModel>) -> Seq<Seq<char>>
    decreases gs.len(),
{
    if gs.len() == 0 {
        Seq::empty()
    } else {
        let front = type_param_names(gs.drop_last());
        match gs.last() {
            GenericParamModel::TypeParam { name, .. } => front.push(name),
            _ => front,
        }
    }
}

/// Collects the names of the type parameters, in declaration order: the
/// parameters that must themselves be decodable for the staging declaration
/// to be decodable.
pub fn decodable_params(generics: &Vec<GenericParamDecl>) -> (r: Vec<String>)
    ensures
        r@.map_values(|s: String| s@) == type_param_names(
            generics@.map_values(|g: GenericParamDecl| g@),
        ),
{
    let ghost gs = generics@.map_values(|g: GenericParamDecl| g@);
    let mut out: Vec<String> = Vec::new();
    let mut i: usize = 0;
    while i < generics.len()
        invariant
            i <= generics.len(),
            gs == generics@.map_values(|g: GenericParamDecl| g@),
            out@.map_values(|s: String| s@) == type_param_names(gs.take(i as int)),
        decreases generics.len() - i,
    {
        proof {
            assert(gs.take(i + 1).drop_last() =~= gs.take(i as int));
            assert(gs.take(i + 1).last() == gs[i as int]);
        }
        match &generics[i] {
            GenericParamDecl::TypeParam { name, .. } => {
                out.push(name.clone());
                proof {
                    assert(out@.map_values(|s: String| s@) =~= type_param_names(
                        gs.take(i + 1),
                    ));
                }
            },
            _ => {
                proof {
                    assert(out@.map_values(|s: String| s@) =~= type_param_names(
                        gs.take(i + 1),
                    ));
                }
            },
        }
        i = i + 1;
    }
    proof {
        assert(gs.take(generics@.len() as int) =~= gs);
    }
    out
}

/// Synthesizes the staging declaration for a classified declaration: same
/// shape, same generics, same `where` predicates, a fresh derived name, and
/// every type parameter marked as needing the decode capability.
pub fn synthesize_staging(decl: &TypeDecl) -> (r: StagingDecl)
    ensures
        r@.name == staging_name_model(decl@.name),
        r@.generics == decl@.generics,
        r@.where_preds == decl@.where_preds,
        r@.shape == decl@.shape,
        r@.decodable_params == type_param_names(decl@.generics),
{
    StagingDecl {
        name: staging_name(&decl.name),
        generics: clone_generics(&decl.generics),
        where_preds: clone_strings(&decl.where_preds),
        shape: decl.shape.clone(),
        decodable_params: decodable_params(&decl.generics),
    }
}

} // verus!
