//! The shape extractor: classifies a source declaration into one of the four
//! supported structural kinds, preserving field and variant order exactly.

use vstd::prelude::*;
use crate::decl::{SourceData, SourceDecl, TypeDecl, TypeShape, TypeShapeModel};
use crate::error::ShapeError;

verus! {

/// Classifies a source declaration.
///
/// A struct body becomes a record of its layout; an enum body becomes a
/// tagged union of its variants, in source order and under their source
/// names.  A discriminant-free union is unsupported: classification fails
/// with a diagnostic naming the declaration, never silently succeeds.
pub fn extract(decl: SourceDecl) -> (r: Result<TypeDecl, ShapeError>)
    ensures
        decl@.data is Struct ==> (r matches Ok(t) && t@.name == decl@.name && t@.generics
            == decl@.generics && t@.where_preds == decl@.where_preds && t@.shape
            == TypeShapeModel::Record(decl@.data->Struct_0)),
        decl@.data is Enum ==> (r matches Ok(t) && t@.name == decl@.name && t@.generics
            == decl@.generics && t@.where_preds == decl@.where_preds && t@.shape
            == TypeShapeModel::TaggedUnion(decl@.data->Enum_0)),
        decl@.data is Union ==> (r matches Err(e) && e matches ShapeError::UnsupportedShape {
            decl: n,
        } && n@ == decl@.name),
{
    let SourceDecl { name, generics, where_preds, data } = decl;
    match data {
        SourceData::Struct(record) => Ok(
            TypeDecl { name, generics, where_preds, shape: TypeShape::Record(record) },
        ),
        SourceData::Enum(variants) => Ok(
            TypeDecl {
                name,
                generics,
                where_preds,
                shape: TypeShape::TaggedUnion(variants),
            },
        ),
        SourceData::Union(_) => Err(ShapeError::UnsupportedShape { decl: name }),
    }
}

} // verus!
