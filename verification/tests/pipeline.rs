use serde_validate::convert::{build_conversion, ArmConv, ConvBody, RecordConv, VariantConv};
use serde_validate::decl::{
    FieldDecl, GenericParamDecl, RecordShape, SourceData, SourceDecl, TypeShape,
    VariantShape,
};
use serde_validate::error::ShapeError;
use serde_validate::extract::extract;
use serde_validate::staging::synthesize_staging;
use serde_validate::wire::generate;

fn named_struct_decl() -> SourceDecl {
    SourceDecl {
        name: "Account".to_string(),
        generics: vec![GenericParamDecl::TypeParam {
            name: "T".to_string(),
            bounds: vec!["Validate".to_string()],
        }],
        where_preds: vec![
            "T::Error: Display".to_string(),
            "T::Error: Display".to_string(),
        ],
        data: SourceData::Struct(RecordShape::Named(vec![
            FieldDecl { name: "name".to_string(), ty: "String".to_string() },
            FieldDecl { name: "id".to_string(), ty: "i32".to_string() },
            FieldDecl { name: "t".to_string(), ty: "T".to_string() },
        ])),
    }
}

fn union_decl() -> SourceDecl {
    SourceDecl {
        name: "Choice".to_string(),
        generics: vec![],
        where_preds: vec![],
        data: SourceData::Enum(vec![
            VariantShape {
                name: "Text".to_string(),
                fields: RecordShape::Named(vec![FieldDecl {
                    name: "name".to_string(),
                    ty: "String".to_string(),
                }]),
            },
            VariantShape {
                name: "Pair".to_string(),
                fields: RecordShape::Positional(vec![
                    "i32".to_string(),
                    "i32".to_string(),
                ]),
            },
            VariantShape { name: "Nothing".to_string(), fields: RecordShape::Unit },
        ]),
    }
}

#[test]
fn union_declaration_is_unsupported() {
    let decl = SourceDecl {
        name: "RawBits".to_string(),
        generics: vec![],
        where_preds: vec![],
        data: SourceData::Union(vec![FieldDecl {
            name: "bits".to_string(),
            ty: "u32".to_string(),
        }]),
    };
    let r = extract(decl);
    assert!(
        r.unwrap_err()
            == ShapeError::UnsupportedShape { decl: "RawBits".to_string() }
    );
}

#[test]
fn generation_aborts_on_unsupported_shape() {
    let decl = SourceDecl {
        name: "RawBits".to_string(),
        generics: vec![],
        where_preds: vec![],
        data: SourceData::Union(vec![]),
    };
    let r = generate(decl);
    assert!(
        r.unwrap_err()
            == ShapeError::UnsupportedShape { decl: "RawBits".to_string() }
    );
}

#[test]
fn staging_name_uses_reserved_prefix() {
    let classified = extract(named_struct_decl()).unwrap();
    let staging = synthesize_staging(&classified);
    assert!(staging.name.as_str() == "__ValidDeserializeAccount");
    assert!(staging.name != classified.name);
}

#[test]
fn staging_keeps_shape_and_generics() {
    let classified = extract(named_struct_decl()).unwrap();
    let staging = synthesize_staging(&classified);
    match &staging.shape {
        TypeShape::Record(RecordShape::Named(fields)) => {
            assert!(fields.len() == 3);
            assert!(fields[0].name.as_str() == "name");
            assert!(fields[1].name.as_str() == "id");
            assert!(fields[2].name.as_str() == "t");
            assert!(fields[2].ty.as_str() == "T");
        },
        _ => panic!("staging shape is not the named record"),
    }
    assert!(staging.generics.len() == 1);
    assert!(staging.where_preds.len() == 2);
    assert!(staging.decodable_params == vec!["T".to_string()]);
}

#[test]
fn wired_operation_dedups_bounds() {
    let op = generate(named_struct_decl()).unwrap();
    assert!(op.where_preds == vec!["T::Error: Display".to_string()]);
    assert!(op.decodable_preds == vec!["T".to_string()]);
    assert!(op.real_name.as_str() == "Account");
}

#[test]
fn named_conversion_covers_every_field_once() {
    let op = generate(named_struct_decl()).unwrap();
    match &op.conversion.body {
        ConvBody::Record(RecordConv::Named(names)) => {
            assert!(
                *names
                    == vec!["name".to_string(), "id".to_string(), "t".to_string()]
            );
        },
        _ => panic!("conversion is not the named record copy"),
    }
}

#[test]
fn positional_conversion_counts_every_position() {
    let decl = SourceDecl {
        name: "Pair".to_string(),
        generics: vec![],
        where_preds: vec![],
        data: SourceData::Struct(RecordShape::Positional(vec![
            "String".to_string(),
            "i32".to_string(),
        ])),
    };
    let op = generate(decl).unwrap();
    match &op.conversion.body {
        ConvBody::Record(RecordConv::Positional(n)) => assert!(*n == 2),
        _ => panic!("conversion is not the positional copy"),
    }
}

#[test]
fn union_conversion_has_one_arm_per_variant() {
    let op = generate(union_decl()).unwrap();
    match &op.conversion.body {
        ConvBody::Union(arms) => {
            assert!(arms.len() == 3);
            assert!(arms[0].variant.as_str() == "Text");
            assert!(arms[1].variant.as_str() == "Pair");
            assert!(arms[2].variant.as_str() == "Nothing");
            assert!(matches!(&arms[0].conv, VariantConv::Named(_)));
            assert!(matches!(&arms[2].conv, VariantConv::Unit));
            match &arms[1].conv {
                VariantConv::Positional(binders) => {
                    assert!(
                        *binders == vec!["value_0".to_string(), "value_1".to_string()]
                    );
                },
                _ => panic!("the positional arm has no binders"),
            }
        },
        _ => panic!("conversion is not the union case analysis"),
    }
}

#[test]
fn positional_binders_are_decimal_and_distinct() {
    let shape = TypeShape::TaggedUnion(vec![VariantShape {
        name: "Wide".to_string(),
        fields: RecordShape::Positional(vec!["i32".to_string(); 12]),
    }]);
    let conv = build_conversion(
        &"Wide".to_string(),
        &"__ValidDeserializeWide".to_string(),
        &shape,
    );
    let arms: &Vec<ArmConv> = match &conv.body {
        ConvBody::Union(arms) => arms,
        _ => panic!("conversion is not the union case analysis"),
    };
    let binders = match &arms[0].conv {
        VariantConv::Positional(binders) => binders,
        _ => panic!("the arm is not positional"),
    };
    assert!(binders.len() == 12);
    assert!(binders[0].as_str() == "value_0");
    assert!(binders[9].as_str() == "value_9");
    assert!(binders[10].as_str() == "value_10");
    assert!(binders[11].as_str() == "value_11");
    for i in 0..binders.len() {
        for j in 0..i {
            assert!(binders[i] != binders[j]);
        }
    }
}

#[test]
fn conversion_names_both_sides() {
    let op = generate(union_decl()).unwrap();
    assert!(op.conversion.real_name.as_str() == "Choice");
    assert!(op.conversion.staging_name.as_str() == "__ValidDeserializeChoice");
    assert!(op.staging.name.as_str() == "__ValidDeserializeChoice");
}
