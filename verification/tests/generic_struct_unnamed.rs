use serde_validate::decl::{FieldDecl, GenericParamDecl, RecordShape, SourceData, SourceDecl};
use serde_validate::error::DecodeError;
use serde_validate::value::{
    EnvEntry, FieldInput, InputValue, Leaf, LeafKind, ObjEntry, PayloadInput, RealValue,
    TypeEnv,
};
use serde_validate::wire::{decode_validated, generate, DecodeOperation, NonEmptyNonNegative};

fn leaf_of(v: &serde_json::Value) -> Leaf {
    if v.is_null() {
        Leaf::Null
    } else if let Some(b) = v.as_bool() {
        Leaf::Bool(b)
    } else if let Some(i) = v.as_i64() {
        Leaf::Int(i)
    } else if let Some(s) = v.as_str() {
        Leaf::Str(s.to_string())
    } else {
        panic!("input value is not an atom");
    }
}

fn payload_of(v: &serde_json::Value) -> PayloadInput {
    if let Some(arr) = v.as_array() {
        PayloadInput::Arr(arr.iter().map(leaf_of).collect())
    } else if let Some(obj) = v.as_object() {
        PayloadInput::Obj(
            obj.iter()
                .map(|(k, x)| FieldInput { key: k.clone(), value: leaf_of(x) })
                .collect(),
        )
    } else {
        PayloadInput::Leaf(leaf_of(v))
    }
}

fn input_of(text: &str) -> InputValue {
    let v: serde_json::Value = serde_json::from_str(text).unwrap();
    if let Some(arr) = v.as_array() {
        InputValue::Arr(arr.iter().map(leaf_of).collect())
    } else if let Some(obj) = v.as_object() {
        InputValue::Obj(
            obj.iter()
                .map(|(k, x)| ObjEntry { key: k.clone(), value: payload_of(x) })
                .collect(),
        )
    } else {
        InputValue::Leaf(leaf_of(&v))
    }
}

fn scenario_op() -> DecodeOperation {
    let decl = SourceDecl {
        name: "NonEmptyAndNonNegative".to_string(),
        generics: vec![GenericParamDecl::TypeParam {
            name: "T".to_string(),
            bounds: vec!["Validate<Error = String>".to_string()],
        }],
        where_preds: vec![],
        data: SourceData::Struct(RecordShape::Positional(vec![
            "String".to_string(),
            "i32".to_string(),
            "T".to_string(),
        ])),
    };
    generate(decl).unwrap()
}

fn scenario_env() -> TypeEnv {
    TypeEnv {
        entries: vec![
            EnvEntry { name: "String".to_string(), kind: LeafKind::Str },
            EnvEntry { name: "i32".to_string(), kind: LeafKind::Int },
            EnvEntry { name: "T".to_string(), kind: LeafKind::Bool },
        ],
    }
}

fn decode(text: &str) -> Result<RealValue, DecodeError> {
    decode_validated(&scenario_op(), &scenario_env(), &input_of(text), &NonEmptyNonNegative)
}

#[test]
fn generic_struct_unnamed_test_deserialize_ok() {
    assert!(decode("[\"Lucas\", 1, true]").is_ok());
}

#[test]
fn generic_struct_unnamed_test_deserialize_empty() {
    assert!(decode("[\"\", 1, true]").is_err());
}

#[test]
fn generic_struct_unnamed_test_deserialize_negative() {
    assert!(decode("[\"Lucas\", -1, true]").is_err());
}

#[test]
fn generic_struct_unnamed_test_deserialize_false() {
    assert!(decode("[\"Lucas\", 1, false]").is_err());
}
