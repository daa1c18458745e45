use rig_gemini_grpc::error::CompletionError;
use rig_gemini_grpc::json::{Json, Number};
use rig_gemini_grpc::proto::{Kind, ListValue, ProtoValue, Struct};
use rig_gemini_grpc::vertex::value::{
    is_finite, json_to_prost_struct, json_to_prost_value, number_as_f64, prost_struct_to_json,
    prost_value_to_json,
};

fn value(kind: Kind) -> ProtoValue {
    ProtoValue { kind: Some(kind) }
}

fn float(x: f64) -> Json {
    Json::Number(Number::Float(x.to_bits()))
}

#[test]
fn json_is_read_from_text() {
    assert_eq!(
        Json::parse(r#" {"a": [1, -2, 1.5, true, null], "b": "x\n"} "#),
        Some(Json::Object(vec![
            (
                "a".to_string(),
                Json::Array(vec![
                    Json::Number(Number::PosInt(1)),
                    Json::Number(Number::NegInt(-2)),
                    float(1.5),
                    Json::Bool(true),
                    Json::Null,
                ])
            ),
            ("b".to_string(), Json::String("x\n".to_string())),
        ]))
    );
    assert_eq!(Json::parse("18446744073709551615"), Some(Json::Number(Number::PosInt(u64::MAX))));
    assert_eq!(Json::parse("18446744073709551616"), Some(float(18446744073709551616.0)));
    assert_eq!(Json::parse("-0"), Some(float(-0.0)));
    for text in ["", "sunny", "{\"a\":}", "[1,]", "1 2", "1e999"] {
        assert_eq!(Json::parse(text), None, "{text}");
    }
}

#[test]
fn json_is_taken_from_a_value() {
    let mut members = serde_json::Map::new();
    members.insert("k".to_string(), serde_json::Value::Bool(false));
    members.insert("n".to_string(), serde_json::Value::from(-7));
    assert_eq!(
        Json::from_value(serde_json::Value::Object(members)),
        Json::Object(vec![
            ("k".to_string(), Json::Bool(false)),
            ("n".to_string(), Json::Number(Number::NegInt(-7))),
        ])
    );
    assert_eq!(
        Json::from_value(serde_json::Value::Array(vec![
            serde_json::Value::Null,
            serde_json::Value::from(0.25),
            serde_json::Value::from("s"),
        ])),
        Json::Array(vec![Json::Null, float(0.25), Json::String("s".to_string())])
    );
}

#[test]
fn numbers_become_binary64() {
    for n in [0u64, 1, 1 << 53, (1 << 53) + 1, u64::MAX] {
        assert_eq!(number_as_f64(Number::PosInt(n)), (n as f64).to_bits());
    }
    for n in [-1i64, -3, i64::MIN] {
        assert_eq!(number_as_f64(Number::NegInt(n)), (n as f64).to_bits());
    }
    assert_eq!(number_as_f64(Number::Float(2.5f64.to_bits())), 2.5f64.to_bits());
}

#[test]
fn json_becomes_a_protobuf_value() {
    let json = Json::Array(vec![
        Json::Null,
        Json::Bool(true),
        Json::Number(Number::PosInt(3)),
        Json::String("s".to_string()),
        Json::Object(vec![("k".to_string(), Json::Null)]),
    ]);
    assert_eq!(
        json_to_prost_value(json),
        value(Kind::ListValue(ListValue {
            values: vec![
                value(Kind::NullValue(0)),
                value(Kind::BoolValue(true)),
                value(Kind::NumberValue(3.0f64.to_bits())),
                value(Kind::StringValue("s".to_string())),
                value(Kind::StructValue(Struct {
                    fields: vec![("k".to_string(), value(Kind::NullValue(0)))]
                })),
            ]
        }))
    );
}

#[test]
fn only_objects_become_structs() {
    assert_eq!(
        json_to_prost_struct(Json::Object(vec![("a".to_string(), Json::Bool(false))])),
        Ok(Struct { fields: vec![("a".to_string(), value(Kind::BoolValue(false)))] })
    );
    for json in [Json::Null, Json::Array(vec![]), Json::String("{}".to_string())] {
        assert_eq!(
            json_to_prost_struct(json),
            Err(CompletionError::RequestError(
                "Expected a JSON object for google.protobuf.Struct".to_string()
            ))
        );
    }
}

#[test]
fn protobuf_values_become_json() {
    assert_eq!(prost_value_to_json(&ProtoValue { kind: None }), Json::Null);
    assert_eq!(prost_value_to_json(&value(Kind::NullValue(5))), Json::Null);
    assert_eq!(
        prost_value_to_json(&value(Kind::NumberValue(3.0f64.to_bits()))),
        float(3.0)
    );
    for x in [f64::NAN, f64::INFINITY, f64::NEG_INFINITY] {
        assert!(!is_finite(x.to_bits()));
        assert_eq!(prost_value_to_json(&value(Kind::NumberValue(x.to_bits()))), Json::Null);
    }
    for x in [0.0, -0.0, f64::MAX, f64::MIN_POSITIVE] {
        assert!(is_finite(x.to_bits()));
    }
    assert_eq!(
        prost_struct_to_json(&Struct {
            fields: vec![(
                "list".to_string(),
                value(Kind::ListValue(ListValue {
                    values: vec![value(Kind::StringValue("x".to_string()))]
                }))
            )]
        }),
        Json::Object(vec![(
            "list".to_string(),
            Json::Array(vec![Json::String("x".to_string())])
        )])
    );
}

#[test]
fn json_survives_protobuf() {
    let json = || {
        Json::Object(vec![
            ("x".to_string(), float(1.25)),
            ("y".to_string(), Json::Array(vec![Json::Null, Json::Bool(true)])),
        ])
    };
    assert_eq!(prost_value_to_json(&json_to_prost_value(json())), json());
    assert_eq!(
        prost_value_to_json(&json_to_prost_value(Json::Number(Number::PosInt(7)))),
        float(7.0)
    );
}

#[test]
fn protobuf_survives_json() {
    let st = || Struct {
        fields: vec![
            ("a".to_string(), value(Kind::NumberValue(0.5f64.to_bits()))),
            ("b".to_string(), value(Kind::StringValue("s".to_string()))),
        ],
    };
    assert_eq!(json_to_prost_struct(prost_struct_to_json(&st())), Ok(st()));
    assert_eq!(st().clone(), st());
}
