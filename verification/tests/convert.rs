use std::collections::BTreeMap;

use lib::compat::{reader_check_msg, u64_to_decimal, Incompatible, MIN_MSG_VER, MIN_READER_VER, VER};
use lib::convert::FromToProto;
use lib::pb::{
    Array, DataField, DataSchema, DataType, Dt, Dt24, Empty, NullableType, Num, Number, Struct,
    Tuple,
};
use lib::schema::{NumberDataType, TableDataType, TableField, TableSchema};

const E: Empty = Empty {};

fn numbers() -> Vec<NumberDataType> {
    vec![
        NumberDataType::UInt8,
        NumberDataType::UInt16,
        NumberDataType::UInt32,
        NumberDataType::UInt64,
        NumberDataType::Int8,
        NumberDataType::Int16,
        NumberDataType::Int32,
        NumberDataType::Int64,
        NumberDataType::Float32,
        NumberDataType::Float64,
    ]
}

fn sample_types() -> Vec<TableDataType> {
    vec![
        TableDataType::Null,
        TableDataType::EmptyArray,
        TableDataType::Boolean,
        TableDataType::String,
        TableDataType::Number(NumberDataType::Int32),
        TableDataType::Timestamp,
        TableDataType::Date,
        TableDataType::Nullable(Box::new(TableDataType::String)),
        TableDataType::Array(Box::new(TableDataType::Number(NumberDataType::Float64))),
        TableDataType::MapType(Box::new(TableDataType::Tuple {
            fields_name: vec!["key".to_string(), "value".to_string()],
            fields_type: vec![TableDataType::String, TableDataType::Variant],
        })),
        TableDataType::Tuple { fields_name: vec![], fields_type: vec![] },
        TableDataType::Tuple {
            fields_name: vec!["x".to_string()],
            fields_type: vec![
                TableDataType::Nullable(Box::new(TableDataType::Array(Box::new(
                    TableDataType::Date,
                )))),
                TableDataType::Boolean,
            ],
        },
        TableDataType::Variant,
    ]
}

fn legacy(dt: Dt) -> DataType {
    DataType { ver: 23, min_reader_ver: 1, dt: Some(dt), dt24: None }
}

fn new_form(dt24: Dt24) -> DataType {
    DataType { ver: VER, min_reader_ver: MIN_READER_VER, dt: None, dt24: Some(dt24) }
}

fn reason(r: Result<TableDataType, Incompatible>) -> String {
    r.unwrap_err().reason
}

#[test]
fn test_versions() {
    assert_eq!(VER, 26);
    assert_eq!(MIN_READER_VER, 24);
    assert_eq!(MIN_MSG_VER, 1);
}

#[test]
fn test_u64_to_decimal() {
    assert_eq!(u64_to_decimal(0), "0");
    assert_eq!(u64_to_decimal(7), "7");
    assert_eq!(u64_to_decimal(10), "10");
    assert_eq!(u64_to_decimal(305), "305");
    assert_eq!(u64_to_decimal(u64::MAX), "18446744073709551615");
}

#[test]
fn test_reader_check_msg() {
    assert_eq!(reader_check_msg(1, 0), Ok(()));
    assert_eq!(reader_check_msg(26, 24), Ok(()));
    assert_eq!(reader_check_msg(100, 26), Ok(()));
    assert_eq!(
        reader_check_msg(30, 27).unwrap_err().reason,
        "executable ver=26 is smaller than the min reader version(27) that can read this message"
    );
    assert_eq!(
        reader_check_msg(0, 0).unwrap_err().reason,
        "message ver=0 is smaller than executable MIN_MSG_VER(1) that this program can read"
    );
    // The reader version is checked first.
    assert_eq!(
        reader_check_msg(0, 1000).unwrap_err().reason,
        "executable ver=26 is smaller than the min reader version(1000) that can read this message"
    );
}

#[test]
fn test_number_roundtrip() {
    for n in numbers() {
        let p = n.to_pb().unwrap();
        assert_eq!(p.ver, VER);
        assert_eq!(p.min_reader_ver, MIN_READER_VER);
        assert_eq!(NumberDataType::get_pb_ver(&p), VER);
        assert_eq!(NumberDataType::from_pb(p).unwrap(), n);
    }
}

#[test]
fn test_number_written_kind() {
    let p = NumberDataType::Int16.to_pb().unwrap();
    assert_eq!(p, Number { ver: 26, min_reader_ver: 24, num: Some(Num::Int16Type(E)) });
    let p = NumberDataType::Float32.to_pb().unwrap();
    assert_eq!(p.num, Some(Num::Float32Type(E)));
}

#[test]
fn test_number_errors() {
    let p = Number { ver: 26, min_reader_ver: 24, num: None };
    assert_eq!(NumberDataType::from_pb(p).unwrap_err().reason, "Invalid Number: .num can not be None");
    let p = Number { ver: 26, min_reader_ver: 99, num: Some(Num::Uint8Type(E)) };
    assert_eq!(
        NumberDataType::from_pb(p).unwrap_err().reason,
        "executable ver=26 is smaller than the min reader version(99) that can read this message"
    );
}

#[test]
fn test_type_roundtrip() {
    for (t, same) in sample_types().into_iter().zip(sample_types()) {
        let p = t.to_pb().unwrap();
        assert_eq!(TableDataType::get_pb_ver(&p), VER);
        assert_eq!(TableDataType::from_pb(p).unwrap(), same);
    }
}

#[test]
fn test_type_written_form() {
    let p = TableDataType::Boolean.to_pb().unwrap();
    assert_eq!(p, new_form(Dt24::BoolT(E)));

    let p = TableDataType::Nullable(Box::new(TableDataType::Number(NumberDataType::UInt8)))
        .to_pb()
        .unwrap();
    let want = new_form(Dt24::NullableT(Box::new(new_form(Dt24::NumberT(Number {
        ver: 26,
        min_reader_ver: 24,
        num: Some(Num::Uint8Type(E)),
    })))));
    assert_eq!(p, want);

    let p = TableDataType::Tuple {
        fields_name: vec!["a".to_string(), "b".to_string()],
        fields_type: vec![TableDataType::Date, TableDataType::Timestamp],
    }
    .to_pb()
    .unwrap();
    let want = new_form(Dt24::TupleT(Tuple {
        ver: 26,
        min_reader_ver: 24,
        field_names: vec!["a".to_string(), "b".to_string()],
        field_types: vec![new_form(Dt24::DateT(E)), new_form(Dt24::TimestampT(E))],
    }));
    assert_eq!(p, want);

    let p = TableDataType::MapType(Box::new(TableDataType::EmptyArray)).to_pb().unwrap();
    assert_eq!(p, new_form(Dt24::MapT(Box::new(new_form(Dt24::EmptyArrayT(E))))));
}

#[test]
fn test_legacy_simple_types() {
    let cases = vec![
        (Dt::NullType(E), TableDataType::Null),
        (Dt::BoolType(E), TableDataType::Boolean),
        (Dt::Int8Type(E), TableDataType::Number(NumberDataType::Int8)),
        (Dt::Int16Type(E), TableDataType::Number(NumberDataType::Int16)),
        (Dt::Int32Type(E), TableDataType::Number(NumberDataType::Int32)),
        (Dt::Int64Type(E), TableDataType::Number(NumberDataType::Int64)),
        (Dt::Uint8Type(E), TableDataType::Number(NumberDataType::UInt8)),
        (Dt::Uint16Type(E), TableDataType::Number(NumberDataType::UInt16)),
        (Dt::Uint32Type(E), TableDataType::Number(NumberDataType::UInt32)),
        (Dt::Uint64Type(E), TableDataType::Number(NumberDataType::UInt64)),
        (Dt::Float32Type(E), TableDataType::Number(NumberDataType::Float32)),
        (Dt::Float64Type(E), TableDataType::Number(NumberDataType::Float64)),
        (Dt::DateType(E), TableDataType::Date),
        (Dt::TimestampType(E), TableDataType::Timestamp),
        (Dt::StringType(E), TableDataType::String),
        (Dt::VariantType(E), TableDataType::Variant),
        (Dt::VariantArrayType(E), TableDataType::Variant),
        (Dt::VariantObjectType(E), TableDataType::Variant),
        (Dt::IntervalType(E), TableDataType::Null),
    ];
    for (dt, want) in cases {
        assert_eq!(TableDataType::from_pb(legacy(dt)).unwrap(), want);
    }
}

#[test]
fn test_legacy_nested_types() {
    let p = legacy(Dt::NullableType(Box::new(NullableType {
        ver: 23,
        min_reader_ver: 1,
        inner: Some(Box::new(legacy(Dt::StringType(E)))),
    })));
    assert_eq!(
        TableDataType::from_pb(p).unwrap(),
        TableDataType::Nullable(Box::new(TableDataType::String))
    );

    let p = legacy(Dt::ArrayType(Box::new(Array {
        ver: 23,
        min_reader_ver: 1,
        inner: Some(Box::new(legacy(Dt::Int64Type(E)))),
    })));
    assert_eq!(
        TableDataType::from_pb(p).unwrap(),
        TableDataType::Array(Box::new(TableDataType::Number(NumberDataType::Int64)))
    );

    // Names and types are read as they are, even where their counts differ.
    let p = legacy(Dt::StructType(Struct {
        ver: 23,
        min_reader_ver: 1,
        names: vec!["x".to_string(), "y".to_string(), "z".to_string()],
        types: vec![legacy(Dt::BoolType(E)), new_form(Dt24::StringT(E))],
    }));
    assert_eq!(
        TableDataType::from_pb(p).unwrap(),
        TableDataType::Tuple {
            fields_name: vec!["x".to_string(), "y".to_string(), "z".to_string()],
            fields_type: vec![TableDataType::Boolean, TableDataType::String],
        }
    );
}

#[test]
fn test_legacy_read_then_written_in_new_form() {
    let p = legacy(Dt::VariantArrayType(E));
    let t = TableDataType::from_pb(p).unwrap();
    assert_eq!(t.to_pb().unwrap(), new_form(Dt24::VariantT(E)));
}

#[test]
fn test_type_errors() {
    let p = DataType { ver: 26, min_reader_ver: 24, dt: None, dt24: None };
    assert_eq!(reason(TableDataType::from_pb(p)), "DataType .dt and .dt24 are both None");

    let p = DataType {
        ver: 26,
        min_reader_ver: 24,
        dt: Some(Dt::BoolType(E)),
        dt24: Some(Dt24::BoolT(E)),
    };
    assert_eq!(
        reason(TableDataType::from_pb(p)),
        "Invalid DataType: at most only one of .dt and .dt23 can be Some"
    );

    let p = legacy(Dt::NullableType(Box::new(NullableType { ver: 23, min_reader_ver: 1, inner: None })));
    assert_eq!(reason(TableDataType::from_pb(p)), "NullableType.inner can not be None");

    let p = legacy(Dt::ArrayType(Box::new(Array { ver: 23, min_reader_ver: 1, inner: None })));
    assert_eq!(reason(TableDataType::from_pb(p)), "Array.inner can not be None");

    let p = new_form(Dt24::NumberT(Number { ver: 26, min_reader_ver: 24, num: None }));
    assert_eq!(reason(TableDataType::from_pb(p)), "Invalid Number: .num can not be None");

    // The version check comes before anything else in the message.
    let p = DataType { ver: 26, min_reader_ver: 27, dt: None, dt24: None };
    assert_eq!(
        reason(TableDataType::from_pb(p)),
        "executable ver=26 is smaller than the min reader version(27) that can read this message"
    );
    let p = DataType { ver: 0, min_reader_ver: 0, dt: Some(Dt::BoolType(E)), dt24: None };
    assert_eq!(
        reason(TableDataType::from_pb(p)),
        "message ver=0 is smaller than executable MIN_MSG_VER(1) that this program can read"
    );
}

#[test]
fn test_nested_version_errors() {
    // A nested message that asks for a newer reader is refused too.
    let inner = DataType { ver: 30, min_reader_ver: 28, dt: None, dt24: Some(Dt24::BoolT(E)) };
    let p = new_form(Dt24::NullableT(Box::new(inner)));
    assert_eq!(
        reason(TableDataType::from_pb(p)),
        "executable ver=26 is smaller than the min reader version(28) that can read this message"
    );

    let p = new_form(Dt24::TupleT(Tuple {
        ver: 26,
        min_reader_ver: 40,
        field_names: vec![],
        field_types: vec![],
    }));
    assert_eq!(
        reason(TableDataType::from_pb(p)),
        "executable ver=26 is smaller than the min reader version(40) that can read this message"
    );

    let p = legacy(Dt::StructType(Struct { ver: 0, min_reader_ver: 0, names: vec![], types: vec![] }));
    assert_eq!(
        reason(TableDataType::from_pb(p)),
        "message ver=0 is smaller than executable MIN_MSG_VER(1) that this program can read"
    );
}

#[test]
fn test_first_failing_tuple_member_decides() {
    let p = new_form(Dt24::TupleT(Tuple {
        ver: 26,
        min_reader_ver: 24,
        field_names: vec!["a".to_string(), "b".to_string(), "c".to_string()],
        field_types: vec![
            new_form(Dt24::BoolT(E)),
            DataType { ver: 26, min_reader_ver: 24, dt: None, dt24: None },
            new_form(Dt24::NumberT(Number { ver: 26, min_reader_ver: 24, num: None })),
        ],
    }));
    assert_eq!(reason(TableDataType::from_pb(p)), "DataType .dt and .dt24 are both None");
}

#[test]
fn test_field_roundtrip() {
    let f = TableField::new("price", TableDataType::Number(NumberDataType::Float64))
        .with_default_expr(Some("0.0".to_string()));
    let p = f.to_pb().unwrap();
    assert_eq!(p.ver, VER);
    assert_eq!(p.min_reader_ver, MIN_READER_VER);
    assert_eq!(p.name, "price");
    assert_eq!(p.default_expr, Some("0.0".to_string()));
    assert_eq!(TableField::get_pb_ver(&p), VER);
    let g = TableField::from_pb(p).unwrap();
    assert_eq!(g.name(), "price");
    assert_eq!(g.default_expr(), Some(&"0.0".to_string()));
    assert_eq!(g.data_type(), &TableDataType::Number(NumberDataType::Float64));
    assert_eq!(f, g);
}

#[test]
fn test_field_errors() {
    let p = DataField {
        ver: 26,
        min_reader_ver: 24,
        name: "a".to_string(),
        default_expr: None,
        data_type: None,
    };
    assert_eq!(TableField::from_pb(p).unwrap_err().reason, "DataField.data_type can not be None");

    let p = DataField {
        ver: 26,
        min_reader_ver: 25,
        name: "a".to_string(),
        default_expr: None,
        data_type: Some(new_form(Dt24::BoolT(E))),
    };
    assert!(TableField::from_pb(p).is_ok());

    let p = DataField {
        ver: 26,
        min_reader_ver: 27,
        name: "a".to_string(),
        default_expr: None,
        data_type: None,
    };
    assert_eq!(
        TableField::from_pb(p).unwrap_err().reason,
        "executable ver=26 is smaller than the min reader version(27) that can read this message"
    );
}

fn sample_schema() -> TableSchema {
    let mut metadata = BTreeMap::new();
    metadata.insert("engine".to_string(), "fuse".to_string());
    let mut column_id_map = BTreeMap::new();
    column_id_map.insert("id".to_string(), 0);
    column_id_map.insert("tags".to_string(), 1);
    TableSchema::new_from_column_id_map(
        vec![
            TableField::new("id", TableDataType::Number(NumberDataType::UInt64)),
            TableField::new("tags", TableDataType::Array(Box::new(TableDataType::String)))
                .with_default_expr(Some("[]".to_string())),
        ],
        metadata,
        column_id_map,
        2,
    )
}

#[test]
fn test_schema_roundtrip() {
    let s = sample_schema();
    let p = s.to_pb().unwrap();
    assert_eq!(p.ver, VER);
    assert_eq!(p.min_reader_ver, MIN_READER_VER);
    assert_eq!(p.fields.len(), 2);
    assert_eq!(p.metadata.get("engine"), Some(&"fuse".to_string()));
    assert_eq!(p.next_column_id, 2);
    assert_eq!(TableSchema::get_pb_ver(&p), VER);
    let back = TableSchema::from_pb(p).unwrap();
    assert_eq!(back, sample_schema());
    assert_eq!(back.fields().len(), 2);
    assert_eq!(back.meta().len(), 1);
    assert_eq!(back.column_id_map().get("tags"), Some(&1));
    assert_eq!(back.next_column_id(), 2);
}

#[test]
fn test_schema_errors() {
    let bad = |name: &str, min_reader_ver: u64| DataField {
        ver: 26,
        min_reader_ver,
        name: name.to_string(),
        default_expr: None,
        data_type: None,
    };
    let p = DataSchema {
        ver: 26,
        min_reader_ver: 24,
        fields: vec![bad("a", 30), bad("b", 24)],
        metadata: BTreeMap::new(),
        column_id_map: BTreeMap::new(),
        next_column_id: 0,
    };
    assert_eq!(
        TableSchema::from_pb(p).unwrap_err().reason,
        "executable ver=26 is smaller than the min reader version(30) that can read this message"
    );

    let p = DataSchema {
        ver: 26,
        min_reader_ver: 24,
        fields: vec![bad("b", 24), bad("a", 30)],
        metadata: BTreeMap::new(),
        column_id_map: BTreeMap::new(),
        next_column_id: 0,
    };
    assert_eq!(TableSchema::from_pb(p).unwrap_err().reason, "DataField.data_type can not be None");

    let p = DataSchema {
        ver: 0,
        min_reader_ver: 0,
        fields: vec![],
        metadata: BTreeMap::new(),
        column_id_map: BTreeMap::new(),
        next_column_id: 0,
    };
    assert_eq!(
        TableSchema::from_pb(p).unwrap_err().reason,
        "message ver=0 is smaller than executable MIN_MSG_VER(1) that this program can read"
    );
}

#[test]
fn test_empty_schema() {
    let s = TableSchema::new_from_column_id_map(vec![], BTreeMap::new(), BTreeMap::new(), 0);
    let p = s.to_pb().unwrap();
    assert!(p.fields.is_empty());
    let back = TableSchema::from_pb(p).unwrap();
    assert_eq!(back, s);
}

#[test]
fn test_distinct_types_written_differently() {
    let all = sample_types();
    for (i, a) in all.iter().enumerate() {
        for (j, b) in sample_types().iter().enumerate() {
            assert_eq!(i == j, a.to_pb().unwrap() == b.to_pb().unwrap());
        }
    }
    let x = TableDataType::Array(Box::new(TableDataType::Boolean)).to_pb().unwrap();
    let y = TableDataType::MapType(Box::new(TableDataType::Boolean)).to_pb().unwrap();
    assert_ne!(x, y);
}

#[test]
fn test_reread_is_stable() {
    let p = legacy(Dt::StructType(Struct {
        ver: 5,
        min_reader_ver: 1,
        names: vec!["n".to_string()],
        types: vec![legacy(Dt::VariantObjectType(E))],
    }));
    let first = TableDataType::from_pb(p).unwrap();
    let again = TableDataType::from_pb(first.to_pb().unwrap()).unwrap();
    assert_eq!(first, again);
}
