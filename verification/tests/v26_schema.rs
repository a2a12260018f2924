use std::collections::BTreeMap;

use lib::convert::FromToProto;
use lib::pb;
use lib::schema::{NumberDataType, TableDataType, TableField, TableSchema};

// A reader of the protobuf wire format, just enough for the messages below.

enum Value<'a> {
    Varint(u64),
    Bytes(&'a [u8]),
}

fn read_varint(buf: &[u8], pos: &mut usize) -> u64 {
    let mut v: u64 = 0;
    let mut shift = 0;
    loop {
        let b = buf[*pos];
        *pos += 1;
        v |= ((b & 0x7f) as u64) << shift;
        if b < 0x80 {
            return v;
        }
        shift += 7;
    }
}

fn read_fields(buf: &[u8]) -> Vec<(u64, Value<'_>)> {
    let mut pos = 0;
    let mut out = vec![];
    while pos < buf.len() {
        let key = read_varint(buf, &mut pos);
        let value = match key & 7 {
            0 => Value::Varint(read_varint(buf, &mut pos)),
            2 => {
                let len = read_varint(buf, &mut pos) as usize;
                let v = &buf[pos..pos + len];
                pos += len;
                Value::Bytes(v)
            }
            w => panic!("unexpected wire type {}", w),
        };
        out.push((key >> 3, value));
    }
    out
}

fn varint(v: &Value) -> u64 {
    match v {
        Value::Varint(x) => *x,
        Value::Bytes(_) => panic!("expected a varint"),
    }
}

fn bytes<'a>(v: &Value<'a>) -> &'a [u8] {
    match v {
        Value::Bytes(b) => b,
        Value::Varint(_) => panic!("expected bytes"),
    }
}

fn string(v: &Value) -> String {
    String::from_utf8(bytes(v).to_vec()).unwrap()
}

fn decode_number(buf: &[u8]) -> pb::Number {
    let mut n = pb::Number { ver: 0, min_reader_ver: 0, num: None };
    for (tag, v) in read_fields(buf) {
        let e = pb::Empty {};
        match tag {
            1 => n.num = Some(pb::Num::Uint8Type(e)),
            2 => n.num = Some(pb::Num::Uint16Type(e)),
            3 => n.num = Some(pb::Num::Uint32Type(e)),
            4 => n.num = Some(pb::Num::Uint64Type(e)),
            5 => n.num = Some(pb::Num::Int8Type(e)),
            6 => n.num = Some(pb::Num::Int16Type(e)),
            7 => n.num = Some(pb::Num::Int32Type(e)),
            8 => n.num = Some(pb::Num::Int64Type(e)),
            9 => n.num = Some(pb::Num::Float32Type(e)),
            10 => n.num = Some(pb::Num::Float64Type(e)),
            100 => n.ver = varint(&v),
            101 => n.min_reader_ver = varint(&v),
            t => panic!("unexpected Number field {}", t),
        }
    }
    n
}

fn decode_tuple(buf: &[u8]) -> pb::Tuple {
    let mut t = pb::Tuple { ver: 0, min_reader_ver: 0, field_names: vec![], field_types: vec![] };
    for (tag, v) in read_fields(buf) {
        match tag {
            1 => t.field_names.push(string(&v)),
            2 => t.field_types.push(decode_data_type(bytes(&v))),
            100 => t.ver = varint(&v),
            101 => t.min_reader_ver = varint(&v),
            t => panic!("unexpected Tuple field {}", t),
        }
    }
    t
}

fn decode_data_type(buf: &[u8]) -> pb::DataType {
    let mut d = pb::DataType { ver: 0, min_reader_ver: 0, dt: None, dt24: None };
    for (tag, v) in read_fields(buf) {
        match tag {
            33 => d.dt24 = Some(pb::Dt24::BoolT(pb::Empty {})),
            34 => d.dt24 = Some(pb::Dt24::StringT(pb::Empty {})),
            35 => d.dt24 = Some(pb::Dt24::NumberT(decode_number(bytes(&v)))),
            41 => d.dt24 = Some(pb::Dt24::TupleT(decode_tuple(bytes(&v)))),
            100 => d.ver = varint(&v),
            101 => d.min_reader_ver = varint(&v),
            t => panic!("unexpected DataType field {}", t),
        }
    }
    d
}

fn decode_data_field(buf: &[u8]) -> pb::DataField {
    let mut f = pb::DataField {
        ver: 0,
        min_reader_ver: 0,
        name: String::new(),
        default_expr: None,
        data_type: None,
    };
    for (tag, v) in read_fields(buf) {
        match tag {
            1 => f.name = string(&v),
            2 => f.default_expr = Some(string(&v)),
            3 => f.data_type = Some(decode_data_type(bytes(&v))),
            100 => f.ver = varint(&v),
            101 => f.min_reader_ver = varint(&v),
            t => panic!("unexpected DataField field {}", t),
        }
    }
    f
}

fn decode_data_schema(buf: &[u8]) -> pb::DataSchema {
    let mut s = pb::DataSchema {
        ver: 0,
        min_reader_ver: 0,
        fields: vec![],
        metadata: BTreeMap::new(),
        column_id_map: BTreeMap::new(),
        next_column_id: 0,
    };
    for (tag, v) in read_fields(buf) {
        match tag {
            1 => s.fields.push(decode_data_field(bytes(&v))),
            2 | 4 => {
                let mut key = String::new();
                let mut value: Option<&Value> = None;
                let entry = read_fields(bytes(&v));
                for (t, x) in entry.iter() {
                    match t {
                        1 => key = string(x),
                        2 => value = Some(x),
                        t => panic!("unexpected map entry field {}", t),
                    }
                }
                if tag == 2 {
                    s.metadata.insert(key, value.map(string).unwrap_or_default());
                } else {
                    s.column_id_map.insert(key, value.map(varint).unwrap_or(0) as u32);
                }
            }
            3 => s.next_column_id = varint(&v) as u32,
            100 => s.ver = varint(&v),
            101 => s.min_reader_ver = varint(&v),
            t => panic!("unexpected DataSchema field {}", t),
        }
    }
    s
}

fn want_schema() -> TableSchema {
    let b1 = || TableDataType::Tuple {
        fields_name: vec!["b11".to_string(), "b12".to_string()],
        fields_type: vec![TableDataType::Boolean, TableDataType::String],
    };
    let b = TableDataType::Tuple {
        fields_name: vec!["b1".to_string(), "b2".to_string()],
        fields_type: vec![b1(), TableDataType::Number(NumberDataType::Int64)],
    };
    let fields = vec![
        TableField::new("a", TableDataType::Number(NumberDataType::UInt64)),
        TableField::new("b", b),
        TableField::new("c", TableDataType::Number(NumberDataType::UInt64)),
    ];
    let mut column_id_map = BTreeMap::new();
    for (name, id) in [
        ("a", 0),
        ("b", 1),
        ("b:b1", 1),
        ("b:b1:b11", 1),
        ("b:b1:b12", 2),
        ("b:b2", 3),
        ("c", 4),
    ] {
        column_id_map.insert(name.to_string(), id);
    }
    TableSchema::new_from_column_id_map(fields, BTreeMap::new(), column_id_map, 5)
}

#[test]
fn test_decode_v26_schema() {
    let schema_v26 = [
        10, 28, 10, 1, 97, 26, 17, 154, 2, 8, 34, 0, 160, 6, 26, 168, 6, 24, 160, 6, 26, 168, 6,
        24, 160, 6, 26, 168, 6, 24, 10, 102, 10, 1, 98, 26, 91, 202, 2, 82, 10, 2, 98, 49, 10, 2,
        98, 50, 18, 47, 202, 2, 38, 10, 3, 98, 49, 49, 10, 3, 98, 49, 50, 18, 9, 138, 2, 0, 160, 6,
        26, 168, 6, 24, 18, 9, 146, 2, 0, 160, 6, 26, 168, 6, 24, 160, 6, 26, 168, 6, 24, 160, 6,
        26, 168, 6, 24, 18, 17, 154, 2, 8, 66, 0, 160, 6, 26, 168, 6, 24, 160, 6, 26, 168, 6, 24,
        160, 6, 26, 168, 6, 24, 160, 6, 26, 168, 6, 24, 160, 6, 26, 168, 6, 24, 10, 28, 10, 1, 99,
        26, 17, 154, 2, 8, 34, 0, 160, 6, 26, 168, 6, 24, 160, 6, 26, 168, 6, 24, 160, 6, 26, 168,
        6, 24, 24, 5, 34, 3, 10, 1, 97, 34, 5, 10, 1, 98, 16, 1, 34, 8, 10, 4, 98, 58, 98, 49, 16,
        1, 34, 12, 10, 8, 98, 58, 98, 49, 58, 98, 49, 49, 16, 1, 34, 12, 10, 8, 98, 58, 98, 49, 58,
        98, 49, 50, 16, 2, 34, 8, 10, 4, 98, 58, 98, 50, 16, 3, 34, 5, 10, 1, 99, 16, 4, 160, 6,
        26, 168, 6, 24,
    ];

    // Load the old message.
    let p = decode_data_schema(schema_v26.as_slice());
    assert_eq!(26, TableSchema::get_pb_ver(&p));
    let got = TableSchema::from_pb(p).unwrap();
    assert_eq!(want_schema(), got);

    // Write and read back the current form.
    let p = want_schema().to_pb().unwrap();
    let got = TableSchema::from_pb(p).unwrap();
    assert_eq!(want_schema(), got);
}
