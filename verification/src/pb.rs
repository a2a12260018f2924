//! The protobuf messages in which schemas are stored, each with the
//! mathematical value that contracts speak of.
//!
//! A column type is stored in one of two forms: `dt`, the form written up to
//! version 23, or `dt24`, the form written from version 24 on.

use std::collections::BTreeMap;
use vstd::prelude::*;

use crate::schema::{opt_string_view, strings_view};

verus! {

/// A message without fields.
#[derive(Debug, Clone, Copy, PartialEq, Eq)]
pub struct Empty {}

/// Which numeric type a `Number` message holds.
#[derive(Debug, Clone, Copy, PartialEq, Eq)]
pub enum Num {
    Uint8Type(Empty),
    Uint16Type(Empty),
    Uint32Type(Empty),
    Uint64Type(Empty),
    Int8Type(Empty),
    Int16Type(Empty),
    Int32Type(Empty),
    Int64Type(Empty),
    Float32Type(Empty),
    Float64Type(Empty),
}

/// A numeric column type.
#[derive(Debug, Clone, Copy, PartialEq, Eq)]
pub struct Number {
    pub ver: u64,
    pub min_reader_ver: u64,
    pub num: Option<Num>,
}

/// A column type, in the old form (`dt`) or the new one (`dt24`).
#[derive(Debug, PartialEq, Eq)]
pub struct DataType {
    pub ver: u64,
    pub min_reader_ver: u64,
    pub dt: Option<Dt>,
    pub dt24: Option<Dt24>,
}

/// The old form of a column type.
#[derive(Debug, PartialEq, Eq)]
pub enum Dt {
    NullType(Empty),
    NullableType(Box<NullableType>),
    BoolType(Empty),
    Int8Type(Empty),
    Int16Type(Empty),
    Int32Type(Empty),
    Int64Type(Empty),
    Uint8Type(Empty),
    Uint16Type(Empty),
    Uint32Type(Empty),
    Uint64Type(Empty),
    Float32Type(Empty),
    Float64Type(Empty),
    DateType(Empty),
    TimestampType(Empty),
    StringType(Empty),
    StructType(Struct),
    ArrayType(Box<Array>),
    VariantType(Empty),
    VariantArrayType(Empty),
    VariantObjectType(Empty),
    IntervalType(Empty),
}

/// The old form of a nullable column type.
#[derive(Debug, PartialEq, Eq)]
pub struct NullableType {
    pub ver: u64,
    pub min_reader_ver: u64,
    pub inner: Option<Box<DataType>>,
}

/// The old form of a tuple column type.
#[derive(Debug, PartialEq, Eq)]
pub struct Struct {
    pub ver: u64,
    pub min_reader_ver: u64,
    pub names: Vec<String>,
    pub types: Vec<DataType>,
}

/// The old form of an array column type.
#[derive(Debug, PartialEq, Eq)]
pub struct Array {
    pub ver: u64,
    pub min_reader_ver: u64,
    pub inner: Option<Box<DataType>>,
}

/// The new form of a column type.
#[derive(Debug, PartialEq, Eq)]
pub enum Dt24 {
    NullT(Empty),
    EmptyArrayT(Empty),
    BoolT(Empty),
    StringT(Empty),
    NumberT(Number),
    TimestampT(Empty),
    DateT(Empty),
    NullableT(Box<DataType>),
    ArrayT(Box<DataType>),
    MapT(Box<DataType>),
    TupleT(Tuple),
    VariantT(Empty),
}

/// The new form of a tuple column type.
#[derive(Debug, PartialEq, Eq)]
pub struct Tuple {
    pub ver: u64,
    pub min_reader_ver: u64,
    pub field_names: Vec<String>,
    pub field_types: Vec<DataType>,
}

/// A column: name, default expression and type.
#[derive(Debug, PartialEq, Eq)]
pub struct DataField {
    pub ver: u64,
    pub min_reader_ver: u64,
    pub name: String,
    pub default_expr: Option<String>,
    pub data_type: Option<DataType>,
}

/// A table schema.
#[derive(Debug, PartialEq, Eq)]
pub struct DataSchema {
    pub ver: u64,
    pub min_reader_ver: u64,
    pub fields: Vec<DataField>,
    pub metadata: BTreeMap<String, String>,
    pub column_id_map: BTreeMap<String, u32>,
    pub next_column_id: u32,
}

/// The value of a `DataType` message.
pub struct SpecDataType {
    pub ver: u64,
    pub min_reader_ver: u64,
    pub dt: Option<SpecDt>,
    pub dt24: Option<SpecDt24>,
}

/// The value of a `Dt`: each variant with the fields of its message.
pub enum SpecDt {
    NullType,
    NullableType { ver: u64, min_reader_ver: u64, inner: Option<Box<SpecDataType>> },
    BoolType,
    Int8Type,
    Int16Type,
    Int32Type,
    Int64Type,
    Uint8Type,
    Uint16Type,
    Uint32Type,
    Uint64Type,
    Float32Type,
    Float64Type,
    DateType,
    TimestampType,
    StringType,
    StructType { ver: u64, min_reader_ver: u64, names: Seq<Seq<char>>, types: Seq<SpecDataType> },
    ArrayType { ver: u64, min_reader_ver: u64, inner: Option<Box<SpecDataType>> },
    VariantType,
    VariantArrayType,
    VariantObjectType,
    IntervalType,
}

/// The value of a `Dt24`: each variant with the fields of its message.
pub enum SpecDt24 {
    NullT,
    EmptyArrayT,
    BoolT,
    StringT,
    NumberT(Number),
    TimestampT,
    DateT,
    NullableT(Box<SpecDataType>),
    ArrayT(Box<SpecDataType>),
    MapT(Box<SpecDataType>),
    TupleT {
        ver: u64,
        min_reader_ver: u64,
        field_names: Seq<Seq<char>>,
        field_types: Seq<SpecDataType>,
    },
    VariantT,
}

/// The value of an optional boxed `DataType`.
pub open spec fn opt_box_view(p: Option<Box<DataType>>) -> Option<Box<SpecDataType>>
    decreases p,
{
    match p {
        Some(b) => Some(Box::new(pb_type_view(*b))),
        None => None,
    }
}

/// The value of a `DataType` message.
pub open spec fn pb_type_view(p: DataType) -> SpecDataType
    decreases p,
{
    SpecDataType {
        ver: p.ver,
        min_reader_ver: p.min_reader_ver,
        dt: match p.dt {
            Some(d) => Some(dt_view(d)),
            None => None,
        },
        dt24: match p.dt24 {
            Some(d) => Some(dt24_view(d)),
            None => None,
        },
    }
}

/// The values of a sequence of `DataType` messages, element by element.
pub open spec fn pb_types_view(s: Seq<DataType>) -> Seq<SpecDataType>
    decreases s,
{
    if s.len() == 0 {
        Seq::empty()
    } else {
        pb_types_view(s.drop_last()).push(pb_type_view(s.last()))
    }
}

/// `pb_types_view` maps each element by `pb_type_view`.
pub proof fn lemma_pb_types_view(s: Seq<DataType>)
    ensures
        pb_types_view(s).len() == s.len(),
        forall|i: int| 0 <= i < s.len() ==> #[trigger] pb_types_view(s)[i] == pb_type_view(s[i]),
    decreases s.len(),
{
    if s.len() > 0 {
        lemma_pb_types_view(s.drop_last());
    }
}

/// The value of a `Dt`.
pub open spec fn dt_view(d: Dt) -> SpecDt
    decreases d,
{
    match d {
        Dt::NullType(_) => SpecDt::NullType,
        Dt::NullableType(n) => SpecDt::NullableType {
            ver: n.ver,
            min_reader_ver: n.min_reader_ver,
            inner: opt_box_view(n.inner),
        },
        Dt::BoolType(_) => SpecDt::BoolType,
        Dt::Int8Type(_) => SpecDt::Int8Type,
        Dt::Int16Type(_) => SpecDt::Int16Type,
        Dt::Int32Type(_) => SpecDt::Int32Type,
        Dt::Int64Type(_) => SpecDt::Int64Type,
        Dt::Uint8Type(_) => SpecDt::Uint8Type,
        Dt::Uint16Type(_) => SpecDt::Uint16Type,
        Dt::Uint32Type(_) => SpecDt::Uint32Type,
        Dt::Uint64Type(_) => SpecDt::Uint64Type,
        Dt::Float32Type(_) => SpecDt::Float32Type,
        Dt::Float64Type(_) => SpecDt::Float64Type,
        Dt::DateType(_) => SpecDt::DateType,
        Dt::TimestampType(_) => SpecDt::TimestampType,
        Dt::StringType(_) => SpecDt::StringType,
        Dt::StructType(s) => SpecDt::StructType {
            ver: s.ver,
            min_reader_ver: s.min_reader_ver,
            names: strings_view(s.names@),
            types: pb_types_view(s.types@),
        },
        Dt::ArrayType(a) => SpecDt::ArrayType {
            ver: a.ver,
            min_reader_ver: a.min_reader_ver,
            inner: opt_box_view(a.inner),
        },
        Dt::VariantType(_) => SpecDt::VariantType,
        Dt::VariantArrayType(_) => SpecDt::VariantArrayType,
        Dt::VariantObjectType(_) => SpecDt::VariantObjectType,
        Dt::IntervalType(_) => SpecDt::IntervalType,
    }
}

/// The value of a `Dt24`.
pub open spec fn dt24_view(d: Dt24) -> SpecDt24
    decreases d,
{
    match d {
        Dt24::NullT(_) => SpecDt24::NullT,
        Dt24::EmptyArrayT(_) => SpecDt24::EmptyArrayT,
        Dt24::BoolT(_) => SpecDt24::BoolT,
        Dt24::StringT(_) => SpecDt24::StringT,
        Dt24::NumberT(n) => SpecDt24::NumberT(n),
        Dt24::TimestampT(_) => SpecDt24::TimestampT,
        Dt24::DateT(_) => SpecDt24::DateT,
        Dt24::NullableT(b) => SpecDt24::NullableT(Box::new(pb_type_view(*b))),
        Dt24::ArrayT(b) => SpecDt24::ArrayT(Box::new(pb_type_view(*b))),
        Dt24::MapT(b) => SpecDt24::MapT(Box::new(pb_type_view(*b))),
        Dt24::TupleT(t) => SpecDt24::TupleT {
            ver: t.ver,
            min_reader_ver: t.min_reader_ver,
            field_names: strings_view(t.field_names@),
            field_types: pb_types_view(t.field_types@),
        },
        Dt24::VariantT(_) => SpecDt24::VariantT,
    }
}

impl View for DataType {
    type V = SpecDataType;

    open spec fn view(&self) -> SpecDataType {
        pb_type_view(*self)
    }
}

impl View for Dt24 {
    type V = SpecDt24;

    open spec fn view(&self) -> SpecDt24 {
        dt24_view(*self)
    }
}

/// The value of a `DataField` message.
pub struct SpecDataField {
    pub ver: u64,
    pub min_reader_ver: u64,
    pub name: Seq<char>,
    pub default_expr: Option<Seq<char>>,
    pub data_type: Option<SpecDataType>,
}

impl View for DataField {
    type V = SpecDataField;

    open spec fn view(&self) -> SpecDataField {
        SpecDataField {
            ver: self.ver,
            min_reader_ver: self.min_reader_ver,
            name: self.name@,
            default_expr: opt_string_view(self.default_expr),
            data_type: match self.data_type {
                Some(d) => Some(d@),
                None => None,
            },
        }
    }
}

/// The value of a `DataSchema` message.
pub struct SpecDataSchema {
    pub ver: u64,
    pub min_reader_ver: u64,
    pub fields: Seq<SpecDataField>,
    pub metadata: Map<String, String>,
    pub column_id_map: Map<String, u32>,
    pub next_column_id: u32,
}

/// The values of a sequence of `DataField` messages.
pub open spec fn pb_fields_view(v: Seq<DataField>) -> Seq<SpecDataField> {
    Seq::new(v.len(), |i: int| v[i]@)
}

impl View for DataSchema {
    type V = SpecDataSchema;

    open spec fn view(&self) -> SpecDataSchema {
        SpecDataSchema {
            ver: self.ver,
            min_reader_ver: self.min_reader_ver,
            fields: pb_fields_view(self.fields@),
            metadata: self.metadata@,
            column_id_map: self.column_id_map@,
            next_column_id: self.next_column_id,
        }
    }
}

} // verus!
