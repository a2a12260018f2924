//! The in-memory form of a table schema: column types, fields and schemas,
//! each with the mathematical value that contracts speak of.

use std::collections::BTreeMap;
use vstd::prelude::*;
use vstd::string::*;

verus! {

/// The numeric column types.
#[derive(Clone, Copy, Debug, PartialEq, Eq)]
pub enum NumberDataType {
    UInt8,
    UInt16,
    UInt32,
    UInt64,
    Int8,
    Int16,
    Int32,
    Int64,
    Float32,
    Float64,
}

/// The type of a table column.
#[derive(Debug, PartialEq, Eq)]
pub enum TableDataType {
    Null,
    EmptyArray,
    Boolean,
    String,
    Number(NumberDataType),
    Timestamp,
    Date,
    Nullable(Box<TableDataType>),
    Array(Box<TableDataType>),
    MapType(Box<TableDataType>),
    Tuple { fields_name: Vec<String>, fields_type: Vec<TableDataType> },
    Variant,
}

/// The value of a `TableDataType`: names become character sequences and
/// vectors become sequences.
pub enum SpecTableDataType {
    Null,
    EmptyArray,
    Boolean,
    String,
    Number(NumberDataType),
    Timestamp,
    Date,
    Nullable(Box<SpecTableDataType>),
    Array(Box<SpecTableDataType>),
    MapType(Box<SpecTableDataType>),
    Tuple { fields_name: Seq<Seq<char>>, fields_type: Seq<SpecTableDataType> },
    Variant,
}

/// The values of a sequence of strings.
pub open spec fn strings_view(v: Seq<String>) -> Seq<Seq<char>> {
    Seq::new(v.len(), |i: int| v[i]@)
}

/// The value of a column type.
pub open spec fn table_type_view(t: TableDataType) -> SpecTableDataType
    decreases t,
{
    match t {
        TableDataType::Null => SpecTableDataType::Null,
        TableDataType::EmptyArray => SpecTableDataType::EmptyArray,
        TableDataType::Boolean => SpecTableDataType::Boolean,
        TableDataType::String => SpecTableDataType::String,
        TableDataType::Number(n) => SpecTableDataType::Number(n),
        TableDataType::Timestamp => SpecTableDataType::Timestamp,
        TableDataType::Date => SpecTableDataType::Date,
        TableDataType::Nullable(v) => SpecTableDataType::Nullable(Box::new(table_type_view(*v))),
        TableDataType::Array(v) => SpecTableDataType::Array(Box::new(table_type_view(*v))),
        TableDataType::MapType(v) => SpecTableDataType::MapType(Box::new(table_type_view(*v))),
        TableDataType::Tuple { fields_name, fields_type } => SpecTableDataType::Tuple {
            fields_name: strings_view(fields_name@),
            fields_type: table_types_view(fields_type@),
        },
        TableDataType::Variant => SpecTableDataType::Variant,
    }
}

/// The values of a sequence of column types, element by element.
pub open spec fn table_types_view(s: Seq<TableDataType>) -> Seq<SpecTableDataType>
    decreases s,
{
    if s.len() == 0 {
        Seq::empty()
    } else {
        table_types_view(s.drop_last()).push(table_type_view(s.last()))
    }
}

/// `table_types_view` maps each element by `table_type_view`.
pub proof fn lemma_table_types_view(s: Seq<TableDataType>)
    ensures
        table_types_view(s).len() == s.len(),
        forall|i: int| 0 <= i < s.len() ==> #[trigger] table_types_view(s)[i] == table_type_view(s[i]),
    decreases s.len(),
{
    if s.len() > 0 {
        lemma_table_types_view(s.drop_last());
    }
}

impl View for NumberDataType {
    type V = NumberDataType;

    open spec fn view(&self) -> NumberDataType {
        *self
    }
}

impl View for TableDataType {
    type V = SpecTableDataType;

    open spec fn view(&self) -> SpecTableDataType {
        table_type_view(*self)
    }
}

/// A column of a table: its name, its type, and the expression that gives
/// its value where a row leaves it out.
#[derive(Debug, PartialEq, Eq)]
pub struct TableField {
    name: String,
    default_expr: Option<String>,
    data_type: TableDataType,
}

/// The value of a `TableField`.
pub struct SpecTableField {
    pub name: Seq<char>,
    pub default_expr: Option<Seq<char>>,
    pub data_type: SpecTableDataType,
}

/// The value of an optional string.
pub open spec fn opt_string_view(s: Option<String>) -> Option<Seq<char>> {
    match s {
        Some(s) => Some(s@),
        None => None,
    }
}

impl View for TableField {
    type V = SpecTableField;

    closed spec fn view(&self) -> SpecTableField {
        SpecTableField {
            name: self.name@,
            default_expr: opt_string_view(self.default_expr),
            data_type: self.data_type@,
        }
    }
}

impl TableField {
    /// A field named `name` of type `data_type`, without a default expression.
    pub fn new(name: &str, data_type: TableDataType) -> (res: TableField)
        ensures
            res@ == (SpecTableField { name: name@, default_expr: None, data_type: data_type@ }),
    {
        TableField { name: String::from_str(name), default_expr: None, data_type }
    }

    /// The same field with `default_expr` as its default expression.
    pub fn with_default_expr(self, default_expr: Option<String>) -> (res: TableField)
        ensures
            res@ == (SpecTableField { default_expr: opt_string_view(default_expr), ..self@ }),
    {
        TableField { default_expr, ..self }
    }

    pub fn name(&self) -> (res: &String)
        ensures
            res@ == self@.name,
    {
        &self.name
    }

    pub fn default_expr(&self) -> (res: Option<&String>)
        ensures
            res matches Some(s) ==> self@.default_expr == Some(s@),
            res is None ==> self@.default_expr is None,
    {
        match &self.default_expr {
            Some(s) => Some(s),
            None => None,
        }
    }

    pub fn data_type(&self) -> (res: &TableDataType)
        ensures
            res@ == self@.data_type,
    {
        &self.data_type
    }
}

/// A table schema: its fields in order, free-form metadata, the column id
/// of each (nested) column name, and the next column id to hand out.
#[derive(Debug, PartialEq, Eq)]
pub struct TableSchema {
    fields: Vec<TableField>,
    metadata: BTreeMap<String, String>,
    column_id_map: BTreeMap<String, u32>,
    next_column_id: u32,
}

/// The value of a `TableSchema`.
pub struct SpecTableSchema {
    pub fields: Seq<SpecTableField>,
    pub metadata: Map<String, String>,
    pub column_id_map: Map<String, u32>,
    pub next_column_id: u32,
}

/// The values of a sequence of fields.
pub open spec fn fields_view(v: Seq<TableField>) -> Seq<SpecTableField> {
    Seq::new(v.len(), |i: int| v[i]@)
}

impl View for TableSchema {
    type V = SpecTableSchema;

    closed spec fn view(&self) -> SpecTableSchema {
        SpecTableSchema {
            fields: fields_view(self.fields@),
            metadata: self.metadata@,
            column_id_map: self.column_id_map@,
            next_column_id: self.next_column_id,
        }
    }
}

impl TableSchema {
    /// A schema made of the given parts, as they are.
    pub fn new_from_column_id_map(
        fields: Vec<TableField>,
        metadata: BTreeMap<String, String>,
        column_id_map: BTreeMap<String, u32>,
        next_column_id: u32,
    ) -> (res: TableSchema)
        ensures
            res@ == (SpecTableSchema {
                fields: fields_view(fields@),
                metadata: metadata@,
                column_id_map: column_id_map@,
                next_column_id,
            }),
    {
        TableSchema { fields, metadata, column_id_map, next_column_id }
    }

    pub fn fields(&self) -> (res: &Vec<TableField>)
        ensures
            fields_view(res@) == self@.fields,
    {
        &self.fields
    }

    pub fn meta(&self) -> (res: &BTreeMap<String, String>)
        ensures
            res@ == self@.metadata,
    {
        &self.metadata
    }

    pub fn column_id_map(&self) -> (res: &BTreeMap<String, u32>)
        ensures
            res@ == self@.column_id_map,
    {
        &self.column_id_map
    }

    pub fn next_column_id(&self) -> (res: u32)
        ensures
            res == self@.next_column_id,
    {
        self.next_column_id
    }
}

} // verus!
