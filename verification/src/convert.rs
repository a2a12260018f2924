//! Conversion between the in-memory schema types and their protobuf
//! messages.
//!
//! Every message is written in the new (`dt24`) form with version `VER`.
//! Reading accepts both forms, checks the versions of every message it meets,
//! and fails with `Incompatible` where a message cannot be read.

use vstd::prelude::*;
use vstd::string::*;

use crate::compat::{reader_check, reader_check_msg, Incompatible, MIN_READER_VER, VER};
use crate::pb::{
    dt24_view, dt_view, pb_fields_view, pb_type_view, pb_types_view, DataField, DataSchema, DataType, Dt, Dt24, Empty, Num, Number,
    SpecDataField, SpecDataSchema, SpecDataType, SpecDt, SpecDt24, Tuple,
};
use crate::schema::{
    fields_view, strings_view, table_type_view, table_types_view, NumberDataType, SpecTableDataType,
    SpecTableField, SpecTableSchema, TableDataType, TableField, TableSchema,
};

verus! {

// ---------------------------------------------------------------------------
// What reading and writing compute, as functions on values.
// ---------------------------------------------------------------------------

/// The reason given for a column type message with neither form set.
pub open spec fn both_none_reason() -> Seq<char> {
    "DataType .dt and .dt24 are both None"@
}

/// The reason given for a column type message with both forms set.
pub open spec fn both_some_reason() -> Seq<char> {
    "Invalid DataType: at most only one of .dt and .dt23 can be Some"@
}

/// The reason given for an old-form nullable type without its inner type.
pub open spec fn nullable_inner_none_reason() -> Seq<char> {
    "NullableType.inner can not be None"@
}

/// The reason given for an old-form array type without its inner type.
pub open spec fn array_inner_none_reason() -> Seq<char> {
    "Array.inner can not be None"@
}

/// The reason given for a number message without its kind.
pub open spec fn num_none_reason() -> Seq<char> {
    "Invalid Number: .num can not be None"@
}

/// The reason given for a field message without its type.
pub open spec fn field_type_none_reason() -> Seq<char> {
    "DataField.data_type can not be None"@
}

/// The kind of number message for each numeric type.
pub open spec fn number_to_num(n: NumberDataType) -> Num {
    match n {
        NumberDataType::UInt8 => Num::Uint8Type(Empty {}),
        NumberDataType::UInt16 => Num::Uint16Type(Empty {}),
        NumberDataType::UInt32 => Num::Uint32Type(Empty {}),
        NumberDataType::UInt64 => Num::Uint64Type(Empty {}),
        NumberDataType::Int8 => Num::Int8Type(Empty {}),
        NumberDataType::Int16 => Num::Int16Type(Empty {}),
        NumberDataType::Int32 => Num::Int32Type(Empty {}),
        NumberDataType::Int64 => Num::Int64Type(Empty {}),
        NumberDataType::Float32 => Num::Float32Type(Empty {}),
        NumberDataType::Float64 => Num::Float64Type(Empty {}),
    }
}

/// The numeric type for each kind of number message.
pub open spec fn num_to_number(x: Num) -> NumberDataType {
    match x {
        Num::Uint8Type(_) => NumberDataType::UInt8,
        Num::Uint16Type(_) => NumberDataType::UInt16,
        Num::Uint32Type(_) => NumberDataType::UInt32,
        Num::Uint64Type(_) => NumberDataType::UInt64,
        Num::Int8Type(_) => NumberDataType::Int8,
        Num::Int16Type(_) => NumberDataType::Int16,
        Num::Int32Type(_) => NumberDataType::Int32,
        Num::Int64Type(_) => NumberDataType::Int64,
        Num::Float32Type(_) => NumberDataType::Float32,
        Num::Float64Type(_) => NumberDataType::Float64,
    }
}

/// The message written for a numeric type.
pub open spec fn number_to_pb(n: NumberDataType) -> Number {
    Number { ver: VER, min_reader_ver: MIN_READER_VER, num: Some(number_to_num(n)) }
}

/// The numeric type read from a number message, or why it cannot be read.
pub open spec fn number_from_pb(p: Number) -> Result<NumberDataType, Seq<char>> {
    match reader_check(p.ver, p.min_reader_ver) {
        Err(e) => Err(e),
        Ok(_) => match p.num {
            None => Err(num_none_reason()),
            Some(x) => Ok(num_to_number(x)),
        },
    }
}

/// A column type message in the new form, with the current versions.
pub open spec fn dt24_message(d: SpecDt24) -> SpecDataType {
    SpecDataType { ver: VER, min_reader_ver: MIN_READER_VER, dt: None, dt24: Some(d) }
}

/// The message written for a column type.
pub open spec fn type_to_pb(t: SpecTableDataType) -> SpecDataType
    decreases t,
{
    dt24_message(
        match t {
            SpecTableDataType::Null => SpecDt24::NullT,
            SpecTableDataType::EmptyArray => SpecDt24::EmptyArrayT,
            SpecTableDataType::Boolean => SpecDt24::BoolT,
            SpecTableDataType::String => SpecDt24::StringT,
            SpecTableDataType::Number(n) => SpecDt24::NumberT(number_to_pb(n)),
            SpecTableDataType::Timestamp => SpecDt24::TimestampT,
            SpecTableDataType::Date => SpecDt24::DateT,
            SpecTableDataType::Nullable(v) => SpecDt24::NullableT(Box::new(type_to_pb(*v))),
            SpecTableDataType::Array(v) => SpecDt24::ArrayT(Box::new(type_to_pb(*v))),
            SpecTableDataType::MapType(v) => SpecDt24::MapT(Box::new(type_to_pb(*v))),
            SpecTableDataType::Tuple { fields_name, fields_type } => SpecDt24::TupleT {
                ver: VER,
                min_reader_ver: MIN_READER_VER,
                field_names: fields_name,
                field_types: types_to_pb(fields_type),
            },
            SpecTableDataType::Variant => SpecDt24::VariantT,
        },
    )
}

/// The messages written for a sequence of column types, element by element.
pub open spec fn types_to_pb(s: Seq<SpecTableDataType>) -> Seq<SpecDataType>
    decreases s,
{
    if s.len() == 0 {
        Seq::empty()
    } else {
        types_to_pb(s.drop_last()).push(type_to_pb(s.last()))
    }
}

/// The column type read from a column type message, or why it cannot be read.
pub open spec fn type_from_pb(p: SpecDataType) -> Result<SpecTableDataType, Seq<char>>
    decreases p,
{
    match reader_check(p.ver, p.min_reader_ver) {
        Err(e) => Err(e),
        Ok(_) => match p.dt {
            None => match p.dt24 {
                None => Err(both_none_reason()),
                Some(d) => dt24_from_pb(d),
            },
            Some(d) => match p.dt24 {
                None => dt_from_pb(d),
                Some(_) => Err(both_some_reason()),
            },
        },
    }
}

/// The column type read from the old form.
pub open spec fn dt_from_pb(d: SpecDt) -> Result<SpecTableDataType, Seq<char>>
    decreases d,
{
    match d {
        SpecDt::NullType => Ok(SpecTableDataType::Null),
        SpecDt::NullableType { ver, min_reader_ver, inner } => match reader_check(
            ver,
            min_reader_ver,
        ) {
            Err(e) => Err(e),
            Ok(_) => match inner {
                None => Err(nullable_inner_none_reason()),
                Some(b) => match type_from_pb(*b) {
                    Err(e) => Err(e),
                    Ok(t) => Ok(SpecTableDataType::Nullable(Box::new(t))),
                },
            },
        },
        SpecDt::BoolType => Ok(SpecTableDataType::Boolean),
        SpecDt::Int8Type => Ok(SpecTableDataType::Number(NumberDataType::Int8)),
        SpecDt::Int16Type => Ok(SpecTableDataType::Number(NumberDataType::Int16)),
        SpecDt::Int32Type => Ok(SpecTableDataType::Number(NumberDataType::Int32)),
        SpecDt::Int64Type => Ok(SpecTableDataType::Number(NumberDataType::Int64)),
        SpecDt::Uint8Type => Ok(SpecTableDataType::Number(NumberDataType::UInt8)),
        SpecDt::Uint16Type => Ok(SpecTableDataType::Number(NumberDataType::UInt16)),
        SpecDt::Uint32Type => Ok(SpecTableDataType::Number(NumberDataType::UInt32)),
        SpecDt::Uint64Type => Ok(SpecTableDataType::Number(NumberDataType::UInt64)),
        SpecDt::Float32Type => Ok(SpecTableDataType::Number(NumberDataType::Float32)),
        SpecDt::Float64Type => Ok(SpecTableDataType::Number(NumberDataType::Float64)),
        SpecDt::DateType => Ok(SpecTableDataType::Date),
        SpecDt::TimestampType => Ok(SpecTableDataType::Timestamp),
        SpecDt::StringType => Ok(SpecTableDataType::String),
        SpecDt::StructType { ver, min_reader_ver, names, types } => match reader_check(
            ver,
            min_reader_ver,
        ) {
            Err(e) => Err(e),
            Ok(_) => match types_from_pb(types) {
                Err(e) => Err(e),
                Ok(ts) => Ok(SpecTableDataType::Tuple { fields_name: names, fields_type: ts }),
            },
        },
        SpecDt::ArrayType { ver, min_reader_ver, inner } => match reader_check(
            ver,
            min_reader_ver,
        ) {
            Err(e) => Err(e),
            Ok(_) => match inner {
                None => Err(array_inner_none_reason()),
                Some(b) => match type_from_pb(*b) {
                    Err(e) => Err(e),
                    Ok(t) => Ok(SpecTableDataType::Array(Box::new(t))),
                },
            },
        },
        SpecDt::VariantType => Ok(SpecTableDataType::Variant),
        SpecDt::VariantArrayType => Ok(SpecTableDataType::Variant),
        SpecDt::VariantObjectType => Ok(SpecTableDataType::Variant),
        // No interval type is ever stored; any type will do.
        SpecDt::IntervalType => Ok(SpecTableDataType::Null),
    }
}

/// The column type read from the new form.
pub open spec fn dt24_from_pb(d: SpecDt24) -> Result<SpecTableDataType, Seq<char>>
    decreases d,
{
    match d {
        SpecDt24::NullT => Ok(SpecTableDataType::Null),
        SpecDt24::EmptyArrayT => Ok(SpecTableDataType::EmptyArray),
        SpecDt24::BoolT => Ok(SpecTableDataType::Boolean),
        SpecDt24::StringT => Ok(SpecTableDataType::String),
        SpecDt24::NumberT(n) => match number_from_pb(n) {
            Err(e) => Err(e),
            Ok(x) => Ok(SpecTableDataType::Number(x)),
        },
        SpecDt24::TimestampT => Ok(SpecTableDataType::Timestamp),
        SpecDt24::DateT => Ok(SpecTableDataType::Date),
        SpecDt24::NullableT(b) => match type_from_pb(*b) {
            Err(e) => Err(e),
            Ok(t) => Ok(SpecTableDataType::Nullable(Box::new(t))),
        },
        SpecDt24::ArrayT(b) => match type_from_pb(*b) {
            Err(e) => Err(e),
            Ok(t) => Ok(SpecTableDataType::Array(Box::new(t))),
        },
        SpecDt24::MapT(b) => match type_from_pb(*b) {
            Err(e) => Err(e),
            Ok(t) => Ok(SpecTableDataType::MapType(Box::new(t))),
        },
        SpecDt24::TupleT { ver, min_reader_ver, field_names, field_types } => match reader_check(
            ver,
            min_reader_ver,
        ) {
            Err(e) => Err(e),
            Ok(_) => match types_from_pb(field_types) {
                Err(e) => Err(e),
                Ok(ts) => Ok(SpecTableDataType::Tuple { fields_name: field_names, fields_type: ts }),
            },
        },
        SpecDt24::VariantT => Ok(SpecTableDataType::Variant),
    }
}

/// The column types read from a sequence of messages, in order, or the
/// reason of the first one that cannot be read.
pub open spec fn types_from_pb(s: Seq<SpecDataType>) -> Result<Seq<SpecTableDataType>, Seq<char>>
    decreases s,
{
    if s.len() == 0 {
        Ok(Seq::empty())
    } else {
        match types_from_pb(s.drop_last()) {
            Err(e) => Err(e),
            Ok(front) => match type_from_pb(s.last()) {
                Err(e) => Err(e),
                Ok(t) => Ok(front.push(t)),
            },
        }
    }
}

/// The message written for a field.
pub open spec fn field_to_pb(f: SpecTableField) -> SpecDataField {
    SpecDataField {
        ver: VER,
        min_reader_ver: MIN_READER_VER,
        name: f.name,
        default_expr: f.default_expr,
        data_type: Some(type_to_pb(f.data_type)),
    }
}

/// The field read from a field message, or why it cannot be read.
pub open spec fn field_from_pb(p: SpecDataField) -> Result<SpecTableField, Seq<char>> {
    match reader_check(p.ver, p.min_reader_ver) {
        Err(e) => Err(e),
        Ok(_) => match p.data_type {
            None => Err(field_type_none_reason()),
            Some(d) => match type_from_pb(d) {
                Err(e) => Err(e),
                Ok(t) => Ok(
                    SpecTableField { name: p.name, default_expr: p.default_expr, data_type: t },
                ),
            },
        },
    }
}

/// The fields read from a sequence of field messages, in order, or the reason
/// of the first one that cannot be read.
pub open spec fn fields_from_pb(s: Seq<SpecDataField>) -> Result<Seq<SpecTableField>, Seq<char>>
    decreases s.len(),
{
    if s.len() == 0 {
        Ok(Seq::empty())
    } else {
        match fields_from_pb(s.drop_last()) {
            Err(e) => Err(e),
            Ok(front) => match field_from_pb(s.last()) {
                Err(e) => Err(e),
                Ok(f) => Ok(front.push(f)),
            },
        }
    }
}

/// The message written for a schema.
pub open spec fn schema_to_pb(s: SpecTableSchema) -> SpecDataSchema {
    SpecDataSchema {
        ver: VER,
        min_reader_ver: MIN_READER_VER,
        fields: s.fields.map_values(|f: SpecTableField| field_to_pb(f)),
        metadata: s.metadata,
        column_id_map: s.column_id_map,
        next_column_id: s.next_column_id,
    }
}

/// The schema read from a schema message, or why it cannot be read.
pub open spec fn schema_from_pb(p: SpecDataSchema) -> Result<SpecTableSchema, Seq<char>> {
    match reader_check(p.ver, p.min_reader_ver) {
        Err(e) => Err(e),
        Ok(_) => match fields_from_pb(p.fields) {
            Err(e) => Err(e),
            Ok(fs) => Ok(
                SpecTableSchema {
                    fields: fs,
                    metadata: p.metadata,
                    column_id_map: p.column_id_map,
                    next_column_id: p.next_column_id,
                },
            ),
        },
    }
}

/// The view of a conversion result, with the error seen as its reason.
pub open spec fn result_view<T: View>(r: Result<T, Incompatible>) -> Result<T::V, Seq<char>> {
    match r {
        Ok(v) => Ok(v@),
        Err(e) => Err(e@),
    }
}


// ---------------------------------------------------------------------------
// Facts about the functions above.
// ---------------------------------------------------------------------------

/// If the column types read from a prefix of `s` already fail, reading all
/// of `s` fails with the same reason.
proof fn lemma_types_from_pb_prefix_err(s: Seq<SpecDataType>, k: int)
    requires
        0 <= k <= s.len(),
        types_from_pb(s.take(k)) is Err,
    ensures
        types_from_pb(s) == types_from_pb(s.take(k)),
    decreases s.len(),
{
    if k == s.len() {
        assert(s.take(k) =~= s);
    } else {
        assert(s.drop_last().take(k) =~= s.take(k));
        lemma_types_from_pb_prefix_err(s.drop_last(), k);
    }
}

/// If the fields read from a prefix of `s` already fail, reading all of `s`
/// fails with the same reason.
proof fn lemma_fields_from_pb_prefix_err(s: Seq<SpecDataField>, k: int)
    requires
        0 <= k <= s.len(),
        fields_from_pb(s.take(k)) is Err,
    ensures
        fields_from_pb(s) == fields_from_pb(s.take(k)),
    decreases s.len(),
{
    if k == s.len() {
        assert(s.take(k) =~= s);
    } else {
        assert(s.drop_last().take(k) =~= s.take(k));
        lemma_fields_from_pb_prefix_err(s.drop_last(), k);
    }
}

/// `types_to_pb` maps each element by `type_to_pb`.
pub proof fn lemma_types_to_pb(s: Seq<SpecTableDataType>)
    ensures
        types_to_pb(s).len() == s.len(),
        forall|i: int| 0 <= i < s.len() ==> #[trigger] types_to_pb(s)[i] == type_to_pb(s[i]),
    decreases s.len(),
{
    if s.len() > 0 {
        lemma_types_to_pb(s.drop_last());
    }
}

// ---------------------------------------------------------------------------
// Reading.
// ---------------------------------------------------------------------------

fn incompatible(reason: &str) -> (e: Incompatible)
    ensures
        e@ == reason@,
{
    Incompatible { reason: String::from_str(reason) }
}

fn clone_strings(v: &Vec<String>) -> (res: Vec<String>)
    ensures
        strings_view(res@) == strings_view(v@),
{
    let mut res: Vec<String> = Vec::new();
    for i in 0..v.len()
        invariant
            res@.len() == i,
            forall|j: int| 0 <= j < i ==> #[trigger] res@[j]@ == v@[j]@,
    {
        res.push(v[i].clone());
    }
    assert(strings_view(res@) =~= strings_view(v@));
    res
}

fn number_from_msg(p: &Number) -> (res: Result<NumberDataType, Incompatible>)
    ensures
        result_view(res) == number_from_pb(*p),
{
    if let Err(e) = reader_check_msg(p.ver, p.min_reader_ver) {
        return Err(e);
    }
    let num = match &p.num {
        None => {
            return Err(incompatible("Invalid Number: .num can not be None"));
        },
        Some(x) => x,
    };
    let x = match num {
        Num::Uint8Type(_) => NumberDataType::UInt8,
        Num::Uint16Type(_) => NumberDataType::UInt16,
        Num::Uint32Type(_) => NumberDataType::UInt32,
        Num::Uint64Type(_) => NumberDataType::UInt64,
        Num::Int8Type(_) => NumberDataType::Int8,
        Num::Int16Type(_) => NumberDataType::Int16,
        Num::Int32Type(_) => NumberDataType::Int32,
        Num::Int64Type(_) => NumberDataType::Int64,
        Num::Float32Type(_) => NumberDataType::Float32,
        Num::Float64Type(_) => NumberDataType::Float64,
    };
    Ok(x)
}

fn type_from_msg(p: &DataType) -> (res: Result<TableDataType, Incompatible>)
    ensures
        result_view(res) == type_from_pb(p@),
    decreases p,
{
    if let Err(e) = reader_check_msg(p.ver, p.min_reader_ver) {
        return Err(e);
    }
    match (&p.dt, &p.dt24) {
        (None, None) => Err(incompatible("DataType .dt and .dt24 are both None")),
        // Written by version 23 or lower.
        (Some(d), None) => dt_from_msg(d),
        // Written by version 24 or higher.
        (None, Some(d)) => dt24_from_msg(d),
        (Some(_), Some(_)) => Err(
            incompatible("Invalid DataType: at most only one of .dt and .dt23 can be Some"),
        ),
    }
}

fn dt_from_msg(d: &Dt) -> (res: Result<TableDataType, Incompatible>)
    ensures
        result_view(res) == dt_from_pb(dt_view(*d)),
    decreases d,
{
    let x = match d {
        Dt::NullType(_) => TableDataType::Null,
        Dt::NullableType(nullable_type) => {
            if let Err(e) = reader_check_msg(nullable_type.ver, nullable_type.min_reader_ver) {
                return Err(e);
            }
            let inner = match &nullable_type.inner {
                None => {
                    return Err(incompatible("NullableType.inner can not be None"));
                },
                Some(inner) => inner,
            };
            match type_from_msg(&**inner) {
                Err(e) => {
                    return Err(e);
                },
                Ok(t) => TableDataType::Nullable(Box::new(t)),
            }
        },
        Dt::BoolType(_) => TableDataType::Boolean,
        Dt::Int8Type(_) => TableDataType::Number(NumberDataType::Int8),
        Dt::Int16Type(_) => TableDataType::Number(NumberDataType::Int16),
        Dt::Int32Type(_) => TableDataType::Number(NumberDataType::Int32),
        Dt::Int64Type(_) => TableDataType::Number(NumberDataType::Int64),
        Dt::Uint8Type(_) => TableDataType::Number(NumberDataType::UInt8),
        Dt::Uint16Type(_) => TableDataType::Number(NumberDataType::UInt16),
        Dt::Uint32Type(_) => TableDataType::Number(NumberDataType::UInt32),
        Dt::Uint64Type(_) => TableDataType::Number(NumberDataType::UInt64),
        Dt::Float32Type(_) => TableDataType::Number(NumberDataType::Float32),
        Dt::Float64Type(_) => TableDataType::Number(NumberDataType::Float64),
        Dt::DateType(_) => TableDataType::Date,
        Dt::TimestampType(_) => TableDataType::Timestamp,
        Dt::StringType(_) => TableDataType::String,
        Dt::StructType(stt) => {
            if let Err(e) = reader_check_msg(stt.ver, stt.min_reader_ver) {
                return Err(e);
            }
            match types_from_msgs(&stt.types) {
                Err(e) => {
                    return Err(e);
                },
                Ok(types) => TableDataType::Tuple {
                    fields_name: clone_strings(&stt.names),
                    fields_type: types,
                },
            }
        },
        Dt::ArrayType(a) => {
            if let Err(e) = reader_check_msg(a.ver, a.min_reader_ver) {
                return Err(e);
            }
            let inner = match &a.inner {
                None => {
                    return Err(incompatible("Array.inner can not be None"));
                },
                Some(inner) => inner,
            };
            match type_from_msg(&**inner) {
                Err(e) => {
                    return Err(e);
                },
                Ok(t) => TableDataType::Array(Box::new(t)),
            }
        },
        Dt::VariantType(_) => TableDataType::Variant,
        Dt::VariantArrayType(_) => TableDataType::Variant,
        Dt::VariantObjectType(_) => TableDataType::Variant,
        // No interval type is ever stored, so any type will do here.
        Dt::IntervalType(_) => TableDataType::Null,
    };
    Ok(x)
}

fn dt24_from_msg(d: &Dt24) -> (res: Result<TableDataType, Incompatible>)
    ensures
        result_view(res) == dt24_from_pb(dt24_view(*d)),
    decreases d,
{
    let x = match d {
        Dt24::NullT(_) => TableDataType::Null,
        Dt24::EmptyArrayT(_) => TableDataType::EmptyArray,
        Dt24::BoolT(_) => TableDataType::Boolean,
        Dt24::StringT(_) => TableDataType::String,
        Dt24::NumberT(n) => match number_from_msg(n) {
            Err(e) => {
                return Err(e);
            },
            Ok(x) => TableDataType::Number(x),
        },
        Dt24::TimestampT(_) => TableDataType::Timestamp,
        Dt24::DateT(_) => TableDataType::Date,
        Dt24::NullableT(x) => match type_from_msg(&**x) {
            Err(e) => {
                return Err(e);
            },
            Ok(t) => TableDataType::Nullable(Box::new(t)),
        },
        Dt24::ArrayT(x) => match type_from_msg(&**x) {
            Err(e) => {
                return Err(e);
            },
            Ok(t) => TableDataType::Array(Box::new(t)),
        },
        Dt24::MapT(x) => match type_from_msg(&**x) {
            Err(e) => {
                return Err(e);
            },
            Ok(t) => TableDataType::MapType(Box::new(t)),
        },
        Dt24::TupleT(t) => {
            if let Err(e) = reader_check_msg(t.ver, t.min_reader_ver) {
                return Err(e);
            }
            match types_from_msgs(&t.field_types) {
                Err(e) => {
                    return Err(e);
                },
                Ok(types) => TableDataType::Tuple {
                    fields_name: clone_strings(&t.field_names),
                    fields_type: types,
                },
            }
        },
        Dt24::VariantT(_) => TableDataType::Variant,
    };
    Ok(x)
}

fn types_from_msgs(v: &Vec<DataType>) -> (res: Result<Vec<TableDataType>, Incompatible>)
    ensures
        match res {
            Ok(out) => types_from_pb(pb_types_view(v@)) == Ok::<_, Seq<char>>(table_types_view(out@)),
            Err(e) => types_from_pb(pb_types_view(v@)) == Err::<Seq<SpecTableDataType>, _>(e@),
        },
    decreases v,
{
    let ghost sv = pb_types_view(v@);
    proof {
        crate::pb::lemma_pb_types_view(v@);
        assert(sv.take(0) =~= Seq::<SpecDataType>::empty());
    }
    let mut out: Vec<TableDataType> = Vec::new();
    let mut i: usize = 0;
    while i < v.len()
        invariant
            0 <= i <= v@.len(),
            sv == pb_types_view(v@),
            sv.len() == v@.len(),
            forall|j: int| 0 <= j < v@.len() ==> #[trigger] sv[j] == pb_type_view(v@[j]),
            types_from_pb(sv.take(i as int)) == Ok::<_, Seq<char>>(table_types_view(out@)),
        decreases v@.len() - i,
    {
        let r = type_from_msg(&v[i]);
        proof {
            assert(sv.take(i + 1).drop_last() =~= sv.take(i as int));
            assert(sv.take(i + 1).last() == sv[i as int]);
        }
        match r {
            Err(e) => {
                proof {
                    lemma_types_from_pb_prefix_err(sv, i + 1);
                }
                return Err(e);
            },
            Ok(t) => {
                let ghost before = out@;
                out.push(t);
                proof {
                    assert(out@.drop_last() =~= before);
                }
            },
        }
        i = i + 1;
    }
    proof {
        assert(sv.take(i as int) =~= sv);
    }
    Ok(out)
}


fn field_from_msg(p: &DataField) -> (res: Result<TableField, Incompatible>)
    ensures
        result_view(res) == field_from_pb(p@),
{
    if let Err(e) = reader_check_msg(p.ver, p.min_reader_ver) {
        return Err(e);
    }
    let d = match &p.data_type {
        None => {
            return Err(incompatible("DataField.data_type can not be None"));
        },
        Some(d) => d,
    };
    let t = match type_from_msg(d) {
        Err(e) => {
            return Err(e);
        },
        Ok(t) => t,
    };
    let default_expr = match &p.default_expr {
        Some(s) => Some(s.clone()),
        None => None,
    };
    let v = TableField::new(p.name.as_str(), t).with_default_expr(default_expr);
    Ok(v)
}

fn fields_from_msgs(v: &Vec<DataField>) -> (res: Result<Vec<TableField>, Incompatible>)
    ensures
        match res {
            Ok(out) => fields_from_pb(pb_fields_view(v@)) == Ok::<_, Seq<char>>(
                fields_view(out@),
            ),
            Err(e) => fields_from_pb(pb_fields_view(v@)) == Err::<Seq<SpecTableField>, _>(e@),
        },
{
    let ghost sv = pb_fields_view(v@);
    proof {
        assert(sv.take(0) =~= Seq::<SpecDataField>::empty());
        assert(fields_view(Seq::<TableField>::empty()) =~= Seq::<SpecTableField>::empty());
    }
    let mut out: Vec<TableField> = Vec::new();
    let mut i: usize = 0;
    while i < v.len()
        invariant
            0 <= i <= v@.len(),
            sv == pb_fields_view(v@),
            fields_from_pb(sv.take(i as int)) == Ok::<_, Seq<char>>(fields_view(out@)),
        decreases v@.len() - i,
    {
        let r = field_from_msg(&v[i]);
        proof {
            assert(sv.take(i + 1).drop_last() =~= sv.take(i as int));
            assert(sv.take(i + 1).last() == sv[i as int]);
        }
        match r {
            Err(e) => {
                proof {
                    lemma_fields_from_pb_prefix_err(sv, i + 1);
                }
                return Err(e);
            },
            Ok(f) => {
                let ghost before = out@;
                out.push(f);
                proof {
                    assert(fields_view(out@) =~= fields_view(before).push(f@));
                }
            },
        }
        i = i + 1;
    }
    proof {
        assert(sv.take(i as int) =~= sv);
    }
    Ok(out)
}

// ---------------------------------------------------------------------------
// Writing.
// ---------------------------------------------------------------------------

/// A column type message in the new form, with the current versions.
fn new_pb_dt24(dt24: Dt24) -> (res: DataType)
    ensures
        res@ == dt24_message(dt24@),
{
    DataType { ver: VER, min_reader_ver: MIN_READER_VER, dt: None, dt24: Some(dt24) }
}

fn number_to_msg(n: NumberDataType) -> (res: Number)
    ensures
        res == number_to_pb(n),
{
    let x = match n {
        NumberDataType::UInt8 => Num::Uint8Type(Empty {}),
        NumberDataType::UInt16 => Num::Uint16Type(Empty {}),
        NumberDataType::UInt32 => Num::Uint32Type(Empty {}),
        NumberDataType::UInt64 => Num::Uint64Type(Empty {}),
        NumberDataType::Int8 => Num::Int8Type(Empty {}),
        NumberDataType::Int16 => Num::Int16Type(Empty {}),
        NumberDataType::Int32 => Num::Int32Type(Empty {}),
        NumberDataType::Int64 => Num::Int64Type(Empty {}),
        NumberDataType::Float32 => Num::Float32Type(Empty {}),
        NumberDataType::Float64 => Num::Float64Type(Empty {}),
    };
    Number { ver: VER, min_reader_ver: MIN_READER_VER, num: Some(x) }
}

fn type_to_msg(t: &TableDataType) -> (res: DataType)
    ensures
        res@ == type_to_pb(t@),
    decreases t,
{
    match t {
        TableDataType::Null => new_pb_dt24(Dt24::NullT(Empty {})),
        TableDataType::EmptyArray => new_pb_dt24(Dt24::EmptyArrayT(Empty {})),
        TableDataType::Boolean => new_pb_dt24(Dt24::BoolT(Empty {})),
        TableDataType::String => new_pb_dt24(Dt24::StringT(Empty {})),
        TableDataType::Number(n) => {
            let x = number_to_msg(*n);
            new_pb_dt24(Dt24::NumberT(x))
        },
        TableDataType::Timestamp => new_pb_dt24(Dt24::TimestampT(Empty {})),
        TableDataType::Date => new_pb_dt24(Dt24::DateT(Empty {})),
        TableDataType::Nullable(v) => {
            let x = type_to_msg(&**v);
            new_pb_dt24(Dt24::NullableT(Box::new(x)))
        },
        TableDataType::Array(v) => {
            let x = type_to_msg(&**v);
            new_pb_dt24(Dt24::ArrayT(Box::new(x)))
        },
        TableDataType::MapType(v) => {
            let x = type_to_msg(&**v);
            new_pb_dt24(Dt24::MapT(Box::new(x)))
        },
        TableDataType::Tuple { fields_name, fields_type } => {
            let types = types_to_msgs(fields_type);
            let x = Tuple {
                ver: VER,
                min_reader_ver: MIN_READER_VER,
                field_names: clone_strings(fields_name),
                field_types: types,
            };
            new_pb_dt24(Dt24::TupleT(x))
        },
        TableDataType::Variant => new_pb_dt24(Dt24::VariantT(Empty {})),
    }
}

fn types_to_msgs(v: &Vec<TableDataType>) -> (res: Vec<DataType>)
    ensures
        pb_types_view(res@) == types_to_pb(table_types_view(v@)),
    decreases v,
{
    let mut types: Vec<DataType> = Vec::new();
    let mut i: usize = 0;
    while i < v.len()
        invariant
            0 <= i <= v@.len(),
            types@.len() == i,
            forall|j: int| 0 <= j < i ==> #[trigger] types@[j]@ == type_to_pb(v@[j]@),
        decreases v@.len() - i,
    {
        let p = type_to_msg(&v[i]);
        types.push(p);
        i = i + 1;
    }
    proof {
        crate::pb::lemma_pb_types_view(types@);
        crate::schema::lemma_table_types_view(v@);
        lemma_types_to_pb(table_types_view(v@));
        assert forall|j: int| 0 <= j < v@.len() implies pb_types_view(types@)[j] == types_to_pb(
            table_types_view(v@),
        )[j] by {
            assert(types@[j]@ == type_to_pb(v@[j]@));
        }
        assert(pb_types_view(types@) =~= types_to_pb(table_types_view(v@)));
    }
    types
}

fn field_to_msg(f: &TableField) -> (res: DataField)
    ensures
        res@ == field_to_pb(f@),
{
    let default_expr = match f.default_expr() {
        Some(s) => Some(s.clone()),
        None => None,
    };
    DataField {
        ver: VER,
        min_reader_ver: MIN_READER_VER,
        name: f.name().clone(),
        default_expr,
        data_type: Some(type_to_msg(f.data_type())),
    }
}


fn fields_to_msgs(v: &Vec<TableField>) -> (res: Vec<DataField>)
    ensures
        pb_fields_view(res@) == fields_view(v@).map_values(|f: SpecTableField| field_to_pb(f)),
{
    let mut out: Vec<DataField> = Vec::new();
    for i in 0..v.len()
        invariant
            out@.len() == i,
            forall|j: int| 0 <= j < i ==> #[trigger] out@[j]@ == field_to_pb(v@[j]@),
    {
        out.push(field_to_msg(&v[i]));
    }
    assert(pb_fields_view(out@) =~= fields_view(v@).map_values(|f: SpecTableField| field_to_pb(f)));
    out
}

// ---------------------------------------------------------------------------
// The conversions, one impl per type.
// ---------------------------------------------------------------------------

/// Conversion between a type and the protobuf message that stores it.
pub trait FromToProto: Sized {
    /// The message type.
    type PB;

    /// The version of the code that wrote `p`.
    fn get_pb_ver(p: &Self::PB) -> u64;

    /// Reads a value from its message.
    fn from_pb(p: Self::PB) -> Result<Self, Incompatible>;

    /// Writes a value into a message of the current version.
    fn to_pb(&self) -> Result<Self::PB, Incompatible>;
}

impl FromToProto for TableSchema {
    type PB = DataSchema;

    fn get_pb_ver(p: &DataSchema) -> (res: u64)
        ensures
            res == p.ver,
    {
        p.ver
    }

    fn from_pb(p: DataSchema) -> (res: Result<TableSchema, Incompatible>)
        ensures
            result_view(res) == schema_from_pb(p@),
    {
        if let Err(e) = reader_check_msg(p.ver, p.min_reader_ver) {
            return Err(e);
        }
        let fs = match fields_from_msgs(&p.fields) {
            Err(e) => {
                return Err(e);
            },
            Ok(fs) => fs,
        };
        let v = TableSchema::new_from_column_id_map(
            fs,
            p.metadata,
            p.column_id_map,
            p.next_column_id,
        );
        Ok(v)
    }

    fn to_pb(&self) -> (res: Result<DataSchema, Incompatible>)
        ensures
            res matches Ok(p) && p@ == schema_to_pb(self@),
    {
        let fs = fields_to_msgs(self.fields());
        let p = DataSchema {
            ver: VER,
            min_reader_ver: MIN_READER_VER,
            fields: fs,
            metadata: self.meta().clone(),
            column_id_map: self.column_id_map().clone(),
            next_column_id: self.next_column_id(),
        };
        Ok(p)
    }
}

impl FromToProto for TableField {
    type PB = DataField;

    fn get_pb_ver(p: &DataField) -> (res: u64)
        ensures
            res == p.ver,
    {
        p.ver
    }

    fn from_pb(p: DataField) -> (res: Result<TableField, Incompatible>)
        ensures
            result_view(res) == field_from_pb(p@),
    {
        field_from_msg(&p)
    }

    fn to_pb(&self) -> (res: Result<DataField, Incompatible>)
        ensures
            res matches Ok(p) && p@ == field_to_pb(self@),
    {
        Ok(field_to_msg(self))
    }
}

impl FromToProto for TableDataType {
    type PB = DataType;

    fn get_pb_ver(p: &DataType) -> (res: u64)
        ensures
            res == p.ver,
    {
        p.ver
    }

    fn from_pb(p: DataType) -> (res: Result<TableDataType, Incompatible>)
        ensures
            result_view(res) == type_from_pb(p@),
    {
        type_from_msg(&p)
    }

    fn to_pb(&self) -> (res: Result<DataType, Incompatible>)
        ensures
            res matches Ok(p) && p@ == type_to_pb(self@),
    {
        Ok(type_to_msg(self))
    }
}

impl FromToProto for NumberDataType {
    type PB = Number;

    fn get_pb_ver(p: &Number) -> (res: u64)
        ensures
            res == p.ver,
    {
        p.ver
    }

    fn from_pb(p: Number) -> (res: Result<NumberDataType, Incompatible>)
        ensures
            result_view(res) == number_from_pb(p),
    {
        number_from_msg(&p)
    }

    fn to_pb(&self) -> (res: Result<Number, Incompatible>)
        ensures
            res == Ok::<_, Incompatible>(number_to_pb(*self)),
    {
        Ok(number_to_msg(*self))
    }
}

} // verus!
