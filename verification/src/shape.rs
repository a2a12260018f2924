//! What each message reads as and what each value is written as, stated in
//! terms of the message's parts and the value's parts, for every version
//! that passes the check.

use vstd::prelude::*;

use crate::compat::{message_too_old_reason, reader_too_old_reason, MIN_MSG_VER, MIN_READER_VER, VER};
use crate::convert::{
    array_inner_none_reason, both_none_reason, both_some_reason, nullable_inner_none_reason, field_from_pb, field_to_pb, field_type_none_reason,
    fields_from_pb, num_none_reason, number_from_pb, number_to_pb, schema_from_pb, schema_to_pb,
    type_from_pb, type_to_pb, types_from_pb, types_to_pb,
};
use crate::pb::{dt24_view, dt_view, pb_type_view, DataType, Dt, Dt24, Empty, Num, Number, SpecDataField, SpecDataSchema, SpecDataType, SpecDt, SpecDt24};
use crate::schema::{strings_view, table_type_view, TableDataType, NumberDataType, SpecTableDataType, SpecTableField, SpecTableSchema};

verus! {

/// Whether a message of version `ver`, readable from reader version
/// `min_reader_ver` on, is one that this program reads.
pub open spec fn passes(ver: u64, min_reader_ver: u64) -> bool {
    MIN_MSG_VER <= ver && min_reader_ver <= VER
}

/// A column type message in the new form.
pub open spec fn new_form(ver: u64, min_reader_ver: u64, d: SpecDt24) -> SpecDataType {
    SpecDataType { ver, min_reader_ver, dt: None, dt24: Some(d) }
}

/// A column type message in the old form.
pub open spec fn old_form(ver: u64, min_reader_ver: u64, d: SpecDt) -> SpecDataType {
    SpecDataType { ver, min_reader_ver, dt: Some(d), dt24: None }
}

// ---------------------------------------------------------------------------
// Sequences: element by element, in order.
// ---------------------------------------------------------------------------

/// Column types read from a sequence of messages that all read: one per
/// message, in order.
pub proof fn law_types_from_pb_all_ok(s: Seq<SpecDataType>)
    requires
        forall|i: int| 0 <= i < s.len() ==> #[trigger] type_from_pb(s[i]) is Ok,
    ensures
        types_from_pb(s) is Ok,
        types_from_pb(s)->Ok_0.len() == s.len(),
        forall|i: int|
            0 <= i < s.len() ==> type_from_pb(s[i]) == Ok::<_, Seq<char>>(
                #[trigger] types_from_pb(s)->Ok_0[i],
            ),
    decreases s.len(),
{
    if s.len() > 0 {
        let f = s.drop_last();
        assert forall|i: int| 0 <= i < f.len() implies #[trigger] type_from_pb(f[i]) is Ok by {
            assert(f[i] == s[i]);
        }
        law_types_from_pb_all_ok(f);
        assert(type_from_pb(s[s.len() - 1]) is Ok);
        assert forall|i: int| 0 <= i < s.len() implies type_from_pb(s[i]) == Ok::<_, Seq<char>>(
            #[trigger] types_from_pb(s)->Ok_0[i],
        ) by {
            if i < s.len() - 1 {
                assert(f[i] == s[i]);
            }
        }
    }
}

/// Reading a sequence of messages fails with the reason of the first message
/// that does not read.
pub proof fn law_types_from_pb_first_err(s: Seq<SpecDataType>, i: int)
    requires
        0 <= i < s.len(),
        forall|j: int| 0 <= j < i ==> #[trigger] type_from_pb(s[j]) is Ok,
        type_from_pb(s[i]) is Err,
    ensures
        types_from_pb(s) == Err::<Seq<SpecTableDataType>, _>(type_from_pb(s[i])->Err_0),
    decreases s.len(),
{
    let f = s.drop_last();
    if i == s.len() - 1 {
        assert forall|j: int| 0 <= j < f.len() implies #[trigger] type_from_pb(f[j]) is Ok by {
            assert(f[j] == s[j]);
            assert(type_from_pb(s[j]) is Ok);
        }
        law_types_from_pb_all_ok(f);
    } else {
        assert forall|j: int| 0 <= j < i implies #[trigger] type_from_pb(f[j]) is Ok by {
            assert(f[j] == s[j]);
            assert(type_from_pb(s[j]) is Ok);
        }
        assert(f[i] == s[i]);
        law_types_from_pb_first_err(f, i);
    }
}

/// Fields read from a sequence of messages that all read: one per message,
/// in order.
pub proof fn law_fields_from_pb_all_ok(s: Seq<SpecDataField>)
    requires
        forall|i: int| 0 <= i < s.len() ==> #[trigger] field_from_pb(s[i]) is Ok,
    ensures
        fields_from_pb(s) is Ok,
        fields_from_pb(s)->Ok_0.len() == s.len(),
        forall|i: int|
            0 <= i < s.len() ==> field_from_pb(s[i]) == Ok::<_, Seq<char>>(
                #[trigger] fields_from_pb(s)->Ok_0[i],
            ),
    decreases s.len(),
{
    if s.len() > 0 {
        let f = s.drop_last();
        assert forall|i: int| 0 <= i < f.len() implies #[trigger] field_from_pb(f[i]) is Ok by {
            assert(f[i] == s[i]);
        }
        law_fields_from_pb_all_ok(f);
        assert(field_from_pb(s[s.len() - 1]) is Ok);
        assert forall|i: int| 0 <= i < s.len() implies field_from_pb(s[i]) == Ok::<_, Seq<char>>(
            #[trigger] fields_from_pb(s)->Ok_0[i],
        ) by {
            if i < s.len() - 1 {
                assert(f[i] == s[i]);
            }
        }
    }
}

/// Reading a sequence of field messages fails with the reason of the first
/// message that does not read.
pub proof fn law_fields_from_pb_first_err(s: Seq<SpecDataField>, i: int)
    requires
        0 <= i < s.len(),
        forall|j: int| 0 <= j < i ==> #[trigger] field_from_pb(s[j]) is Ok,
        field_from_pb(s[i]) is Err,
    ensures
        fields_from_pb(s) == Err::<Seq<SpecTableField>, _>(field_from_pb(s[i])->Err_0),
    decreases s.len(),
{
    let f = s.drop_last();
    if i == s.len() - 1 {
        assert forall|j: int| 0 <= j < f.len() implies #[trigger] field_from_pb(f[j]) is Ok by {
            assert(f[j] == s[j]);
            assert(field_from_pb(s[j]) is Ok);
        }
        law_fields_from_pb_all_ok(f);
    } else {
        assert forall|j: int| 0 <= j < i implies #[trigger] field_from_pb(f[j]) is Ok by {
            assert(f[j] == s[j]);
            assert(field_from_pb(s[j]) is Ok);
        }
        assert(f[i] == s[i]);
        law_fields_from_pb_first_err(f, i);
    }
}


// ---------------------------------------------------------------------------
// Values.
// ---------------------------------------------------------------------------

/// The value of each column type, and of each tag of either form, is the
/// variant of the same name; the value of a sequence of strings is their
/// characters, one per string, in order.
pub proof fn law_views_by_name(e: Empty, v: Seq<String>)
    ensures
        table_type_view(TableDataType::Null) == SpecTableDataType::Null,
        table_type_view(TableDataType::EmptyArray) == SpecTableDataType::EmptyArray,
        table_type_view(TableDataType::Boolean) == SpecTableDataType::Boolean,
        table_type_view(TableDataType::String) == SpecTableDataType::String,
        table_type_view(TableDataType::Timestamp) == SpecTableDataType::Timestamp,
        table_type_view(TableDataType::Date) == SpecTableDataType::Date,
        table_type_view(TableDataType::Variant) == SpecTableDataType::Variant,
        forall|n: NumberDataType| #[trigger] table_type_view(TableDataType::Number(n)) == SpecTableDataType::Number(n),
        dt24_view(Dt24::NullT(e)) == SpecDt24::NullT,
        dt24_view(Dt24::EmptyArrayT(e)) == SpecDt24::EmptyArrayT,
        dt24_view(Dt24::BoolT(e)) == SpecDt24::BoolT,
        dt24_view(Dt24::StringT(e)) == SpecDt24::StringT,
        dt24_view(Dt24::TimestampT(e)) == SpecDt24::TimestampT,
        dt24_view(Dt24::DateT(e)) == SpecDt24::DateT,
        dt24_view(Dt24::VariantT(e)) == SpecDt24::VariantT,
        forall|n: Number| #[trigger] dt24_view(Dt24::NumberT(n)) == SpecDt24::NumberT(n),
        dt_view(Dt::NullType(e)) == SpecDt::NullType,
        dt_view(Dt::BoolType(e)) == SpecDt::BoolType,
        dt_view(Dt::Int8Type(e)) == SpecDt::Int8Type,
        dt_view(Dt::Int16Type(e)) == SpecDt::Int16Type,
        dt_view(Dt::Int32Type(e)) == SpecDt::Int32Type,
        dt_view(Dt::Int64Type(e)) == SpecDt::Int64Type,
        dt_view(Dt::Uint8Type(e)) == SpecDt::Uint8Type,
        dt_view(Dt::Uint16Type(e)) == SpecDt::Uint16Type,
        dt_view(Dt::Uint32Type(e)) == SpecDt::Uint32Type,
        dt_view(Dt::Uint64Type(e)) == SpecDt::Uint64Type,
        dt_view(Dt::Float32Type(e)) == SpecDt::Float32Type,
        dt_view(Dt::Float64Type(e)) == SpecDt::Float64Type,
        dt_view(Dt::DateType(e)) == SpecDt::DateType,
        dt_view(Dt::TimestampType(e)) == SpecDt::TimestampType,
        dt_view(Dt::StringType(e)) == SpecDt::StringType,
        dt_view(Dt::VariantType(e)) == SpecDt::VariantType,
        dt_view(Dt::VariantArrayType(e)) == SpecDt::VariantArrayType,
        dt_view(Dt::VariantObjectType(e)) == SpecDt::VariantObjectType,
        dt_view(Dt::IntervalType(e)) == SpecDt::IntervalType,
        forall|b: Box<TableDataType>| #[trigger] table_type_view(TableDataType::Nullable(b)) == SpecTableDataType::Nullable(Box::new(table_type_view(*b))),
        forall|b: Box<TableDataType>| #[trigger] table_type_view(TableDataType::Array(b)) == SpecTableDataType::Array(Box::new(table_type_view(*b))),
        forall|b: Box<TableDataType>| #[trigger] table_type_view(TableDataType::MapType(b)) == SpecTableDataType::MapType(Box::new(table_type_view(*b))),
        forall|b: Box<DataType>| #[trigger] dt24_view(Dt24::NullableT(b)) == SpecDt24::NullableT(Box::new(pb_type_view(*b))),
        forall|b: Box<DataType>| #[trigger] dt24_view(Dt24::ArrayT(b)) == SpecDt24::ArrayT(Box::new(pb_type_view(*b))),
        forall|b: Box<DataType>| #[trigger] dt24_view(Dt24::MapT(b)) == SpecDt24::MapT(Box::new(pb_type_view(*b))),
        strings_view(v).len() == v.len(),
        forall|i: int| 0 <= i < v.len() ==> #[trigger] strings_view(v)[i] == v[i]@,
{
}

// ---------------------------------------------------------------------------
// Numbers.
// ---------------------------------------------------------------------------

/// Each numeric type is written as the number kind of the same name, with the
/// current versions.
pub proof fn law_number_written_by_name(n: NumberDataType)
    ensures
        number_to_pb(n).ver == VER,
        number_to_pb(n).min_reader_ver == MIN_READER_VER,
        number_to_pb(NumberDataType::UInt8).num == Some(Num::Uint8Type(Empty {})),
        number_to_pb(NumberDataType::UInt16).num == Some(Num::Uint16Type(Empty {})),
        number_to_pb(NumberDataType::UInt32).num == Some(Num::Uint32Type(Empty {})),
        number_to_pb(NumberDataType::UInt64).num == Some(Num::Uint64Type(Empty {})),
        number_to_pb(NumberDataType::Int8).num == Some(Num::Int8Type(Empty {})),
        number_to_pb(NumberDataType::Int16).num == Some(Num::Int16Type(Empty {})),
        number_to_pb(NumberDataType::Int32).num == Some(Num::Int32Type(Empty {})),
        number_to_pb(NumberDataType::Int64).num == Some(Num::Int64Type(Empty {})),
        number_to_pb(NumberDataType::Float32).num == Some(Num::Float32Type(Empty {})),
        number_to_pb(NumberDataType::Float64).num == Some(Num::Float64Type(Empty {})),
{
}

/// A number message whose versions pass reads as the numeric type named by
/// its kind, and fails without a kind.
pub proof fn law_number_read_by_name(n: Number)
    requires
        passes(n.ver, n.min_reader_ver),
    ensures
        n.num is None ==> number_from_pb(n) == Err::<NumberDataType, _>(num_none_reason()),
        n.num matches Some(Num::Uint8Type(_)) ==> number_from_pb(n) == Ok::<_, Seq<char>>(NumberDataType::UInt8),
        n.num matches Some(Num::Uint16Type(_)) ==> number_from_pb(n) == Ok::<_, Seq<char>>(NumberDataType::UInt16),
        n.num matches Some(Num::Uint32Type(_)) ==> number_from_pb(n) == Ok::<_, Seq<char>>(NumberDataType::UInt32),
        n.num matches Some(Num::Uint64Type(_)) ==> number_from_pb(n) == Ok::<_, Seq<char>>(NumberDataType::UInt64),
        n.num matches Some(Num::Int8Type(_)) ==> number_from_pb(n) == Ok::<_, Seq<char>>(NumberDataType::Int8),
        n.num matches Some(Num::Int16Type(_)) ==> number_from_pb(n) == Ok::<_, Seq<char>>(NumberDataType::Int16),
        n.num matches Some(Num::Int32Type(_)) ==> number_from_pb(n) == Ok::<_, Seq<char>>(NumberDataType::Int32),
        n.num matches Some(Num::Int64Type(_)) ==> number_from_pb(n) == Ok::<_, Seq<char>>(NumberDataType::Int64),
        n.num matches Some(Num::Float32Type(_)) ==> number_from_pb(n) == Ok::<_, Seq<char>>(NumberDataType::Float32),
        n.num matches Some(Num::Float64Type(_)) ==> number_from_pb(n) == Ok::<_, Seq<char>>(NumberDataType::Float64),
{
}

/// The outcome of reading a number message does not depend on its versions,
/// as long as they pass.
pub proof fn law_number_version_independent(n: Number, ver: u64, min_reader_ver: u64)
    requires
        passes(n.ver, n.min_reader_ver),
        passes(ver, min_reader_ver),
    ensures
        number_from_pb(Number { ver, min_reader_ver, ..n }) == number_from_pb(n),
{
}

// ---------------------------------------------------------------------------
// Column types.
// ---------------------------------------------------------------------------

/// Messages without a type tag, or with tags in both forms, are refused.
pub proof fn law_type_needs_one_form(ver: u64, min_reader_ver: u64, d: SpecDt, d24: SpecDt24)
    requires
        passes(ver, min_reader_ver),
    ensures
        type_from_pb(SpecDataType { ver, min_reader_ver, dt: None, dt24: None })
            == Err::<SpecTableDataType, _>(both_none_reason()),
        type_from_pb(SpecDataType { ver, min_reader_ver, dt: Some(d), dt24: Some(d24) })
            == Err::<SpecTableDataType, _>(both_some_reason()),
{
}

/// The outcome of reading a column type message does not depend on its own
/// versions, as long as they pass: a message stored by version 24 or 25
/// reads as the same message stored by this version.
pub proof fn law_type_version_independent(p: SpecDataType, ver: u64, min_reader_ver: u64)
    requires
        passes(p.ver, p.min_reader_ver),
        passes(ver, min_reader_ver),
    ensures
        type_from_pb(SpecDataType { ver, min_reader_ver, ..p }) == type_from_pb(p),
{
}

/// Tags without contents read, in either form, as the column type of the
/// same name.
pub proof fn law_type_read_simple_tags(ver: u64, min_reader_ver: u64)
    requires
        passes(ver, min_reader_ver),
    ensures
        type_from_pb(new_form(ver, min_reader_ver, SpecDt24::NullT)) == Ok::<_, Seq<char>>(SpecTableDataType::Null),
        type_from_pb(new_form(ver, min_reader_ver, SpecDt24::EmptyArrayT)) == Ok::<_, Seq<char>>(SpecTableDataType::EmptyArray),
        type_from_pb(new_form(ver, min_reader_ver, SpecDt24::BoolT)) == Ok::<_, Seq<char>>(SpecTableDataType::Boolean),
        type_from_pb(new_form(ver, min_reader_ver, SpecDt24::StringT)) == Ok::<_, Seq<char>>(SpecTableDataType::String),
        type_from_pb(new_form(ver, min_reader_ver, SpecDt24::TimestampT)) == Ok::<_, Seq<char>>(SpecTableDataType::Timestamp),
        type_from_pb(new_form(ver, min_reader_ver, SpecDt24::DateT)) == Ok::<_, Seq<char>>(SpecTableDataType::Date),
        type_from_pb(new_form(ver, min_reader_ver, SpecDt24::VariantT)) == Ok::<_, Seq<char>>(SpecTableDataType::Variant),
        type_from_pb(old_form(ver, min_reader_ver, SpecDt::NullType)) == Ok::<_, Seq<char>>(SpecTableDataType::Null),
        type_from_pb(old_form(ver, min_reader_ver, SpecDt::BoolType)) == Ok::<_, Seq<char>>(SpecTableDataType::Boolean),
        type_from_pb(old_form(ver, min_reader_ver, SpecDt::StringType)) == Ok::<_, Seq<char>>(SpecTableDataType::String),
        type_from_pb(old_form(ver, min_reader_ver, SpecDt::TimestampType)) == Ok::<_, Seq<char>>(SpecTableDataType::Timestamp),
        type_from_pb(old_form(ver, min_reader_ver, SpecDt::DateType)) == Ok::<_, Seq<char>>(SpecTableDataType::Date),
        type_from_pb(old_form(ver, min_reader_ver, SpecDt::VariantType)) == Ok::<_, Seq<char>>(SpecTableDataType::Variant),
        type_from_pb(old_form(ver, min_reader_ver, SpecDt::VariantArrayType)) == Ok::<_, Seq<char>>(SpecTableDataType::Variant),
        type_from_pb(old_form(ver, min_reader_ver, SpecDt::VariantObjectType)) == Ok::<_, Seq<char>>(SpecTableDataType::Variant),
        type_from_pb(old_form(ver, min_reader_ver, SpecDt::IntervalType)) == Ok::<_, Seq<char>>(SpecTableDataType::Null),
{
}

/// Old-form numeric tags read as the numeric type of the same name, and the
/// same as the new form's number message of that kind.
pub proof fn law_type_read_old_numbers(ver: u64, min_reader_ver: u64, n: Number)
    requires
        passes(ver, min_reader_ver),
        passes(n.ver, n.min_reader_ver),
    ensures
        type_from_pb(old_form(ver, min_reader_ver, SpecDt::Uint8Type)) == Ok::<_, Seq<char>>(SpecTableDataType::Number(NumberDataType::UInt8)),
        type_from_pb(old_form(ver, min_reader_ver, SpecDt::Uint16Type)) == Ok::<_, Seq<char>>(SpecTableDataType::Number(NumberDataType::UInt16)),
        type_from_pb(old_form(ver, min_reader_ver, SpecDt::Uint32Type)) == Ok::<_, Seq<char>>(SpecTableDataType::Number(NumberDataType::UInt32)),
        type_from_pb(old_form(ver, min_reader_ver, SpecDt::Uint64Type)) == Ok::<_, Seq<char>>(SpecTableDataType::Number(NumberDataType::UInt64)),
        type_from_pb(old_form(ver, min_reader_ver, SpecDt::Int8Type)) == Ok::<_, Seq<char>>(SpecTableDataType::Number(NumberDataType::Int8)),
        type_from_pb(old_form(ver, min_reader_ver, SpecDt::Int16Type)) == Ok::<_, Seq<char>>(SpecTableDataType::Number(NumberDataType::Int16)),
        type_from_pb(old_form(ver, min_reader_ver, SpecDt::Int32Type)) == Ok::<_, Seq<char>>(SpecTableDataType::Number(NumberDataType::Int32)),
        type_from_pb(old_form(ver, min_reader_ver, SpecDt::Int64Type)) == Ok::<_, Seq<char>>(SpecTableDataType::Number(NumberDataType::Int64)),
        type_from_pb(old_form(ver, min_reader_ver, SpecDt::Float32Type)) == Ok::<_, Seq<char>>(SpecTableDataType::Number(NumberDataType::Float32)),
        type_from_pb(old_form(ver, min_reader_ver, SpecDt::Float64Type)) == Ok::<_, Seq<char>>(SpecTableDataType::Number(NumberDataType::Float64)),
        n.num matches Some(Num::Int32Type(_)) ==> type_from_pb(new_form(ver, min_reader_ver, SpecDt24::NumberT(n)))
            == type_from_pb(old_form(ver, min_reader_ver, SpecDt::Int32Type)),
        n.num matches Some(Num::Uint32Type(_)) ==> type_from_pb(new_form(ver, min_reader_ver, SpecDt24::NumberT(n)))
            == type_from_pb(old_form(ver, min_reader_ver, SpecDt::Uint32Type)),
        n.num matches Some(Num::Int64Type(_)) ==> type_from_pb(new_form(ver, min_reader_ver, SpecDt24::NumberT(n)))
            == type_from_pb(old_form(ver, min_reader_ver, SpecDt::Int64Type)),
        n.num matches Some(Num::Uint64Type(_)) ==> type_from_pb(new_form(ver, min_reader_ver, SpecDt24::NumberT(n)))
            == type_from_pb(old_form(ver, min_reader_ver, SpecDt::Uint64Type)),
{
}

/// A new-form number message reads as the numeric type its number message
/// reads as, or fails with that message's reason.
pub proof fn law_type_read_new_number(ver: u64, min_reader_ver: u64, n: Number)
    requires
        passes(ver, min_reader_ver),
    ensures
        number_from_pb(n) matches Ok(x) ==> type_from_pb(new_form(ver, min_reader_ver, SpecDt24::NumberT(n)))
            == Ok::<_, Seq<char>>(SpecTableDataType::Number(x)),
        number_from_pb(n) matches Err(e) ==> type_from_pb(new_form(ver, min_reader_ver, SpecDt24::NumberT(n)))
            == Err::<SpecTableDataType, _>(e),
{
}

/// A nullable, array or map message, in either form, reads as the type of
/// the same name wrapped around what its inner message reads as; where the
/// inner message fails, it fails with the same reason.
pub proof fn law_type_read_wrapped(
    ver: u64,
    min_reader_ver: u64,
    inner_ver: u64,
    inner_min_reader_ver: u64,
    b: SpecDataType,
)
    requires
        passes(ver, min_reader_ver),
        passes(inner_ver, inner_min_reader_ver),
    ensures
        type_from_pb(b) matches Ok(t) ==> {
            &&& type_from_pb(new_form(ver, min_reader_ver, SpecDt24::NullableT(Box::new(b))))
                == Ok::<_, Seq<char>>(SpecTableDataType::Nullable(Box::new(t)))
            &&& type_from_pb(new_form(ver, min_reader_ver, SpecDt24::ArrayT(Box::new(b))))
                == Ok::<_, Seq<char>>(SpecTableDataType::Array(Box::new(t)))
            &&& type_from_pb(new_form(ver, min_reader_ver, SpecDt24::MapT(Box::new(b))))
                == Ok::<_, Seq<char>>(SpecTableDataType::MapType(Box::new(t)))
            &&& type_from_pb(
                old_form(
                    ver,
                    min_reader_ver,
                    SpecDt::NullableType {
                        ver: inner_ver,
                        min_reader_ver: inner_min_reader_ver,
                        inner: Some(Box::new(b)),
                    },
                ),
            ) == Ok::<_, Seq<char>>(SpecTableDataType::Nullable(Box::new(t)))
            &&& type_from_pb(
                old_form(
                    ver,
                    min_reader_ver,
                    SpecDt::ArrayType {
                        ver: inner_ver,
                        min_reader_ver: inner_min_reader_ver,
                        inner: Some(Box::new(b)),
                    },
                ),
            ) == Ok::<_, Seq<char>>(SpecTableDataType::Array(Box::new(t)))
        },
        type_from_pb(b) matches Err(e) ==> {
            &&& type_from_pb(new_form(ver, min_reader_ver, SpecDt24::NullableT(Box::new(b))))
                == Err::<SpecTableDataType, _>(e)
            &&& type_from_pb(new_form(ver, min_reader_ver, SpecDt24::ArrayT(Box::new(b))))
                == Err::<SpecTableDataType, _>(e)
            &&& type_from_pb(new_form(ver, min_reader_ver, SpecDt24::MapT(Box::new(b))))
                == Err::<SpecTableDataType, _>(e)
            &&& type_from_pb(
                old_form(
                    ver,
                    min_reader_ver,
                    SpecDt::NullableType {
                        ver: inner_ver,
                        min_reader_ver: inner_min_reader_ver,
                        inner: Some(Box::new(b)),
                    },
                ),
            ) == Err::<SpecTableDataType, _>(e)
            &&& type_from_pb(
                old_form(
                    ver,
                    min_reader_ver,
                    SpecDt::ArrayType {
                        ver: inner_ver,
                        min_reader_ver: inner_min_reader_ver,
                        inner: Some(Box::new(b)),
                    },
                ),
            ) == Err::<SpecTableDataType, _>(e)
        },
{
}

/// A tuple message, in either form, whose member messages all read, reads
/// as a tuple with the message's names, as they are, and one member type per
/// member message, in order; otherwise it fails with the reason of the first
/// member message that does not read.
pub proof fn law_type_read_tuple(
    ver: u64,
    min_reader_ver: u64,
    tuple_ver: u64,
    tuple_min_reader_ver: u64,
    names: Seq<Seq<char>>,
    types: Seq<SpecDataType>,
)
    requires
        passes(ver, min_reader_ver),
        passes(tuple_ver, tuple_min_reader_ver),
    ensures
        (forall|i: int| 0 <= i < types.len() ==> #[trigger] type_from_pb(types[i]) is Ok) ==> {
            let new_t = type_from_pb(
                new_form(
                    ver,
                    min_reader_ver,
                    SpecDt24::TupleT {
                        ver: tuple_ver,
                        min_reader_ver: tuple_min_reader_ver,
                        field_names: names,
                        field_types: types,
                    },
                ),
            );
            let old_t = type_from_pb(
                old_form(
                    ver,
                    min_reader_ver,
                    SpecDt::StructType {
                        ver: tuple_ver,
                        min_reader_ver: tuple_min_reader_ver,
                        names,
                        types,
                    },
                ),
            );
            &&& new_t == old_t
            &&& new_t matches Ok(SpecTableDataType::Tuple { fields_name, fields_type }) && {
                &&& fields_name == names
                &&& fields_type.len() == types.len()
                &&& forall|i: int|
                    0 <= i < types.len() ==> type_from_pb(types[i]) == Ok::<_, Seq<char>>(
                        #[trigger] fields_type[i],
                    )
            }
        },
        forall|i: int|
            0 <= i < types.len() && (forall|j: int| 0 <= j < i ==> #[trigger] type_from_pb(types[j]) is Ok)
                && #[trigger] type_from_pb(types[i]) is Err ==> {
                &&& type_from_pb(
                    new_form(
                        ver,
                        min_reader_ver,
                        SpecDt24::TupleT {
                            ver: tuple_ver,
                            min_reader_ver: tuple_min_reader_ver,
                            field_names: names,
                            field_types: types,
                        },
                    ),
                ) == type_from_pb(types[i])
                &&& type_from_pb(
                    old_form(
                        ver,
                        min_reader_ver,
                        SpecDt::StructType {
                            ver: tuple_ver,
                            min_reader_ver: tuple_min_reader_ver,
                            names,
                            types,
                        },
                    ),
                ) == type_from_pb(types[i])
            },
{
    if forall|i: int| 0 <= i < types.len() ==> #[trigger] type_from_pb(types[i]) is Ok {
        law_types_from_pb_all_ok(types);
    }
    assert forall|i: int|
        0 <= i < types.len() && (forall|j: int| 0 <= j < i ==> #[trigger] type_from_pb(types[j]) is Ok)
            && #[trigger] type_from_pb(types[i]) is Err implies type_from_pb(
        new_form(
            ver,
            min_reader_ver,
            SpecDt24::TupleT {
                ver: tuple_ver,
                min_reader_ver: tuple_min_reader_ver,
                field_names: names,
                field_types: types,
            },
        ),
    ) == type_from_pb(types[i]) && type_from_pb(
        old_form(
            ver,
            min_reader_ver,
            SpecDt::StructType {
                ver: tuple_ver,
                min_reader_ver: tuple_min_reader_ver,
                names,
                types,
            },
        ),
    ) == type_from_pb(types[i]) by {
        law_types_from_pb_first_err(types, i);
    }
}

/// A nested message whose own versions do not pass makes the whole column
/// type message fail with that nested message's reason; an old-form
/// nullable or array message without its inner message fails too.
pub proof fn law_type_nested_checks(
    ver: u64,
    min_reader_ver: u64,
    inner_ver: u64,
    inner_min_reader_ver: u64,
    inner: Option<Box<SpecDataType>>,
    names: Seq<Seq<char>>,
    types: Seq<SpecDataType>,
    n: Number,
)
    requires
        passes(ver, min_reader_ver),
    ensures
        !passes(inner_ver, inner_min_reader_ver) ==> {
            let why = if inner_min_reader_ver > VER {
                reader_too_old_reason(inner_min_reader_ver)
            } else {
                message_too_old_reason(inner_ver)
            };
            &&& type_from_pb(
                new_form(
                    ver,
                    min_reader_ver,
                    SpecDt24::TupleT {
                        ver: inner_ver,
                        min_reader_ver: inner_min_reader_ver,
                        field_names: names,
                        field_types: types,
                    },
                ),
            ) == Err::<SpecTableDataType, _>(why)
            &&& type_from_pb(
                old_form(
                    ver,
                    min_reader_ver,
                    SpecDt::StructType {
                        ver: inner_ver,
                        min_reader_ver: inner_min_reader_ver,
                        names,
                        types,
                    },
                ),
            ) == Err::<SpecTableDataType, _>(why)
            &&& type_from_pb(
                old_form(
                    ver,
                    min_reader_ver,
                    SpecDt::NullableType { ver: inner_ver, min_reader_ver: inner_min_reader_ver, inner },
                ),
            ) == Err::<SpecTableDataType, _>(why)
            &&& type_from_pb(
                old_form(
                    ver,
                    min_reader_ver,
                    SpecDt::ArrayType { ver: inner_ver, min_reader_ver: inner_min_reader_ver, inner },
                ),
            ) == Err::<SpecTableDataType, _>(why)
        },
        passes(inner_ver, inner_min_reader_ver) && inner is None ==> {
            &&& type_from_pb(
                old_form(
                    ver,
                    min_reader_ver,
                    SpecDt::NullableType { ver: inner_ver, min_reader_ver: inner_min_reader_ver, inner },
                ),
            ) == Err::<SpecTableDataType, _>(nullable_inner_none_reason())
            &&& type_from_pb(
                old_form(
                    ver,
                    min_reader_ver,
                    SpecDt::ArrayType { ver: inner_ver, min_reader_ver: inner_min_reader_ver, inner },
                ),
            ) == Err::<SpecTableDataType, _>(array_inner_none_reason())
        },
        n.min_reader_ver > VER ==> type_from_pb(new_form(ver, min_reader_ver, SpecDt24::NumberT(n)))
            == Err::<SpecTableDataType, _>(reader_too_old_reason(n.min_reader_ver)),
        n.min_reader_ver <= VER && n.ver < MIN_MSG_VER ==> type_from_pb(
            new_form(ver, min_reader_ver, SpecDt24::NumberT(n)),
        ) == Err::<SpecTableDataType, _>(message_too_old_reason(n.ver)),
{
}

/// Each column type is written in the new form, with the current versions,
/// as the tag of the same name around what its parts are written as.
pub proof fn law_type_written_by_name(t: SpecTableDataType)
    ensures
        type_to_pb(t) == new_form(VER, MIN_READER_VER, type_to_pb(t).dt24->Some_0),
        t == SpecTableDataType::Null ==> type_to_pb(t).dt24 == Some(SpecDt24::NullT),
        t == SpecTableDataType::EmptyArray ==> type_to_pb(t).dt24 == Some(SpecDt24::EmptyArrayT),
        t == SpecTableDataType::Boolean ==> type_to_pb(t).dt24 == Some(SpecDt24::BoolT),
        t == SpecTableDataType::String ==> type_to_pb(t).dt24 == Some(SpecDt24::StringT),
        t == SpecTableDataType::Timestamp ==> type_to_pb(t).dt24 == Some(SpecDt24::TimestampT),
        t == SpecTableDataType::Date ==> type_to_pb(t).dt24 == Some(SpecDt24::DateT),
        t == SpecTableDataType::Variant ==> type_to_pb(t).dt24 == Some(SpecDt24::VariantT),
        t matches SpecTableDataType::Number(n) ==> type_to_pb(t).dt24 == Some(SpecDt24::NumberT(number_to_pb(n))),
        t matches SpecTableDataType::Nullable(v) ==> type_to_pb(t).dt24 == Some(SpecDt24::NullableT(Box::new(type_to_pb(*v)))),
        t matches SpecTableDataType::Array(v) ==> type_to_pb(t).dt24 == Some(SpecDt24::ArrayT(Box::new(type_to_pb(*v)))),
        t matches SpecTableDataType::MapType(v) ==> type_to_pb(t).dt24 == Some(SpecDt24::MapT(Box::new(type_to_pb(*v)))),
        t matches SpecTableDataType::Tuple { fields_name, fields_type } ==> {
            &&& type_to_pb(t).dt24 matches Some(SpecDt24::TupleT { ver, min_reader_ver, field_names, field_types })
            &&& ver == VER
            &&& min_reader_ver == MIN_READER_VER
            &&& field_names == fields_name
            &&& field_types.len() == fields_type.len()
            &&& forall|i: int| 0 <= i < fields_type.len() ==> #[trigger] field_types[i] == type_to_pb(fields_type[i])
        },
{
    if let SpecTableDataType::Tuple { fields_name, fields_type } = t {
        crate::convert::lemma_types_to_pb(fields_type);
    }
}

// ---------------------------------------------------------------------------
// Fields and schemas.
// ---------------------------------------------------------------------------

/// A field is written with its name, its default expression and its type, as
/// they are.
pub proof fn law_field_written(f: SpecTableField)
    ensures
        field_to_pb(f).ver == VER,
        field_to_pb(f).min_reader_ver == MIN_READER_VER,
        field_to_pb(f).name == f.name,
        field_to_pb(f).default_expr == f.default_expr,
        field_to_pb(f).data_type == Some(type_to_pb(f.data_type)),
{
}

/// A field message whose versions pass reads as a field with the message's
/// name and default expression, as they are, and the type its type message
/// reads as; without a type message, or where the type does not read, it
/// fails.
pub proof fn law_field_read(p: SpecDataField)
    requires
        passes(p.ver, p.min_reader_ver),
    ensures
        p.data_type is None ==> field_from_pb(p) == Err::<SpecTableField, _>(field_type_none_reason()),
        p.data_type matches Some(d) ==> (type_from_pb(d) matches Ok(t) ==> field_from_pb(p)
            == Ok::<_, Seq<char>>(SpecTableField { name: p.name, default_expr: p.default_expr, data_type: t })),
        p.data_type matches Some(d) ==> (type_from_pb(d) matches Err(e) ==> field_from_pb(p)
            == Err::<SpecTableField, _>(e)),
{
}

/// The outcome of reading a field message does not depend on its versions,
/// as long as they pass.
pub proof fn law_field_version_independent(p: SpecDataField, ver: u64, min_reader_ver: u64)
    requires
        passes(p.ver, p.min_reader_ver),
        passes(ver, min_reader_ver),
    ensures
        field_from_pb(SpecDataField { ver, min_reader_ver, ..p }) == field_from_pb(p),
{
}

/// A schema is written with one field message per field, in order, and its
/// metadata, column ids and next column id as they are.
pub proof fn law_schema_written(s: SpecTableSchema)
    ensures
        schema_to_pb(s).ver == VER,
        schema_to_pb(s).min_reader_ver == MIN_READER_VER,
        schema_to_pb(s).fields.len() == s.fields.len(),
        forall|i: int| 0 <= i < s.fields.len() ==> #[trigger] schema_to_pb(s).fields[i] == field_to_pb(s.fields[i]),
        schema_to_pb(s).metadata == s.metadata,
        schema_to_pb(s).column_id_map == s.column_id_map,
        schema_to_pb(s).next_column_id == s.next_column_id,
{
}

/// A schema message whose versions pass, and whose field messages all read,
/// reads as a schema with one field per field message, in order, and the
/// message's metadata, column ids and next column id, as they are; otherwise
/// it fails with the reason of the first field message that does not read.
pub proof fn law_schema_read(p: SpecDataSchema)
    requires
        passes(p.ver, p.min_reader_ver),
    ensures
        (forall|i: int| 0 <= i < p.fields.len() ==> #[trigger] field_from_pb(p.fields[i]) is Ok) ==> {
            &&& schema_from_pb(p) matches Ok(s) && {
                &&& s.fields.len() == p.fields.len()
                &&& forall|i: int|
                    0 <= i < p.fields.len() ==> field_from_pb(p.fields[i]) == Ok::<_, Seq<char>>(
                        #[trigger] s.fields[i],
                    )
                &&& s.metadata == p.metadata
                &&& s.column_id_map == p.column_id_map
                &&& s.next_column_id == p.next_column_id
            }
        },
        forall|i: int|
            0 <= i < p.fields.len() && (forall|j: int| 0 <= j < i ==> #[trigger] field_from_pb(p.fields[j]) is Ok)
                && #[trigger] field_from_pb(p.fields[i]) is Err ==> schema_from_pb(p)
                == Err::<SpecTableSchema, _>(field_from_pb(p.fields[i])->Err_0),
{
    if forall|i: int| 0 <= i < p.fields.len() ==> #[trigger] field_from_pb(p.fields[i]) is Ok {
        law_fields_from_pb_all_ok(p.fields);
    }
    assert forall|i: int|
        0 <= i < p.fields.len() && (forall|j: int| 0 <= j < i ==> #[trigger] field_from_pb(p.fields[j]) is Ok)
            && #[trigger] field_from_pb(p.fields[i]) is Err implies schema_from_pb(p)
            == Err::<SpecTableSchema, _>(field_from_pb(p.fields[i])->Err_0) by {
        law_fields_from_pb_first_err(p.fields, i);
    }
}

/// The outcome of reading a schema message does not depend on its versions,
/// as long as they pass.
pub proof fn law_schema_version_independent(p: SpecDataSchema, ver: u64, min_reader_ver: u64)
    requires
        passes(p.ver, p.min_reader_ver),
        passes(ver, min_reader_ver),
    ensures
        schema_from_pb(SpecDataSchema { ver, min_reader_ver, ..p }) == schema_from_pb(p),
{
}

} // verus!
