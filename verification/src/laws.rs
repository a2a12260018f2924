//! What holds of reading and writing taken together.

use vstd::prelude::*;

use crate::compat::{
    message_too_old_reason, reader_check, reader_too_old_reason, MIN_MSG_VER, MIN_READER_VER, VER,
};
use crate::convert::{
    field_from_pb, field_to_pb, fields_from_pb, number_from_pb, number_to_pb, schema_from_pb,
    schema_to_pb, type_from_pb, type_to_pb, types_from_pb, types_to_pb,
};
use crate::pb::{Number, SpecDataField, SpecDataSchema, SpecDataType};
use crate::schema::{NumberDataType, SpecTableDataType, SpecTableField, SpecTableSchema};

verus! {

/// A numeric type written and read back is the same numeric type.
pub proof fn law_number_roundtrip(n: NumberDataType)
    ensures
        number_from_pb(number_to_pb(n)) == Ok::<_, Seq<char>>(n),
{
}

/// A column type written and read back is the same column type.
pub proof fn law_type_roundtrip(t: SpecTableDataType)
    ensures
        type_from_pb(type_to_pb(t)) == Ok::<_, Seq<char>>(t),
    decreases t,
{
    match t {
        SpecTableDataType::Nullable(v) => law_type_roundtrip(*v),
        SpecTableDataType::Array(v) => law_type_roundtrip(*v),
        SpecTableDataType::MapType(v) => law_type_roundtrip(*v),
        SpecTableDataType::Tuple { fields_name, fields_type } => law_types_roundtrip(fields_type),
        _ => {},
    }
}

/// A sequence of column types written and read back is the same sequence.
pub proof fn law_types_roundtrip(s: Seq<SpecTableDataType>)
    ensures
        types_from_pb(types_to_pb(s)) == Ok::<_, Seq<char>>(s),
    decreases s,
{
    if s.len() > 0 {
        law_types_roundtrip(s.drop_last());
        law_type_roundtrip(s.last());
        assert(types_to_pb(s).drop_last() =~= types_to_pb(s.drop_last()));
        assert(s.drop_last().push(s.last()) =~= s);
    } else {
        assert(s =~= Seq::empty());
    }
}

/// A field written and read back is the same field.
pub proof fn law_field_roundtrip(f: SpecTableField)
    ensures
        field_from_pb(field_to_pb(f)) == Ok::<_, Seq<char>>(f),
{
    law_type_roundtrip(f.data_type);
}

/// A sequence of fields written and read back is the same sequence.
proof fn lemma_fields_roundtrip(s: Seq<SpecTableField>)
    ensures
        fields_from_pb(s.map_values(|f: SpecTableField| field_to_pb(f))) == Ok::<_, Seq<char>>(s),
    decreases s.len(),
{
    if s.len() > 0 {
        lemma_fields_roundtrip(s.drop_last());
        law_field_roundtrip(s.last());
        assert(s.map_values(|f: SpecTableField| field_to_pb(f)).drop_last() =~= s.drop_last().map_values(
            |f: SpecTableField| field_to_pb(f),
        ));
        assert(s.drop_last().push(s.last()) =~= s);
    } else {
        assert(s =~= Seq::empty());
    }
}

/// A schema written and read back is the same schema: the same fields in the
/// same order, the same metadata, column ids and next column id.
pub proof fn law_schema_roundtrip(s: SpecTableSchema)
    ensures
        schema_from_pb(schema_to_pb(s)) == Ok::<_, Seq<char>>(s),
{
    lemma_fields_roundtrip(s.fields);
}

/// Writing is one-to-one: two column types that are written to the same
/// message are the same column type.
pub proof fn law_type_to_pb_injective(t1: SpecTableDataType, t2: SpecTableDataType)
    requires
        type_to_pb(t1) == type_to_pb(t2),
    ensures
        t1 == t2,
{
    law_type_roundtrip(t1);
    law_type_roundtrip(t2);
}

/// Every column type message written is in the new form, carries the current
/// version, and passes the version check of this reader.
pub proof fn law_type_written_current(t: SpecTableDataType)
    ensures
        type_to_pb(t).ver == VER,
        type_to_pb(t).min_reader_ver == MIN_READER_VER,
        type_to_pb(t).dt is None,
        type_to_pb(t).dt24 is Some,
        reader_check(type_to_pb(t).ver, type_to_pb(t).min_reader_ver) == Ok::<(), Seq<char>>(()),
{
}

/// A column type message that asks for a newer reader than this program is
/// refused, whatever else it holds.
pub proof fn law_newer_reader_refused(p: SpecDataType)
    requires
        p.min_reader_ver > VER,
    ensures
        type_from_pb(p) == Err::<SpecTableDataType, _>(reader_too_old_reason(p.min_reader_ver)),
{
}

/// A column type message older than this program still reads is refused,
/// unless it already asks for a newer reader.
pub proof fn law_older_message_refused(p: SpecDataType)
    requires
        p.min_reader_ver <= VER,
        p.ver < MIN_MSG_VER,
    ensures
        type_from_pb(p) == Err::<SpecTableDataType, _>(message_too_old_reason(p.ver)),
{
}

/// Number, field and schema messages that ask for a newer reader than this
/// program are refused as well, whatever else they hold.
pub proof fn law_newer_reader_refused_all(n: Number, f: SpecDataField, s: SpecDataSchema)
    requires
        n.min_reader_ver > VER,
        f.min_reader_ver > VER,
        s.min_reader_ver > VER,
    ensures
        number_from_pb(n) == Err::<NumberDataType, _>(reader_too_old_reason(n.min_reader_ver)),
        field_from_pb(f) == Err::<SpecTableField, _>(reader_too_old_reason(f.min_reader_ver)),
        schema_from_pb(s) == Err::<SpecTableSchema, _>(reader_too_old_reason(s.min_reader_ver)),
{
}

/// Reading a message, writing what was read and reading it again gives what
/// the first reading gave.
pub proof fn law_reread(p: SpecDataType)
    requires
        type_from_pb(p) is Ok,
    ensures
        type_from_pb(type_to_pb(type_from_pb(p)->Ok_0)) == type_from_pb(p),
{
    law_type_roundtrip(type_from_pb(p)->Ok_0);
}

} // verus!
