use vstd::prelude::*;

use crate::type_info::{PgType, builtin_of_name, builtin_of_oid, is_builtin, name_spec, oid_spec};

verus! {

/// A built-in lookup by oid answers with a type that reports that same
/// oid: the id half of the round trip, read off the table.
pub proof fn lemma_oid_to_builtin(oid: u32)
    ensures
        builtin_of_oid(oid) matches Some(t) ==> is_builtin(t) && oid_spec(t) == oid,
{
}

/// Looking a built-in type's own oid back up in the table finds exactly
/// that type: oids are unique among the built-ins.
pub proof fn lemma_builtin_oid_round_trip(t: PgType)
    requires
        is_builtin(t),
    ensures
        builtin_of_oid(oid_spec(t)) == Some(t),
{
    match t {
        PgType::Bool => {},
        PgType::Bytea => {},
        PgType::Char => {},
        PgType::Name => {},
        PgType::Int8 => {},
        PgType::Int2 => {},
        PgType::Int4 => {},
        PgType::Text => {},
        PgType::Oid => {},
        PgType::Json => {},
        PgType::JsonArray => {},
        PgType::Point => {},
        PgType::Lseg => {},
        PgType::Path => {},
        PgType::Box => {},
        PgType::Polygon => {},
        PgType::Line => {},
        PgType::LineArray => {},
        PgType::Cidr => {},
        PgType::CidrArray => {},
        PgType::Float4 => {},
        PgType::Float8 => {},
        PgType::Unknown => {},
        PgType::Circle => {},
        PgType::CircleArray => {},
        PgType::Macaddr8 => {},
        PgType::Macaddr8Array => {},
        PgType::Macaddr => {},
        PgType::Inet => {},
        PgType::BoolArray => {},
        PgType::ByteaArray => {},
        PgType::CharArray => {},
        PgType::NameArray => {},
        PgType::Int2Array => {},
        PgType::Int4Array => {},
        PgType::TextArray => {},
        PgType::BpcharArray => {},
        PgType::VarcharArray => {},
        PgType::Int8Array => {},
        PgType::PointArray => {},
        PgType::LsegArray => {},
        PgType::PathArray => {},
        PgType::BoxArray => {},
        PgType::Float4Array => {},
        PgType::Float8Array => {},
        PgType::PolygonArray => {},
        PgType::OidArray => {},
        PgType::MacaddrArray => {},
        PgType::InetArray => {},
        PgType::Bpchar => {},
        PgType::Varchar => {},
        PgType::Date => {},
        PgType::Time => {},
        PgType::Timestamp => {},
        PgType::TimestampArray => {},
        PgType::DateArray => {},
        PgType::TimeArray => {},
        PgType::Timestamptz => {},
        PgType::TimestamptzArray => {},
        PgType::NumericArray => {},
        PgType::Timetz => {},
        PgType::TimetzArray => {},
        PgType::Bit => {},
        PgType::BitArray => {},
        PgType::Varbit => {},
        PgType::VarbitArray => {},
        PgType::Numeric => {},
        PgType::Record => {},
        PgType::Interval => {},
        PgType::RecordArray => {},
        PgType::Uuid => {},
        PgType::UuidArray => {},
        PgType::Jsonb => {},
        PgType::JsonbArray => {},
        PgType::Int4Range => {},
        PgType::Int4RangeArray => {},
        PgType::NumRange => {},
        PgType::NumRangeArray => {},
        PgType::TsRange => {},
        PgType::TsRangeArray => {},
        PgType::TstzRange => {},
        PgType::TstzRangeArray => {},
        PgType::DateRange => {},
        PgType::DateRangeArray => {},
        PgType::Int8Range => {},
        PgType::Int8RangeArray => {},
        PgType::Jsonpath => {},
        PgType::JsonpathArray => {},
        _ => {},
    }
}

/// Looking a built-in type's own name back up in the table finds exactly
/// that type: names are unique among the built-ins.
#[verifier::spinoff_prover]
#[verifier::rlimit(60)]
pub proof fn lemma_builtin_name_round_trip(t: PgType)
    requires
        is_builtin(t),
    ensures
        builtin_of_name(name_spec(t)) == Some(t),
{
    reveal_strlit("bool");
    reveal_strlit("bytea");
    reveal_strlit("char");
    reveal_strlit("name");
    reveal_strlit("int8");
    reveal_strlit("int2");
    reveal_strlit("int4");
    reveal_strlit("text");
    reveal_strlit("oid");
    reveal_strlit("json");
    reveal_strlit("_json");
    reveal_strlit("point");
    reveal_strlit("lseg");
    reveal_strlit("path");
    reveal_strlit("box");
    reveal_strlit("polygon");
    reveal_strlit("line");
    reveal_strlit("_line");
    reveal_strlit("cidr");
    reveal_strlit("_cidr");
    reveal_strlit("float4");
    reveal_strlit("float8");
    reveal_strlit("unknown");
    reveal_strlit("circle");
    reveal_strlit("_circle");
    reveal_strlit("macaddr8");
    reveal_strlit("_macaddr8");
    reveal_strlit("macaddr");
    reveal_strlit("inet");
    reveal_strlit("_bool");
    reveal_strlit("_bytea");
    reveal_strlit("_char");
    reveal_strlit("_name");
    reveal_strlit("_int2");
    reveal_strlit("_int4");
    reveal_strlit("_text");
    reveal_strlit("_bpchar");
    reveal_strlit("_varchar");
    reveal_strlit("_int8");
    reveal_strlit("_point");
    reveal_strlit("_lseg");
    reveal_strlit("_path");
    reveal_strlit("_box");
    reveal_strlit("_float4");
    reveal_strlit("_float8");
    reveal_strlit("_polygon");
    reveal_strlit("_oid");
    reveal_strlit("_macaddr");
    reveal_strlit("_inet");
    reveal_strlit("bpchar");
    reveal_strlit("varchar");
    reveal_strlit("date");
    reveal_strlit("time");
    reveal_strlit("timestamp");
    reveal_strlit("_timestamp");
    reveal_strlit("_date");
    reveal_strlit("_time");
    reveal_strlit("timestamptz");
    reveal_strlit("_timestamptz");
    reveal_strlit("_numeric");
    reveal_strlit("timetz");
    reveal_strlit("_timetz");
    reveal_strlit("bit");
    reveal_strlit("_bit");
    reveal_strlit("varbit");
    reveal_strlit("_varbit");
    reveal_strlit("numeric");
    reveal_strlit("record");
    reveal_strlit("interval");
    reveal_strlit("_record");
    reveal_strlit("uuid");
    reveal_strlit("_uuid");
    reveal_strlit("jsonb");
    reveal_strlit("_jsonb");
    reveal_strlit("int4range");
    reveal_strlit("_int4range");
    reveal_strlit("numrange");
    reveal_strlit("_numrange");
    reveal_strlit("tsrange");
    reveal_strlit("_tsrange");
    reveal_strlit("tstzrange");
    reveal_strlit("_tstzrange");
    reveal_strlit("daterange");
    reveal_strlit("_daterange");
    reveal_strlit("int8range");
    reveal_strlit("_int8range");
    reveal_strlit("jsonpath");
    reveal_strlit("_jsonpath");
    assert("bool"@.len() == 4);
    assert("bytea"@.len() == 5);
    assert("char"@.len() == 4);
    assert("name"@.len() == 4);
    assert("int8"@.len() == 4);
    assert("int2"@.len() == 4);
    assert("int4"@.len() == 4);
    assert("text"@.len() == 4);
    assert("oid"@.len() == 3);
    assert("json"@.len() == 4);
    assert("_json"@.len() == 5);
    assert("point"@.len() == 5);
    assert("lseg"@.len() == 4);
    assert("path"@.len() == 4);
    assert("box"@.len() == 3);
    assert("polygon"@.len() == 7);
    assert("line"@.len() == 4);
    assert("_line"@.len() == 5);
    assert("cidr"@.len() == 4);
    assert("_cidr"@.len() == 5);
    assert("float4"@.len() == 6);
    assert("float8"@.len() == 6);
    assert("unknown"@.len() == 7);
    assert("circle"@.len() == 6);
    assert("_circle"@.len() == 7);
    assert("macaddr8"@.len() == 8);
    assert("_macaddr8"@.len() == 9);
    assert("macaddr"@.len() == 7);
    assert("inet"@.len() == 4);
    assert("_bool"@.len() == 5);
    assert("_bytea"@.len() == 6);
    assert("_char"@.len() == 5);
    assert("_name"@.len() == 5);
    assert("_int2"@.len() == 5);
    assert("_int4"@.len() == 5);
    assert("_text"@.len() == 5);
    assert("_bpchar"@.len() == 7);
    assert("_varchar"@.len() == 8);
    assert("_int8"@.len() == 5);
    assert("_point"@.len() == 6);
    assert("_lseg"@.len() == 5);
    assert("_path"@.len() == 5);
    assert("_box"@.len() == 4);
    assert("_float4"@.len() == 7);
    assert("_float8"@.len() == 7);
    assert("_polygon"@.len() == 8);
    assert("_oid"@.len() == 4);
    assert("_macaddr"@.len() == 8);
    assert("_inet"@.len() == 5);
    assert("bpchar"@.len() == 6);
    assert("varchar"@.len() == 7);
    assert("date"@.len() == 4);
    assert("time"@.len() == 4);
    assert("timestamp"@.len() == 9);
    assert("_timestamp"@.len() == 10);
    assert("_date"@.len() == 5);
    assert("_time"@.len() == 5);
    assert("timestamptz"@.len() == 11);
    assert("_timestamptz"@.len() == 12);
    assert("_numeric"@.len() == 8);
    assert("timetz"@.len() == 6);
    assert("_timetz"@.len() == 7);
    assert("bit"@.len() == 3);
    assert("_bit"@.len() == 4);
    assert("varbit"@.len() == 6);
    assert("_varbit"@.len() == 7);
    assert("numeric"@.len() == 7);
    assert("record"@.len() == 6);
    assert("interval"@.len() == 8);
    assert("_record"@.len() == 7);
    assert("uuid"@.len() == 4);
    assert("_uuid"@.len() == 5);
    assert("jsonb"@.len() == 5);
    assert("_jsonb"@.len() == 6);
    assert("int4range"@.len() == 9);
    assert("_int4range"@.len() == 10);
    assert("numrange"@.len() == 8);
    assert("_numrange"@.len() == 9);
    assert("tsrange"@.len() == 7);
    assert("_tsrange"@.len() == 8);
    assert("tstzrange"@.len() == 9);
    assert("_tstzrange"@.len() == 10);
    assert("daterange"@.len() == 9);
    assert("_daterange"@.len() == 10);
    assert("int8range"@.len() == 9);
    assert("_int8range"@.len() == 10);
    assert("jsonpath"@.len() == 8);
    assert("_jsonpath"@.len() == 9);
    assert("bool"@ != "char"@) by {
        assert("bool"@[0] == 'b');
        assert("char"@[0] == 'c');
    }
    assert("bool"@ != "name"@) by {
        assert("bool"@[0] == 'b');
        assert("name"@[0] == 'n');
    }
    assert("bool"@ != "int8"@) by {
        assert("bool"@[0] == 'b');
        assert("int8"@[0] == 'i');
    }
    assert("bool"@ != "int2"@) by {
        assert("bool"@[0] == 'b');
        assert("int2"@[0] == 'i');
    }
    assert("bool"@ != "int4"@) by {
        assert("bool"@[0] == 'b');
        assert("int4"@[0] == 'i');
    }
    assert("bool"@ != "text"@) by {
        assert("bool"@[0] == 'b');
        assert("text"@[0] == 't');
    }
    assert("bool"@ != "json"@) by {
        assert("bool"@[0] == 'b');
        assert("json"@[0] == 'j');
    }
    assert("bool"@ != "lseg"@) by {
        assert("bool"@[0] == 'b');
        assert("lseg"@[0] == 'l');
    }
    assert("bool"@ != "path"@) by {
        assert("bool"@[0] == 'b');
        assert("path"@[0] == 'p');
    }
    assert("bool"@ != "line"@) by {
        assert("bool"@[0] == 'b');
        assert("line"@[0] == 'l');
    }
    assert("bool"@ != "cidr"@) by {
        assert("bool"@[0] == 'b');
        assert("cidr"@[0] == 'c');
    }
    assert("bool"@ != "inet"@) by {
        assert("bool"@[0] == 'b');
        assert("inet"@[0] == 'i');
    }
    assert("bool"@ != "_box"@) by {
        assert("bool"@[0] == 'b');
        assert("_box"@[0] == '_');
    }
    assert("bool"@ != "_oid"@) by {
        assert("bool"@[0] == 'b');
        assert("_oid"@[0] == '_');
    }
    assert("bool"@ != "date"@) by {
        assert("bool"@[0] == 'b');
        assert("date"@[0] == 'd');
    }
    assert("bool"@ != "time"@) by {
        assert("bool"@[0] == 'b');
        assert("time"@[0] == 't');
    }
    assert("bool"@ != "_bit"@) by {
        assert("bool"@[0] == 'b');
        assert("_bit"@[0] == '_');
    }
    assert("bool"@ != "uuid"@) by {
        assert("bool"@[0] == 'b');
        assert("uuid"@[0] == 'u');
    }
    assert("bytea"@ != "_json"@) by {
        assert("bytea"@[0] == 'b');
        assert("_json"@[0] == '_');
    }
    assert("bytea"@ != "point"@) by {
        assert("bytea"@[0] == 'b');
        assert("point"@[0] == 'p');
    }
    assert("bytea"@ != "_line"@) by {
        assert("bytea"@[0] == 'b');
        assert("_line"@[0] == '_');
    }
    assert("bytea"@ != "_cidr"@) by {
        assert("bytea"@[0] == 'b');
        assert("_cidr"@[0] == '_');
    }
    assert("bytea"@ != "_bool"@) by {
        assert("bytea"@[0] == 'b');
        assert("_bool"@[0] == '_');
    }
    assert("bytea"@ != "_char"@) by {
        assert("bytea"@[0] == 'b');
        assert("_char"@[0] == '_');
    }
    assert("bytea"@ != "_name"@) by {
        assert("bytea"@[0] == 'b');
        assert("_name"@[0] == '_');
    }
    assert("bytea"@ != "_int2"@) by {
        assert("bytea"@[0] == 'b');
        assert("_int2"@[0] == '_');
    }
    assert("bytea"@ != "_int4"@) by {
        assert("bytea"@[0] == 'b');
        assert("_int4"@[0] == '_');
    }
    assert("bytea"@ != "_text"@) by {
        assert("bytea"@[0] == 'b');
        assert("_text"@[0] == '_');
    }
    assert("bytea"@ != "_int8"@) by {
        assert("bytea"@[0] == 'b');
        assert("_int8"@[0] == '_');
    }
    assert("bytea"@ != "_lseg"@) by {
        assert("bytea"@[0] == 'b');
        assert("_lseg"@[0] == '_');
    }
    assert("bytea"@ != "_path"@) by {
        assert("bytea"@[0] == 'b');
        assert("_path"@[0] == '_');
    }
    assert("bytea"@ != "_inet"@) by {
        assert("bytea"@[0] == 'b');
        assert("_inet"@[0] == '_');
    }
    assert("bytea"@ != "_date"@) by {
        assert("bytea"@[0] == 'b');
        assert("_date"@[0] == '_');
    }
    assert("bytea"@ != "_time"@) by {
        assert("bytea"@[0] == 'b');
        assert("_time"@[0] == '_');
    }
    assert("bytea"@ != "_uuid"@) by {
        assert("bytea"@[0] == 'b');
        assert("_uuid"@[0] == '_');
    }
    assert("bytea"@ != "jsonb"@) by {
        assert("bytea"@[0] == 'b');
        assert("jsonb"@[0] == 'j');
    }
    assert("char"@ != "name"@) by {
        assert("char"@[0] == 'c');
        assert("name"@[0] == 'n');
    }
    assert("char"@ != "int8"@) by {
        assert("char"@[0] == 'c');
        assert("int8"@[0] == 'i');
    }
    assert("char"@ != "int2"@) by {
        assert("char"@[0] == 'c');
        assert("int2"@[0] == 'i');
    }
    assert("char"@ != "int4"@) by {
        assert("char"@[0] == 'c');
        assert("int4"@[0] == 'i');
    }
    assert("char"@ != "text"@) by {
        assert("char"@[0] == 'c');
        assert("text"@[0] == 't');
    }
    assert("char"@ != "json"@) by {
        assert("char"@[0] == 'c');
        assert("json"@[0] == 'j');
    }
    assert("char"@ != "lseg"@) by {
        assert("char"@[0] == 'c');
        assert("lseg"@[0] == 'l');
    }
    assert("char"@ != "path"@) by {
        assert("char"@[0] == 'c');
        assert("path"@[0] == 'p');
    }
    assert("char"@ != "line"@) by {
        assert("char"@[0] == 'c');
        assert("line"@[0] == 'l');
    }
    assert("char"@ != "cidr"@) by {
        assert("char"@[1] == 'h');
        assert("cidr"@[1] == 'i');
    }
    assert("char"@ != "inet"@) by {
        assert("char"@[0] == 'c');
        assert("inet"@[0] == 'i');
    }
    assert("char"@ != "_box"@) by {
        assert("char"@[0] == 'c');
        assert("_box"@[0] == '_');
    }
    assert("char"@ != "_oid"@) by {
        assert("char"@[0] == 'c');
        assert("_oid"@[0] == '_');
    }
    assert("char"@ != "date"@) by {
        assert("char"@[0] == 'c');
        assert("date"@[0] == 'd');
    }
    assert("char"@ != "time"@) by {
        assert("char"@[0] == 'c');
        assert("time"@[0] == 't');
    }
    assert("char"@ != "_bit"@) by {
        assert("char"@[0] == 'c');
        assert("_bit"@[0] == '_');
    }
    assert("char"@ != "uuid"@) by {
        assert("char"@[0] == 'c');
        assert("uuid"@[0] == 'u');
    }
    assert("name"@ != "int8"@) by {
        assert("name"@[0] == 'n');
        assert("int8"@[0] == 'i');
    }
    assert("name"@ != "int2"@) by {
        assert("name"@[0] == 'n');
        assert("int2"@[0] == 'i');
    }
    assert("name"@ != "int4"@) by {
        assert("name"@[0] == 'n');
        assert("int4"@[0] == 'i');
    }
    assert("name"@ != "text"@) by {
        assert("name"@[0] == 'n');
        assert("text"@[0] == 't');
    }
    assert("name"@ != "json"@) by {
        assert("name"@[0] == 'n');
        assert("json"@[0] == 'j');
    }
    assert("name"@ != "lseg"@) by {
        assert("name"@[0] == 'n');
        assert("lseg"@[0] == 'l');
    }
    assert("name"@ != "path"@) by {
        assert("name"@[0] == 'n');
        assert("path"@[0] == 'p');
    }
    assert("name"@ != "line"@) by {
        assert("name"@[0] == 'n');
        assert("line"@[0] == 'l');
    }
    assert("name"@ != "cidr"@) by {
        assert("name"@[0] == 'n');
        assert("cidr"@[0] == 'c');
    }
    assert("name"@ != "inet"@) by {
        assert("name"@[0] == 'n');
        assert("inet"@[0] == 'i');
    }
    assert("name"@ != "_box"@) by {
        assert("name"@[0] == 'n');
        assert("_box"@[0] == '_');
    }
    assert("name"@ != "_oid"@) by {
        assert("name"@[0] == 'n');
        assert("_oid"@[0] == '_');
    }
    assert("name"@ != "date"@) by {
        assert("name"@[0] == 'n');
        assert("date"@[0] == 'd');
    }
    assert("name"@ != "time"@) by {
        assert("name"@[0] == 'n');
        assert("time"@[0] == 't');
    }
    assert("name"@ != "_bit"@) by {
        assert("name"@[0] == 'n');
        assert("_bit"@[0] == '_');
    }
    assert("name"@ != "uuid"@) by {
        assert("name"@[0] == 'n');
        assert("uuid"@[0] == 'u');
    }
    assert("int8"@ != "int2"@) by {
        assert("int8"@[3] == '8');
        assert("int2"@[3] == '2');
    }
    assert("int8"@ != "int4"@) by {
        assert("int8"@[3] == '8');
        assert("int4"@[3] == '4');
    }
    assert("int8"@ != "text"@) by {
        assert("int8"@[0] == 'i');
        assert("text"@[0] == 't');
    }
    assert("int8"@ != "json"@) by {
        assert("int8"@[0] == 'i');
        assert("json"@[0] == 'j');
    }
    assert("int8"@ != "lseg"@) by {
        assert("int8"@[0] == 'i');
        assert("lseg"@[0] == 'l');
    }
    assert("int8"@ != "path"@) by {
        assert("int8"@[0] == 'i');
        assert("path"@[0] == 'p');
    }
    assert("int8"@ != "line"@) by {
        assert("int8"@[0] == 'i');
        assert("line"@[0] == 'l');
    }
    assert("int8"@ != "cidr"@) by {
        assert("int8"@[0] == 'i');
        assert("cidr"@[0] == 'c');
    }
    assert("int8"@ != "inet"@) by {
        assert("int8"@[2] == 't');
        assert("inet"@[2] == 'e');
    }
    assert("int8"@ != "_box"@) by {
        assert("int8"@[0] == 'i');
        assert("_box"@[0] == '_');
    }
    assert("int8"@ != "_oid"@) by {
        assert("int8"@[0] == 'i');
        assert("_oid"@[0] == '_');
    }
    assert("int8"@ != "date"@) by {
        assert("int8"@[0] == 'i');
        assert("date"@[0] == 'd');
    }
    assert("int8"@ != "time"@) by {
        assert("int8"@[0] == 'i');
        assert("time"@[0] == 't');
    }
    assert("int8"@ != "_bit"@) by {
        assert("int8"@[0] == 'i');
        assert("_bit"@[0] == '_');
    }
    assert("int8"@ != "uuid"@) by {
        assert("int8"@[0] == 'i');
        assert("uuid"@[0] == 'u');
    }
    assert("int2"@ != "int4"@) by {
        assert("int2"@[3] == '2');
        assert("int4"@[3] == '4');
    }
    assert("int2"@ != "text"@) by {
        assert("int2"@[0] == 'i');
        assert("text"@[0] == 't');
    }
    assert("int2"@ != "json"@) by {
        assert("int2"@[0] == 'i');
        assert("json"@[0] == 'j');
    }
    assert("int2"@ != "lseg"@) by {
        assert("int2"@[0] == 'i');
        assert("lseg"@[0] == 'l');
    }
    assert("int2"@ != "path"@) by {
        assert("int2"@[0] == 'i');
        assert("path"@[0] == 'p');
    }
    assert("int2"@ != "line"@) by {
        assert("int2"@[0] == 'i');
        assert("line"@[0] == 'l');
    }
    assert("int2"@ != "cidr"@) by {
        assert("int2"@[0] == 'i');
        assert("cidr"@[0] == 'c');
    }
    assert("int2"@ != "inet"@) by {
        assert("int2"@[2] == 't');
        assert("inet"@[2] == 'e');
    }
    assert("int2"@ != "_box"@) by {
        assert("int2"@[0] == 'i');
        assert("_box"@[0] == '_');
    }
    assert("int2"@ != "_oid"@) by {
        assert("int2"@[0] == 'i');
        assert("_oid"@[0] == '_');
    }
    assert("int2"@ != "date"@) by {
        assert("int2"@[0] == 'i');
        assert("date"@[0] == 'd');
    }
    assert("int2"@ != "time"@) by {
        assert("int2"@[0] == 'i');
        assert("time"@[0] == 't');
    }
    assert("int2"@ != "_bit"@) by {
        assert("int2"@[0] == 'i');
        assert("_bit"@[0] == '_');
    }
    assert("int2"@ != "uuid"@) by {
        assert("int2"@[0] == 'i');
        assert("uuid"@[0] == 'u');
    }
    assert("int4"@ != "text"@) by {
        assert("int4"@[0] == 'i');
        assert("text"@[0] == 't');
    }
    assert("int4"@ != "json"@) by {
        assert("int4"@[0] == 'i');
        assert("json"@[0] == 'j');
    }
    assert("int4"@ != "lseg"@) by {
        assert("int4"@[0] == 'i');
        assert("lseg"@[0] == 'l');
    }
    assert("int4"@ != "path"@) by {
        assert("int4"@[0] == 'i');
        assert("path"@[0] == 'p');
    }
    assert("int4"@ != "line"@) by {
        assert("int4"@[0] == 'i');
        assert("line"@[0] == 'l');
    }
    assert("int4"@ != "cidr"@) by {
        assert("int4"@[0] == 'i');
        assert("cidr"@[0] == 'c');
    }
    assert("int4"@ != "inet"@) by {
        assert("int4"@[2] == 't');
        assert("inet"@[2] == 'e');
    }
    assert("int4"@ != "_box"@) by {
        assert("int4"@[0] == 'i');
        assert("_box"@[0] == '_');
    }
    assert("int4"@ != "_oid"@) by {
        assert("int4"@[0] == 'i');
        assert("_oid"@[0] == '_');
    }
    assert("int4"@ != "date"@) by {
        assert("int4"@[0] == 'i');
        assert("date"@[0] == 'd');
    }
    assert("int4"@ != "time"@) by {
        assert("int4"@[0] == 'i');
        assert("time"@[0] == 't');
    }
    assert("int4"@ != "_bit"@) by {
        assert("int4"@[0] == 'i');
        assert("_bit"@[0] == '_');
    }
    assert("int4"@ != "uuid"@) by {
        assert("int4"@[0] == 'i');
        assert("uuid"@[0] == 'u');
    }
    assert("text"@ != "json"@) by {
        assert("text"@[0] == 't');
        assert("json"@[0] == 'j');
    }
    assert("text"@ != "lseg"@) by {
        assert("text"@[0] == 't');
        assert("lseg"@[0] == 'l');
    }
    assert("text"@ != "path"@) by {
        assert("text"@[0] == 't');
        assert("path"@[0] == 'p');
    }
    assert("text"@ != "line"@) by {
        assert("text"@[0] == 't');
        assert("line"@[0] == 'l');
    }
    assert("text"@ != "cidr"@) by {
        assert("text"@[0] == 't');
        assert("cidr"@[0] == 'c');
    }
    assert("text"@ != "inet"@) by {
        assert("text"@[0] == 't');
        assert("inet"@[0] == 'i');
    }
    assert("text"@ != "_box"@) by {
        assert("text"@[0] == 't');
        assert("_box"@[0] == '_');
    }
    assert("text"@ != "_oid"@) by {
        assert("text"@[0] == 't');
        assert("_oid"@[0] == '_');
    }
    assert("text"@ != "date"@) by {
        assert("text"@[0] == 't');
        assert("date"@[0] == 'd');
    }
    assert("text"@ != "time"@) by {
        assert("text"@[1] == 'e');
        assert("time"@[1] == 'i');
    }
    assert("text"@ != "_bit"@) by {
        assert("text"@[0] == 't');
        assert("_bit"@[0] == '_');
    }
    assert("text"@ != "uuid"@) by {
        assert("text"@[0] == 't');
        assert("uuid"@[0] == 'u');
    }
    assert("oid"@ != "box"@) by {
        assert("oid"@[0] == 'o');
        assert("box"@[0] == 'b');
    }
    assert("oid"@ != "bit"@) by {
        assert("oid"@[0] == 'o');
        assert("bit"@[0] == 'b');
    }
    assert("json"@ != "lseg"@) by {
        assert("json"@[0] == 'j');
        assert("lseg"@[0] == 'l');
    }
    assert("json"@ != "path"@) by {
        assert("json"@[0] == 'j');
        assert("path"@[0] == 'p');
    }
    assert("json"@ != "line"@) by {
        assert("json"@[0] == 'j');
        assert("line"@[0] == 'l');
    }
    assert("json"@ != "cidr"@) by {
        assert("json"@[0] == 'j');
        assert("cidr"@[0] == 'c');
    }
    assert("json"@ != "inet"@) by {
        assert("json"@[0] == 'j');
        assert("inet"@[0] == 'i');
    }
    assert("json"@ != "_box"@) by {
        assert("json"@[0] == 'j');
        assert("_box"@[0] == '_');
    }
    assert("json"@ != "_oid"@) by {
        assert("json"@[0] == 'j');
        assert("_oid"@[0] == '_');
    }
    assert("json"@ != "date"@) by {
        assert("json"@[0] == 'j');
        assert("date"@[0] == 'd');
    }
    assert("json"@ != "time"@) by {
        assert("json"@[0] == 'j');
        assert("time"@[0] == 't');
    }
    assert("json"@ != "_bit"@) by {
        assert("json"@[0] == 'j');
        assert("_bit"@[0] == '_');
    }
    assert("json"@ != "uuid"@) by {
        assert("json"@[0] == 'j');
        assert("uuid"@[0] == 'u');
    }
    assert("_json"@ != "point"@) by {
        assert("_json"@[0] == '_');
        assert("point"@[0] == 'p');
    }
    assert("_json"@ != "_line"@) by {
        assert("_json"@[1] == 'j');
        assert("_line"@[1] == 'l');
    }
    assert("_json"@ != "_cidr"@) by {
        assert("_json"@[1] == 'j');
        assert("_cidr"@[1] == 'c');
    }
    assert("_json"@ != "_bool"@) by {
        assert("_json"@[1] == 'j');
        assert("_bool"@[1] == 'b');
    }
    assert("_json"@ != "_char"@) by {
        assert("_json"@[1] == 'j');
        assert("_char"@[1] == 'c');
    }
    assert("_json"@ != "_name"@) by {
        assert("_json"@[1] == 'j');
        assert("_name"@[1] == 'n');
    }
    assert("_json"@ != "_int2"@) by {
        assert("_json"@[1] == 'j');
        assert("_int2"@[1] == 'i');
    }
    assert("_json"@ != "_int4"@) by {
        assert("_json"@[1] == 'j');
        assert("_int4"@[1] == 'i');
    }
    assert("_json"@ != "_text"@) by {
        assert("_json"@[1] == 'j');
        assert("_text"@[1] == 't');
    }
    assert("_json"@ != "_int8"@) by {
        assert("_json"@[1] == 'j');
        assert("_int8"@[1] == 'i');
    }
    assert("_json"@ != "_lseg"@) by {
        assert("_json"@[1] == 'j');
        assert("_lseg"@[1] == 'l');
    }
    assert("_json"@ != "_path"@) by {
        assert("_json"@[1] == 'j');
        assert("_path"@[1] == 'p');
    }
    assert("_json"@ != "_inet"@) by {
        assert("_json"@[1] == 'j');
        assert("_inet"@[1] == 'i');
    }
    assert("_json"@ != "_date"@) by {
        assert("_json"@[1] == 'j');
        assert("_date"@[1] == 'd');
    }
    assert("_json"@ != "_time"@) by {
        assert("_json"@[1] == 'j');
        assert("_time"@[1] == 't');
    }
    assert("_json"@ != "_uuid"@) by {
        assert("_json"@[1] == 'j');
        assert("_uuid"@[1] == 'u');
    }
    assert("_json"@ != "jsonb"@) by {
        assert("_json"@[0] == '_');
        assert("jsonb"@[0] == 'j');
    }
    assert("point"@ != "_line"@) by {
        assert("point"@[0] == 'p');
        assert("_line"@[0] == '_');
    }
    assert("point"@ != "_cidr"@) by {
        assert("point"@[0] == 'p');
        assert("_cidr"@[0] == '_');
    }
    assert("point"@ != "_bool"@) by {
        assert("point"@[0] == 'p');
        assert("_bool"@[0] == '_');
    }
    assert("point"@ != "_char"@) by {
        assert("point"@[0] == 'p');
        assert("_char"@[0] == '_');
    }
    assert("point"@ != "_name"@) by {
        assert("point"@[0] == 'p');
        assert("_name"@[0] == '_');
    }
    assert("point"@ != "_int2"@) by {
        assert("point"@[0] == 'p');
        assert("_int2"@[0] == '_');
    }
    assert("point"@ != "_int4"@) by {
        assert("point"@[0] == 'p');
        assert("_int4"@[0] == '_');
    }
    assert("point"@ != "_text"@) by {
        assert("point"@[0] == 'p');
        assert("_text"@[0] == '_');
    }
    assert("point"@ != "_int8"@) by {
        assert("point"@[0] == 'p');
        assert("_int8"@[0] == '_');
    }
    assert("point"@ != "_lseg"@) by {
        assert("point"@[0] == 'p');
        assert("_lseg"@[0] == '_');
    }
    assert("point"@ != "_path"@) by {
        assert("point"@[0] == 'p');
        assert("_path"@[0] == '_');
    }
    assert("point"@ != "_inet"@) by {
        assert("point"@[0] == 'p');
        assert("_inet"@[0] == '_');
    }
    assert("point"@ != "_date"@) by {
        assert("point"@[0] == 'p');
        assert("_date"@[0] == '_');
    }
    assert("point"@ != "_time"@) by {
        assert("point"@[0] == 'p');
        assert("_time"@[0] == '_');
    }
    assert("point"@ != "_uuid"@) by {
        assert("point"@[0] == 'p');
        assert("_uuid"@[0] == '_');
    }
    assert("point"@ != "jsonb"@) by {
        assert("point"@[0] == 'p');
        assert("jsonb"@[0] == 'j');
    }
    assert("lseg"@ != "path"@) by {
        assert("lseg"@[0] == 'l');
        assert("path"@[0] == 'p');
    }
    assert("lseg"@ != "line"@) by {
        assert("lseg"@[1] == 's');
        assert("line"@[1] == 'i');
    }
    assert("lseg"@ != "cidr"@) by {
        assert("lseg"@[0] == 'l');
        assert("cidr"@[0] == 'c');
    }
    assert("lseg"@ != "inet"@) by {
        assert("lseg"@[0] == 'l');
        assert("inet"@[0] == 'i');
    }
    assert("lseg"@ != "_box"@) by {
        assert("lseg"@[0] == 'l');
        assert("_box"@[0] == '_');
    }
    assert("lseg"@ != "_oid"@) by {
        assert("lseg"@[0] == 'l');
        assert("_oid"@[0] == '_');
    }
    assert("lseg"@ != "date"@) by {
        assert("lseg"@[0] == 'l');
        assert("date"@[0] == 'd');
    }
    assert("lseg"@ != "time"@) by {
        assert("lseg"@[0] == 'l');
        assert("time"@[0] == 't');
    }
    assert("lseg"@ != "_bit"@) by {
        assert("lseg"@[0] == 'l');
        assert("_bit"@[0] == '_');
    }
    assert("lseg"@ != "uuid"@) by {
        assert("lseg"@[0] == 'l');
        assert("uuid"@[0] == 'u');
    }
    assert("path"@ != "line"@) by {
        assert("path"@[0] == 'p');
        assert("line"@[0] == 'l');
    }
    assert("path"@ != "cidr"@) by {
        assert("path"@[0] == 'p');
        assert("cidr"@[0] == 'c');
    }
    assert("path"@ != "inet"@) by {
        assert("path"@[0] == 'p');
        assert("inet"@[0] == 'i');
    }
    assert("path"@ != "_box"@) by {
        assert("path"@[0] == 'p');
        assert("_box"@[0] == '_');
    }
    assert("path"@ != "_oid"@) by {
        assert("path"@[0] == 'p');
        assert("_oid"@[0] == '_');
    }
    assert("path"@ != "date"@) by {
        assert("path"@[0] == 'p');
        assert("date"@[0] == 'd');
    }
    assert("path"@ != "time"@) by {
        assert("path"@[0] == 'p');
        assert("time"@[0] == 't');
    }
    assert("path"@ != "_bit"@) by {
        assert("path"@[0] == 'p');
        assert("_bit"@[0] == '_');
    }
    assert("path"@ != "uuid"@) by {
        assert("path"@[0] == 'p');
        assert("uuid"@[0] == 'u');
    }
    assert("box"@ != "bit"@) by {
        assert("box"@[1] == 'o');
        assert("bit"@[1] == 'i');
    }
    assert("polygon"@ != "unknown"@) by {
        assert("polygon"@[0] == 'p');
        assert("unknown"@[0] == 'u');
    }
    assert("polygon"@ != "_circle"@) by {
        assert("polygon"@[0] == 'p');
        assert("_circle"@[0] == '_');
    }
    assert("polygon"@ != "macaddr"@) by {
        assert("polygon"@[0] == 'p');
        assert("macaddr"@[0] == 'm');
    }
    assert("polygon"@ != "_bpchar"@) by {
        assert("polygon"@[0] == 'p');
        assert("_bpchar"@[0] == '_');
    }
    assert("polygon"@ != "_float4"@) by {
        assert("polygon"@[0] == 'p');
        assert("_float4"@[0] == '_');
    }
    assert("polygon"@ != "_float8"@) by {
        assert("polygon"@[0] == 'p');
        assert("_float8"@[0] == '_');
    }
    assert("polygon"@ != "varchar"@) by {
        assert("polygon"@[0] == 'p');
        assert("varchar"@[0] == 'v');
    }
    assert("polygon"@ != "_timetz"@) by {
        assert("polygon"@[0] == 'p');
        assert("_timetz"@[0] == '_');
    }
    assert("polygon"@ != "_varbit"@) by {
        assert("polygon"@[0] == 'p');
        assert("_varbit"@[0] == '_');
    }
    assert("polygon"@ != "numeric"@) by {
        assert("polygon"@[0] == 'p');
        assert("numeric"@[0] == 'n');
    }
    assert("polygon"@ != "_record"@) by {
        assert("polygon"@[0] == 'p');
        assert("_record"@[0] == '_');
    }
    assert("polygon"@ != "tsrange"@) by {
        assert("polygon"@[0] == 'p');
        assert("tsrange"@[0] == 't');
    }
    assert("line"@ != "cidr"@) by {
        assert("line"@[0] == 'l');
        assert("cidr"@[0] == 'c');
    }
    assert("line"@ != "inet"@) by {
        assert("line"@[0] == 'l');
        assert("inet"@[0] == 'i');
    }
    assert("line"@ != "_box"@) by {
        assert("line"@[0] == 'l');
        assert("_box"@[0] == '_');
    }
    assert("line"@ != "_oid"@) by {
        assert("line"@[0] == 'l');
        assert("_oid"@[0] == '_');
    }
    assert("line"@ != "date"@) by {
        assert("line"@[0] == 'l');
        assert("date"@[0] == 'd');
    }
    assert("line"@ != "time"@) by {
        assert("line"@[0] == 'l');
        assert("time"@[0] == 't');
    }
    assert("line"@ != "_bit"@) by {
        assert("line"@[0] == 'l');
        assert("_bit"@[0] == '_');
    }
    assert("line"@ != "uuid"@) by {
        assert("line"@[0] == 'l');
        assert("uuid"@[0] == 'u');
    }
    assert("_line"@ != "_cidr"@) by {
        assert("_line"@[1] == 'l');
        assert("_cidr"@[1] == 'c');
    }
    assert("_line"@ != "_bool"@) by {
        assert("_line"@[1] == 'l');
        assert("_bool"@[1] == 'b');
    }
    assert("_line"@ != "_char"@) by {
        assert("_line"@[1] == 'l');
        assert("_char"@[1] == 'c');
    }
    assert("_line"@ != "_name"@) by {
        assert("_line"@[1] == 'l');
        assert("_name"@[1] == 'n');
    }
    assert("_line"@ != "_int2"@) by {
        assert("_line"@[1] == 'l');
        assert("_int2"@[1] == 'i');
    }
    assert("_line"@ != "_int4"@) by {
        assert("_line"@[1] == 'l');
        assert("_int4"@[1] == 'i');
    }
    assert("_line"@ != "_text"@) by {
        assert("_line"@[1] == 'l');
        assert("_text"@[1] == 't');
    }
    assert("_line"@ != "_int8"@) by {
        assert("_line"@[1] == 'l');
        assert("_int8"@[1] == 'i');
    }
    assert("_line"@ != "_lseg"@) by {
        assert("_line"@[2] == 'i');
        assert("_lseg"@[2] == 's');
    }
    assert("_line"@ != "_path"@) by {
        assert("_line"@[1] == 'l');
        assert("_path"@[1] == 'p');
    }
    assert("_line"@ != "_inet"@) by {
        assert("_line"@[1] == 'l');
        assert("_inet"@[1] == 'i');
    }
    assert("_line"@ != "_date"@) by {
        assert("_line"@[1] == 'l');
        assert("_date"@[1] == 'd');
    }
    assert("_line"@ != "_time"@) by {
        assert("_line"@[1] == 'l');
        assert("_time"@[1] == 't');
    }
    assert("_line"@ != "_uuid"@) by {
        assert("_line"@[1] == 'l');
        assert("_uuid"@[1] == 'u');
    }
    assert("_line"@ != "jsonb"@) by {
        assert("_line"@[0] == '_');
        assert("jsonb"@[0] == 'j');
    }
    assert("cidr"@ != "inet"@) by {
        assert("cidr"@[0] == 'c');
        assert("inet"@[0] == 'i');
    }
    assert("cidr"@ != "_box"@) by {
        assert("cidr"@[0] == 'c');
        assert("_box"@[0] == '_');
    }
    assert("cidr"@ != "_oid"@) by {
        assert("cidr"@[0] == 'c');
        assert("_oid"@[0] == '_');
    }
    assert("cidr"@ != "date"@) by {
        assert("cidr"@[0] == 'c');
        assert("date"@[0] == 'd');
    }
    assert("cidr"@ != "time"@) by {
        assert("cidr"@[0] == 'c');
        assert("time"@[0] == 't');
    }
    assert("cidr"@ != "_bit"@) by {
        assert("cidr"@[0] == 'c');
        assert("_bit"@[0] == '_');
    }
    assert("cidr"@ != "uuid"@) by {
        assert("cidr"@[0] == 'c');
        assert("uuid"@[0] == 'u');
    }
    assert("_cidr"@ != "_bool"@) by {
        assert("_cidr"@[1] == 'c');
        assert("_bool"@[1] == 'b');
    }
    assert("_cidr"@ != "_char"@) by {
        assert("_cidr"@[2] == 'i');
        assert("_char"@[2] == 'h');
    }
    assert("_cidr"@ != "_name"@) by {
        assert("_cidr"@[1] == 'c');
        assert("_name"@[1] == 'n');
    }
    assert("_cidr"@ != "_int2"@) by {
        assert("_cidr"@[1] == 'c');
        assert("_int2"@[1] == 'i');
    }
    assert("_cidr"@ != "_int4"@) by {
        assert("_cidr"@[1] == 'c');
        assert("_int4"@[1] == 'i');
    }
    assert("_cidr"@ != "_text"@) by {
        assert("_cidr"@[1] == 'c');
        assert("_text"@[1] == 't');
    }
    assert("_cidr"@ != "_int8"@) by {
        assert("_cidr"@[1] == 'c');
        assert("_int8"@[1] == 'i');
    }
    assert("_cidr"@ != "_lseg"@) by {
        assert("_cidr"@[1] == 'c');
        assert("_lseg"@[1] == 'l');
    }
    assert("_cidr"@ != "_path"@) by {
        assert("_cidr"@[1] == 'c');
        assert("_path"@[1] == 'p');
    }
    assert("_cidr"@ != "_inet"@) by {
        assert("_cidr"@[1] == 'c');
        assert("_inet"@[1] == 'i');
    }
    assert("_cidr"@ != "_date"@) by {
        assert("_cidr"@[1] == 'c');
        assert("_date"@[1] == 'd');
    }
    assert("_cidr"@ != "_time"@) by {
        assert("_cidr"@[1] == 'c');
        assert("_time"@[1] == 't');
    }
    assert("_cidr"@ != "_uuid"@) by {
        assert("_cidr"@[1] == 'c');
        assert("_uuid"@[1] == 'u');
    }
    assert("_cidr"@ != "jsonb"@) by {
        assert("_cidr"@[0] == '_');
        assert("jsonb"@[0] == 'j');
    }
    assert("float4"@ != "float8"@) by {
        assert("float4"@[5] == '4');
        assert("float8"@[5] == '8');
    }
    assert("float4"@ != "circle"@) by {
        assert("float4"@[0] == 'f');
        assert("circle"@[0] == 'c');
    }
    assert("float4"@ != "_bytea"@) by {
        assert("float4"@[0] == 'f');
        assert("_bytea"@[0] == '_');
    }
    assert("float4"@ != "_point"@) by {
        assert("float4"@[0] == 'f');
        assert("_point"@[0] == '_');
    }
    assert("float4"@ != "bpchar"@) by {
        assert("float4"@[0] == 'f');
        assert("bpchar"@[0] == 'b');
    }
    assert("float4"@ != "timetz"@) by {
        assert("float4"@[0] == 'f');
        assert("timetz"@[0] == 't');
    }
    assert("float4"@ != "varbit"@) by {
        assert("float4"@[0] == 'f');
        assert("varbit"@[0] == 'v');
    }
    assert("float4"@ != "record"@) by {
        assert("float4"@[0] == 'f');
        assert("record"@[0] == 'r');
    }
    assert("float4"@ != "_jsonb"@) by {
        assert("float4"@[0] == 'f');
        assert("_jsonb"@[0] == '_');
    }
    assert("float8"@ != "circle"@) by {
        assert("float8"@[0] == 'f');
        assert("circle"@[0] == 'c');
    }
    assert("float8"@ != "_bytea"@) by {
        assert("float8"@[0] == 'f');
        assert("_bytea"@[0] == '_');
    }
    assert("float8"@ != "_point"@) by {
        assert("float8"@[0] == 'f');
        assert("_point"@[0] == '_');
    }
    assert("float8"@ != "bpchar"@) by {
        assert("float8"@[0] == 'f');
        assert("bpchar"@[0] == 'b');
    }
    assert("float8"@ != "timetz"@) by {
        assert("float8"@[0] == 'f');
        assert("timetz"@[0] == 't');
    }
    assert("float8"@ != "varbit"@) by {
        assert("float8"@[0] == 'f');
        assert("varbit"@[0] == 'v');
    }
    assert("float8"@ != "record"@) by {
        assert("float8"@[0] == 'f');
        assert("record"@[0] == 'r');
    }
    assert("float8"@ != "_jsonb"@) by {
        assert("float8"@[0] == 'f');
        assert("_jsonb"@[0] == '_');
    }
    assert("unknown"@ != "_circle"@) by {
        assert("unknown"@[0] == 'u');
        assert("_circle"@[0] == '_');
    }
    assert("unknown"@ != "macaddr"@) by {
        assert("unknown"@[0] == 'u');
        assert("macaddr"@[0] == 'm');
    }
    assert("unknown"@ != "_bpchar"@) by {
        assert("unknown"@[0] == 'u');
        assert("_bpchar"@[0] == '_');
    }
    assert("unknown"@ != "_float4"@) by {
        assert("unknown"@[0] == 'u');
        assert("_float4"@[0] == '_');
    }
    assert("unknown"@ != "_float8"@) by {
        assert("unknown"@[0] == 'u');
        assert("_float8"@[0] == '_');
    }
    assert("unknown"@ != "varchar"@) by {
        assert("unknown"@[0] == 'u');
        assert("varchar"@[0] == 'v');
    }
    assert("unknown"@ != "_timetz"@) by {
        assert("unknown"@[0] == 'u');
        assert("_timetz"@[0] == '_');
    }
    assert("unknown"@ != "_varbit"@) by {
        assert("unknown"@[0] == 'u');
        assert("_varbit"@[0] == '_');
    }
    assert("unknown"@ != "numeric"@) by {
        assert("unknown"@[0] == 'u');
        assert("numeric"@[0] == 'n');
    }
    assert("unknown"@ != "_record"@) by {
        assert("unknown"@[0] == 'u');
        assert("_record"@[0] == '_');
    }
    assert("unknown"@ != "tsrange"@) by {
        assert("unknown"@[0] == 'u');
        assert("tsrange"@[0] == 't');
    }
    assert("circle"@ != "_bytea"@) by {
        assert("circle"@[0] == 'c');
        assert("_bytea"@[0] == '_');
    }
    assert("circle"@ != "_point"@) by {
        assert("circle"@[0] == 'c');
        assert("_point"@[0] == '_');
    }
    assert("circle"@ != "bpchar"@) by {
        assert("circle"@[0] == 'c');
        assert("bpchar"@[0] == 'b');
    }
    assert("circle"@ != "timetz"@) by {
        assert("circle"@[0] == 'c');
        assert("timetz"@[0] == 't');
    }
    assert("circle"@ != "varbit"@) by {
        assert("circle"@[0] == 'c');
        assert("varbit"@[0] == 'v');
    }
    assert("circle"@ != "record"@) by {
        assert("circle"@[0] == 'c');
        assert("record"@[0] == 'r');
    }
    assert("circle"@ != "_jsonb"@) by {
        assert("circle"@[0] == 'c');
        assert("_jsonb"@[0] == '_');
    }
    assert("_circle"@ != "macaddr"@) by {
        assert("_circle"@[0] == '_');
        assert("macaddr"@[0] == 'm');
    }
    assert("_circle"@ != "_bpchar"@) by {
        assert("_circle"@[1] == 'c');
        assert("_bpchar"@[1] == 'b');
    }
    assert("_circle"@ != "_float4"@) by {
        assert("_circle"@[1] == 'c');
        assert("_float4"@[1] == 'f');
    }
    assert("_circle"@ != "_float8"@) by {
        assert("_circle"@[1] == 'c');
        assert("_float8"@[1] == 'f');
    }
    assert("_circle"@ != "varchar"@) by {
        assert("_circle"@[0] == '_');
        assert("varchar"@[0] == 'v');
    }
    assert("_circle"@ != "_timetz"@) by {
        assert("_circle"@[1] == 'c');
        assert("_timetz"@[1] == 't');
    }
    assert("_circle"@ != "_varbit"@) by {
        assert("_circle"@[1] == 'c');
        assert("_varbit"@[1] == 'v');
    }
    assert("_circle"@ != "numeric"@) by {
        assert("_circle"@[0] == '_');
        assert("numeric"@[0] == 'n');
    }
    assert("_circle"@ != "_record"@) by {
        assert("_circle"@[1] == 'c');
        assert("_record"@[1] == 'r');
    }
    assert("_circle"@ != "tsrange"@) by {
        assert("_circle"@[0] == '_');
        assert("tsrange"@[0] == 't');
    }
    assert("macaddr8"@ != "_varchar"@) by {
        assert("macaddr8"@[0] == 'm');
        assert("_varchar"@[0] == '_');
    }
    assert("macaddr8"@ != "_polygon"@) by {
        assert("macaddr8"@[0] == 'm');
        assert("_polygon"@[0] == '_');
    }
    assert("macaddr8"@ != "_macaddr"@) by {
        assert("macaddr8"@[0] == 'm');
        assert("_macaddr"@[0] == '_');
    }
    assert("macaddr8"@ != "_numeric"@) by {
        assert("macaddr8"@[0] == 'm');
        assert("_numeric"@[0] == '_');
    }
    assert("macaddr8"@ != "interval"@) by {
        assert("macaddr8"@[0] == 'm');
        assert("interval"@[0] == 'i');
    }
    assert("macaddr8"@ != "numrange"@) by {
        assert("macaddr8"@[0] == 'm');
        assert("numrange"@[0] == 'n');
    }
    assert("macaddr8"@ != "_tsrange"@) by {
        assert("macaddr8"@[0] == 'm');
        assert("_tsrange"@[0] == '_');
    }
    assert("macaddr8"@ != "jsonpath"@) by {
        assert("macaddr8"@[0] == 'm');
        assert("jsonpath"@[0] == 'j');
    }
    assert("_macaddr8"@ != "timestamp"@) by {
        assert("_macaddr8"@[0] == '_');
        assert("timestamp"@[0] == 't');
    }
    assert("_macaddr8"@ != "int4range"@) by {
        assert("_macaddr8"@[0] == '_');
        assert("int4range"@[0] == 'i');
    }
    assert("_macaddr8"@ != "_numrange"@) by {
        assert("_macaddr8"@[1] == 'm');
        assert("_numrange"@[1] == 'n');
    }
    assert("_macaddr8"@ != "tstzrange"@) by {
        assert("_macaddr8"@[0] == '_');
        assert("tstzrange"@[0] == 't');
    }
    assert("_macaddr8"@ != "daterange"@) by {
        assert("_macaddr8"@[0] == '_');
        assert("daterange"@[0] == 'd');
    }
    assert("_macaddr8"@ != "int8range"@) by {
        assert("_macaddr8"@[0] == '_');
        assert("int8range"@[0] == 'i');
    }
    assert("_macaddr8"@ != "_jsonpath"@) by {
        assert("_macaddr8"@[1] == 'm');
        assert("_jsonpath"@[1] == 'j');
    }
    assert("macaddr"@ != "_bpchar"@) by {
        assert("macaddr"@[0] == 'm');
        assert("_bpchar"@[0] == '_');
    }
    assert("macaddr"@ != "_float4"@) by {
        assert("macaddr"@[0] == 'm');
        assert("_float4"@[0] == '_');
    }
    assert("macaddr"@ != "_float8"@) by {
        assert("macaddr"@[0] == 'm');
        assert("_float8"@[0] == '_');
    }
    assert("macaddr"@ != "varchar"@) by {
        assert("macaddr"@[0] == 'm');
        assert("varchar"@[0] == 'v');
    }
    assert("macaddr"@ != "_timetz"@) by {
        assert("macaddr"@[0] == 'm');
        assert("_timetz"@[0] == '_');
    }
    assert("macaddr"@ != "_varbit"@) by {
        assert("macaddr"@[0] == 'm');
        assert("_varbit"@[0] == '_');
    }
    assert("macaddr"@ != "numeric"@) by {
        assert("macaddr"@[0] == 'm');
        assert("numeric"@[0] == 'n');
    }
    assert("macaddr"@ != "_record"@) by {
        assert("macaddr"@[0] == 'm');
        assert("_record"@[0] == '_');
    }
    assert("macaddr"@ != "tsrange"@) by {
        assert("macaddr"@[0] == 'm');
        assert("tsrange"@[0] == 't');
    }
    assert("inet"@ != "_box"@) by {
        assert("inet"@[0] == 'i');
        assert("_box"@[0] == '_');
    }
    assert("inet"@ != "_oid"@) by {
        assert("inet"@[0] == 'i');
        assert("_oid"@[0] == '_');
    }
    assert("inet"@ != "date"@) by {
        assert("inet"@[0] == 'i');
        assert("date"@[0] == 'd');
    }
    assert("inet"@ != "time"@) by {
        assert("inet"@[0] == 'i');
        assert("time"@[0] == 't');
    }
    assert("inet"@ != "_bit"@) by {
        assert("inet"@[0] == 'i');
        assert("_bit"@[0] == '_');
    }
    assert("inet"@ != "uuid"@) by {
        assert("inet"@[0] == 'i');
        assert("uuid"@[0] == 'u');
    }
    assert("_bool"@ != "_char"@) by {
        assert("_bool"@[1] == 'b');
        assert("_char"@[1] == 'c');
    }
    assert("_bool"@ != "_name"@) by {
        assert("_bool"@[1] == 'b');
        assert("_name"@[1] == 'n');
    }
    assert("_bool"@ != "_int2"@) by {
        assert("_bool"@[1] == 'b');
        assert("_int2"@[1] == 'i');
    }
    assert("_bool"@ != "_int4"@) by {
        assert("_bool"@[1] == 'b');
        assert("_int4"@[1] == 'i');
    }
    assert("_bool"@ != "_text"@) by {
        assert("_bool"@[1] == 'b');
        assert("_text"@[1] == 't');
    }
    assert("_bool"@ != "_int8"@) by {
        assert("_bool"@[1] == 'b');
        assert("_int8"@[1] == 'i');
    }
    assert("_bool"@ != "_lseg"@) by {
        assert("_bool"@[1] == 'b');
        assert("_lseg"@[1] == 'l');
    }
    assert("_bool"@ != "_path"@) by {
        assert("_bool"@[1] == 'b');
        assert("_path"@[1] == 'p');
    }
    assert("_bool"@ != "_inet"@) by {
        assert("_bool"@[1] == 'b');
        assert("_inet"@[1] == 'i');
    }
    assert("_bool"@ != "_date"@) by {
        assert("_bool"@[1] == 'b');
        assert("_date"@[1] == 'd');
    }
    assert("_bool"@ != "_time"@) by {
        assert("_bool"@[1] == 'b');
        assert("_time"@[1] == 't');
    }
    assert("_bool"@ != "_uuid"@) by {
        assert("_bool"@[1] == 'b');
        assert("_uuid"@[1] == 'u');
    }
    assert("_bool"@ != "jsonb"@) by {
        assert("_bool"@[0] == '_');
        assert("jsonb"@[0] == 'j');
    }
    assert("_bytea"@ != "_point"@) by {
        assert("_bytea"@[1] == 'b');
        assert("_point"@[1] == 'p');
    }
    assert("_bytea"@ != "bpchar"@) by {
        assert("_bytea"@[0] == '_');
        assert("bpchar"@[0] == 'b');
    }
    assert("_bytea"@ != "timetz"@) by {
        assert("_bytea"@[0] == '_');
        assert("timetz"@[0] == 't');
    }
    assert("_bytea"@ != "varbit"@) by {
        assert("_bytea"@[0] == '_');
        assert("varbit"@[0] == 'v');
    }
    assert("_bytea"@ != "record"@) by {
        assert("_bytea"@[0] == '_');
        assert("record"@[0] == 'r');
    }
    assert("_bytea"@ != "_jsonb"@) by {
        assert("_bytea"@[1] == 'b');
        assert("_jsonb"@[1] == 'j');
    }
    assert("_char"@ != "_name"@) by {
        assert("_char"@[1] == 'c');
        assert("_name"@[1] == 'n');
    }
    assert("_char"@ != "_int2"@) by {
        assert("_char"@[1] == 'c');
        assert("_int2"@[1] == 'i');
    }
    assert("_char"@ != "_int4"@) by {
        assert("_char"@[1] == 'c');
        assert("_int4"@[1] == 'i');
    }
    assert("_char"@ != "_text"@) by {
        assert("_char"@[1] == 'c');
        assert("_text"@[1] == 't');
    }
    assert("_char"@ != "_int8"@) by {
        assert("_char"@[1] == 'c');
        assert("_int8"@[1] == 'i');
    }
    assert("_char"@ != "_lseg"@) by {
        assert("_char"@[1] == 'c');
        assert("_lseg"@[1] == 'l');
    }
    assert("_char"@ != "_path"@) by {
        assert("_char"@[1] == 'c');
        assert("_path"@[1] == 'p');
    }
    assert("_char"@ != "_inet"@) by {
        assert("_char"@[1] == 'c');
        assert("_inet"@[1] == 'i');
    }
    assert("_char"@ != "_date"@) by {
        assert("_char"@[1] == 'c');
        assert("_date"@[1] == 'd');
    }
    assert("_char"@ != "_time"@) by {
        assert("_char"@[1] == 'c');
        assert("_time"@[1] == 't');
    }
    assert("_char"@ != "_uuid"@) by {
        assert("_char"@[1] == 'c');
        assert("_uuid"@[1] == 'u');
    }
    assert("_char"@ != "jsonb"@) by {
        assert("_char"@[0] == '_');
        assert("jsonb"@[0] == 'j');
    }
    assert("_name"@ != "_int2"@) by {
        assert("_name"@[1] == 'n');
        assert("_int2"@[1] == 'i');
    }
    assert("_name"@ != "_int4"@) by {
        assert("_name"@[1] == 'n');
        assert("_int4"@[1] == 'i');
    }
    assert("_name"@ != "_text"@) by {
        assert("_name"@[1] == 'n');
        assert("_text"@[1] == 't');
    }
    assert("_name"@ != "_int8"@) by {
        assert("_name"@[1] == 'n');
        assert("_int8"@[1] == 'i');
    }
    assert("_name"@ != "_lseg"@) by {
        assert("_name"@[1] == 'n');
        assert("_lseg"@[1] == 'l');
    }
    assert("_name"@ != "_path"@) by {
        assert("_name"@[1] == 'n');
        assert("_path"@[1] == 'p');
    }
    assert("_name"@ != "_inet"@) by {
        assert("_name"@[1] == 'n');
        assert("_inet"@[1] == 'i');
    }
    assert("_name"@ != "_date"@) by {
        assert("_name"@[1] == 'n');
        assert("_date"@[1] == 'd');
    }
    assert("_name"@ != "_time"@) by {
        assert("_name"@[1] == 'n');
        assert("_time"@[1] == 't');
    }
    assert("_name"@ != "_uuid"@) by {
        assert("_name"@[1] == 'n');
        assert("_uuid"@[1] == 'u');
    }
    assert("_name"@ != "jsonb"@) by {
        assert("_name"@[0] == '_');
        assert("jsonb"@[0] == 'j');
    }
    assert("_int2"@ != "_int4"@) by {
        assert("_int2"@[4] == '2');
        assert("_int4"@[4] == '4');
    }
    assert("_int2"@ != "_text"@) by {
        assert("_int2"@[1] == 'i');
        assert("_text"@[1] == 't');
    }
    assert("_int2"@ != "_int8"@) by {
        assert("_int2"@[4] == '2');
        assert("_int8"@[4] == '8');
    }
    assert("_int2"@ != "_lseg"@) by {
        assert("_int2"@[1] == 'i');
        assert("_lseg"@[1] == 'l');
    }
    assert("_int2"@ != "_path"@) by {
        assert("_int2"@[1] == 'i');
        assert("_path"@[1] == 'p');
    }
    assert("_int2"@ != "_inet"@) by {
        assert("_int2"@[3] == 't');
        assert("_inet"@[3] == 'e');
    }
    assert("_int2"@ != "_date"@) by {
        assert("_int2"@[1] == 'i');
        assert("_date"@[1] == 'd');
    }
    assert("_int2"@ != "_time"@) by {
        assert("_int2"@[1] == 'i');
        assert("_time"@[1] == 't');
    }
    assert("_int2"@ != "_uuid"@) by {
        assert("_int2"@[1] == 'i');
        assert("_uuid"@[1] == 'u');
    }
    assert("_int2"@ != "jsonb"@) by {
        assert("_int2"@[0] == '_');
        assert("jsonb"@[0] == 'j');
    }
    assert("_int4"@ != "_text"@) by {
        assert("_int4"@[1] == 'i');
        assert("_text"@[1] == 't');
    }
    assert("_int4"@ != "_int8"@) by {
        assert("_int4"@[4] == '4');
        assert("_int8"@[4] == '8');
    }
    assert("_int4"@ != "_lseg"@) by {
        assert("_int4"@[1] == 'i');
        assert("_lseg"@[1] == 'l');
    }
    assert("_int4"@ != "_path"@) by {
        assert("_int4"@[1] == 'i');
        assert("_path"@[1] == 'p');
    }
    assert("_int4"@ != "_inet"@) by {
        assert("_int4"@[3] == 't');
        assert("_inet"@[3] == 'e');
    }
    assert("_int4"@ != "_date"@) by {
        assert("_int4"@[1] == 'i');
        assert("_date"@[1] == 'd');
    }
    assert("_int4"@ != "_time"@) by {
        assert("_int4"@[1] == 'i');
        assert("_time"@[1] == 't');
    }
    assert("_int4"@ != "_uuid"@) by {
        assert("_int4"@[1] == 'i');
        assert("_uuid"@[1] == 'u');
    }
    assert("_int4"@ != "jsonb"@) by {
        assert("_int4"@[0] == '_');
        assert("jsonb"@[0] == 'j');
    }
    assert("_text"@ != "_int8"@) by {
        assert("_text"@[1] == 't');
        assert("_int8"@[1] == 'i');
    }
    assert("_text"@ != "_lseg"@) by {
        assert("_text"@[1] == 't');
        assert("_lseg"@[1] == 'l');
    }
    assert("_text"@ != "_path"@) by {
        assert("_text"@[1] == 't');
        assert("_path"@[1] == 'p');
    }
    assert("_text"@ != "_inet"@) by {
        assert("_text"@[1] == 't');
        assert("_inet"@[1] == 'i');
    }
    assert("_text"@ != "_date"@) by {
        assert("_text"@[1] == 't');
        assert("_date"@[1] == 'd');
    }
    assert("_text"@ != "_time"@) by {
        assert("_text"@[2] == 'e');
        assert("_time"@[2] == 'i');
    }
    assert("_text"@ != "_uuid"@) by {
        assert("_text"@[1] == 't');
        assert("_uuid"@[1] == 'u');
    }
    assert("_text"@ != "jsonb"@) by {
        assert("_text"@[0] == '_');
        assert("jsonb"@[0] == 'j');
    }
    assert("_bpchar"@ != "_float4"@) by {
        assert("_bpchar"@[1] == 'b');
        assert("_float4"@[1] == 'f');
    }
    assert("_bpchar"@ != "_float8"@) by {
        assert("_bpchar"@[1] == 'b');
        assert("_float8"@[1] == 'f');
    }
    assert("_bpchar"@ != "varchar"@) by {
        assert("_bpchar"@[0] == '_');
        assert("varchar"@[0] == 'v');
    }
    assert("_bpchar"@ != "_timetz"@) by {
        assert("_bpchar"@[1] == 'b');
        assert("_timetz"@[1] == 't');
    }
    assert("_bpchar"@ != "_varbit"@) by {
        assert("_bpchar"@[1] == 'b');
        assert("_varbit"@[1] == 'v');
    }
    assert("_bpchar"@ != "numeric"@) by {
        assert("_bpchar"@[0] == '_');
        assert("numeric"@[0] == 'n');
    }
    assert("_bpchar"@ != "_record"@) by {
        assert("_bpchar"@[1] == 'b');
        assert("_record"@[1] == 'r');
    }
    assert("_bpchar"@ != "tsrange"@) by {
        assert("_bpchar"@[0] == '_');
        assert("tsrange"@[0] == 't');
    }
    assert("_varchar"@ != "_polygon"@) by {
        assert("_varchar"@[1] == 'v');
        assert("_polygon"@[1] == 'p');
    }
    assert("_varchar"@ != "_macaddr"@) by {
        assert("_varchar"@[1] == 'v');
        assert("_macaddr"@[1] == 'm');
    }
    assert("_varchar"@ != "_numeric"@) by {
        assert("_varchar"@[1] == 'v');
        assert("_numeric"@[1] == 'n');
    }
    assert("_varchar"@ != "interval"@) by {
        assert("_varchar"@[0] == '_');
        assert("interval"@[0] == 'i');
    }
    assert("_varchar"@ != "numrange"@) by {
        assert("_varchar"@[0] == '_');
        assert("numrange"@[0] == 'n');
    }
    assert("_varchar"@ != "_tsrange"@) by {
        assert("_varchar"@[1] == 'v');
        assert("_tsrange"@[1] == 't');
    }
    assert("_varchar"@ != "jsonpath"@) by {
        assert("_varchar"@[0] == '_');
        assert("jsonpath"@[0] == 'j');
    }
    assert("_int8"@ != "_lseg"@) by {
        assert("_int8"@[1] == 'i');
        assert("_lseg"@[1] == 'l');
    }
    assert("_int8"@ != "_path"@) by {
        assert("_int8"@[1] == 'i');
        assert("_path"@[1] == 'p');
    }
    assert("_int8"@ != "_inet"@) by {
        assert("_int8"@[3] == 't');
        assert("_inet"@[3] == 'e');
    }
    assert("_int8"@ != "_date"@) by {
        assert("_int8"@[1] == 'i');
        assert("_date"@[1] == 'd');
    }
    assert("_int8"@ != "_time"@) by {
        assert("_int8"@[1] == 'i');
        assert("_time"@[1] == 't');
    }
    assert("_int8"@ != "_uuid"@) by {
        assert("_int8"@[1] == 'i');
        assert("_uuid"@[1] == 'u');
    }
    assert("_int8"@ != "jsonb"@) by {
        assert("_int8"@[0] == '_');
        assert("jsonb"@[0] == 'j');
    }
    assert("_point"@ != "bpchar"@) by {
        assert("_point"@[0] == '_');
        assert("bpchar"@[0] == 'b');
    }
    assert("_point"@ != "timetz"@) by {
        assert("_point"@[0] == '_');
        assert("timetz"@[0] == 't');
    }
    assert("_point"@ != "varbit"@) by {
        assert("_point"@[0] == '_');
        assert("varbit"@[0] == 'v');
    }
    assert("_point"@ != "record"@) by {
        assert("_point"@[0] == '_');
        assert("record"@[0] == 'r');
    }
    assert("_point"@ != "_jsonb"@) by {
        assert("_point"@[1] == 'p');
        assert("_jsonb"@[1] == 'j');
    }
    assert("_lseg"@ != "_path"@) by {
        assert("_lseg"@[1] == 'l');
        assert("_path"@[1] == 'p');
    }
    assert("_lseg"@ != "_inet"@) by {
        assert("_lseg"@[1] == 'l');
        assert("_inet"@[1] == 'i');
    }
    assert("_lseg"@ != "_date"@) by {
        assert("_lseg"@[1] == 'l');
        assert("_date"@[1] == 'd');
    }
    assert("_lseg"@ != "_time"@) by {
        assert("_lseg"@[1] == 'l');
        assert("_time"@[1] == 't');
    }
    assert("_lseg"@ != "_uuid"@) by {
        assert("_lseg"@[1] == 'l');
        assert("_uuid"@[1] == 'u');
    }
    assert("_lseg"@ != "jsonb"@) by {
        assert("_lseg"@[0] == '_');
        assert("jsonb"@[0] == 'j');
    }
    assert("_path"@ != "_inet"@) by {
        assert("_path"@[1] == 'p');
        assert("_inet"@[1] == 'i');
    }
    assert("_path"@ != "_date"@) by {
        assert("_path"@[1] == 'p');
        assert("_date"@[1] == 'd');
    }
    assert("_path"@ != "_time"@) by {
        assert("_path"@[1] == 'p');
        assert("_time"@[1] == 't');
    }
    assert("_path"@ != "_uuid"@) by {
        assert("_path"@[1] == 'p');
        assert("_uuid"@[1] == 'u');
    }
    assert("_path"@ != "jsonb"@) by {
        assert("_path"@[0] == '_');
        assert("jsonb"@[0] == 'j');
    }
    assert("_box"@ != "_oid"@) by {
        assert("_box"@[1] == 'b');
        assert("_oid"@[1] == 'o');
    }
    assert("_box"@ != "date"@) by {
        assert("_box"@[0] == '_');
        assert("date"@[0] == 'd');
    }
    assert("_box"@ != "time"@) by {
        assert("_box"@[0] == '_');
        assert("time"@[0] == 't');
    }
    assert("_box"@ != "_bit"@) by {
        assert("_box"@[2] == 'o');
        assert("_bit"@[2] == 'i');
    }
    assert("_box"@ != "uuid"@) by {
        assert("_box"@[0] == '_');
        assert("uuid"@[0] == 'u');
    }
    assert("_float4"@ != "_float8"@) by {
        assert("_float4"@[6] == '4');
        assert("_float8"@[6] == '8');
    }
    assert("_float4"@ != "varchar"@) by {
        assert("_float4"@[0] == '_');
        assert("varchar"@[0] == 'v');
    }
    assert("_float4"@ != "_timetz"@) by {
        assert("_float4"@[1] == 'f');
        assert("_timetz"@[1] == 't');
    }
    assert("_float4"@ != "_varbit"@) by {
        assert("_float4"@[1] == 'f');
        assert("_varbit"@[1] == 'v');
    }
    assert("_float4"@ != "numeric"@) by {
        assert("_float4"@[0] == '_');
        assert("numeric"@[0] == 'n');
    }
    assert("_float4"@ != "_record"@) by {
        assert("_float4"@[1] == 'f');
        assert("_record"@[1] == 'r');
    }
    assert("_float4"@ != "tsrange"@) by {
        assert("_float4"@[0] == '_');
        assert("tsrange"@[0] == 't');
    }
    assert("_float8"@ != "varchar"@) by {
        assert("_float8"@[0] == '_');
        assert("varchar"@[0] == 'v');
    }
    assert("_float8"@ != "_timetz"@) by {
        assert("_float8"@[1] == 'f');
        assert("_timetz"@[1] == 't');
    }
    assert("_float8"@ != "_varbit"@) by {
        assert("_float8"@[1] == 'f');
        assert("_varbit"@[1] == 'v');
    }
    assert("_float8"@ != "numeric"@) by {
        assert("_float8"@[0] == '_');
        assert("numeric"@[0] == 'n');
    }
    assert("_float8"@ != "_record"@) by {
        assert("_float8"@[1] == 'f');
        assert("_record"@[1] == 'r');
    }
    assert("_float8"@ != "tsrange"@) by {
        assert("_float8"@[0] == '_');
        assert("tsrange"@[0] == 't');
    }
    assert("_polygon"@ != "_macaddr"@) by {
        assert("_polygon"@[1] == 'p');
        assert("_macaddr"@[1] == 'm');
    }
    assert("_polygon"@ != "_numeric"@) by {
        assert("_polygon"@[1] == 'p');
        assert("_numeric"@[1] == 'n');
    }
    assert("_polygon"@ != "interval"@) by {
        assert("_polygon"@[0] == '_');
        assert("interval"@[0] == 'i');
    }
    assert("_polygon"@ != "numrange"@) by {
        assert("_polygon"@[0] == '_');
        assert("numrange"@[0] == 'n');
    }
    assert("_polygon"@ != "_tsrange"@) by {
        assert("_polygon"@[1] == 'p');
        assert("_tsrange"@[1] == 't');
    }
    assert("_polygon"@ != "jsonpath"@) by {
        assert("_polygon"@[0] == '_');
        assert("jsonpath"@[0] == 'j');
    }
    assert("_oid"@ != "date"@) by {
        assert("_oid"@[0] == '_');
        assert("date"@[0] == 'd');
    }
    assert("_oid"@ != "time"@) by {
        assert("_oid"@[0] == '_');
        assert("time"@[0] == 't');
    }
    assert("_oid"@ != "_bit"@) by {
        assert("_oid"@[1] == 'o');
        assert("_bit"@[1] == 'b');
    }
    assert("_oid"@ != "uuid"@) by {
        assert("_oid"@[0] == '_');
        assert("uuid"@[0] == 'u');
    }
    assert("_macaddr"@ != "_numeric"@) by {
        assert("_macaddr"@[1] == 'm');
        assert("_numeric"@[1] == 'n');
    }
    assert("_macaddr"@ != "interval"@) by {
        assert("_macaddr"@[0] == '_');
        assert("interval"@[0] == 'i');
    }
    assert("_macaddr"@ != "numrange"@) by {
        assert("_macaddr"@[0] == '_');
        assert("numrange"@[0] == 'n');
    }
    assert("_macaddr"@ != "_tsrange"@) by {
        assert("_macaddr"@[1] == 'm');
        assert("_tsrange"@[1] == 't');
    }
    assert("_macaddr"@ != "jsonpath"@) by {
        assert("_macaddr"@[0] == '_');
        assert("jsonpath"@[0] == 'j');
    }
    assert("_inet"@ != "_date"@) by {
        assert("_inet"@[1] == 'i');
        assert("_date"@[1] == 'd');
    }
    assert("_inet"@ != "_time"@) by {
        assert("_inet"@[1] == 'i');
        assert("_time"@[1] == 't');
    }
    assert("_inet"@ != "_uuid"@) by {
        assert("_inet"@[1] == 'i');
        assert("_uuid"@[1] == 'u');
    }
    assert("_inet"@ != "jsonb"@) by {
        assert("_inet"@[0] == '_');
        assert("jsonb"@[0] == 'j');
    }
    assert("bpchar"@ != "timetz"@) by {
        assert("bpchar"@[0] == 'b');
        assert("timetz"@[0] == 't');
    }
    assert("bpchar"@ != "varbit"@) by {
        assert("bpchar"@[0] == 'b');
        assert("varbit"@[0] == 'v');
    }
    assert("bpchar"@ != "record"@) by {
        assert("bpchar"@[0] == 'b');
        assert("record"@[0] == 'r');
    }
    assert("bpchar"@ != "_jsonb"@) by {
        assert("bpchar"@[0] == 'b');
        assert("_jsonb"@[0] == '_');
    }
    assert("varchar"@ != "_timetz"@) by {
        assert("varchar"@[0] == 'v');
        assert("_timetz"@[0] == '_');
    }
    assert("varchar"@ != "_varbit"@) by {
        assert("varchar"@[0] == 'v');
        assert("_varbit"@[0] == '_');
    }
    assert("varchar"@ != "numeric"@) by {
        assert("varchar"@[0] == 'v');
        assert("numeric"@[0] == 'n');
    }
    assert("varchar"@ != "_record"@) by {
        assert("varchar"@[0] == 'v');
        assert("_record"@[0] == '_');
    }
    assert("varchar"@ != "tsrange"@) by {
        assert("varchar"@[0] == 'v');
        assert("tsrange"@[0] == 't');
    }
    assert("date"@ != "time"@) by {
        assert("date"@[0] == 'd');
        assert("time"@[0] == 't');
    }
    assert("date"@ != "_bit"@) by {
        assert("date"@[0] == 'd');
        assert("_bit"@[0] == '_');
    }
    assert("date"@ != "uuid"@) by {
        assert("date"@[0] == 'd');
        assert("uuid"@[0] == 'u');
    }
    assert("time"@ != "_bit"@) by {
        assert("time"@[0] == 't');
        assert("_bit"@[0] == '_');
    }
    assert("time"@ != "uuid"@) by {
        assert("time"@[0] == 't');
        assert("uuid"@[0] == 'u');
    }
    assert("timestamp"@ != "int4range"@) by {
        assert("timestamp"@[0] == 't');
        assert("int4range"@[0] == 'i');
    }
    assert("timestamp"@ != "_numrange"@) by {
        assert("timestamp"@[0] == 't');
        assert("_numrange"@[0] == '_');
    }
    assert("timestamp"@ != "tstzrange"@) by {
        assert("timestamp"@[1] == 'i');
        assert("tstzrange"@[1] == 's');
    }
    assert("timestamp"@ != "daterange"@) by {
        assert("timestamp"@[0] == 't');
        assert("daterange"@[0] == 'd');
    }
    assert("timestamp"@ != "int8range"@) by {
        assert("timestamp"@[0] == 't');
        assert("int8range"@[0] == 'i');
    }
    assert("timestamp"@ != "_jsonpath"@) by {
        assert("timestamp"@[0] == 't');
        assert("_jsonpath"@[0] == '_');
    }
    assert("_timestamp"@ != "_int4range"@) by {
        assert("_timestamp"@[1] == 't');
        assert("_int4range"@[1] == 'i');
    }
    assert("_timestamp"@ != "_tstzrange"@) by {
        assert("_timestamp"@[2] == 'i');
        assert("_tstzrange"@[2] == 's');
    }
    assert("_timestamp"@ != "_daterange"@) by {
        assert("_timestamp"@[1] == 't');
        assert("_daterange"@[1] == 'd');
    }
    assert("_timestamp"@ != "_int8range"@) by {
        assert("_timestamp"@[1] == 't');
        assert("_int8range"@[1] == 'i');
    }
    assert("_date"@ != "_time"@) by {
        assert("_date"@[1] == 'd');
        assert("_time"@[1] == 't');
    }
    assert("_date"@ != "_uuid"@) by {
        assert("_date"@[1] == 'd');
        assert("_uuid"@[1] == 'u');
    }
    assert("_date"@ != "jsonb"@) by {
        assert("_date"@[0] == '_');
        assert("jsonb"@[0] == 'j');
    }
    assert("_time"@ != "_uuid"@) by {
        assert("_time"@[1] == 't');
        assert("_uuid"@[1] == 'u');
    }
    assert("_time"@ != "jsonb"@) by {
        assert("_time"@[0] == '_');
        assert("jsonb"@[0] == 'j');
    }
    assert("_numeric"@ != "interval"@) by {
        assert("_numeric"@[0] == '_');
        assert("interval"@[0] == 'i');
    }
    assert("_numeric"@ != "numrange"@) by {
        assert("_numeric"@[0] == '_');
        assert("numrange"@[0] == 'n');
    }
    assert("_numeric"@ != "_tsrange"@) by {
        assert("_numeric"@[1] == 'n');
        assert("_tsrange"@[1] == 't');
    }
    assert("_numeric"@ != "jsonpath"@) by {
        assert("_numeric"@[0] == '_');
        assert("jsonpath"@[0] == 'j');
    }
    assert("timetz"@ != "varbit"@) by {
        assert("timetz"@[0] == 't');
        assert("varbit"@[0] == 'v');
    }
    assert("timetz"@ != "record"@) by {
        assert("timetz"@[0] == 't');
        assert("record"@[0] == 'r');
    }
    assert("timetz"@ != "_jsonb"@) by {
        assert("timetz"@[0] == 't');
        assert("_jsonb"@[0] == '_');
    }
    assert("_timetz"@ != "_varbit"@) by {
        assert("_timetz"@[1] == 't');
        assert("_varbit"@[1] == 'v');
    }
    assert("_timetz"@ != "numeric"@) by {
        assert("_timetz"@[0] == '_');
        assert("numeric"@[0] == 'n');
    }
    assert("_timetz"@ != "_record"@) by {
        assert("_timetz"@[1] == 't');
        assert("_record"@[1] == 'r');
    }
    assert("_timetz"@ != "tsrange"@) by {
        assert("_timetz"@[0] == '_');
        assert("tsrange"@[0] == 't');
    }
    assert("_bit"@ != "uuid"@) by {
        assert("_bit"@[0] == '_');
        assert("uuid"@[0] == 'u');
    }
    assert("varbit"@ != "record"@) by {
        assert("varbit"@[0] == 'v');
        assert("record"@[0] == 'r');
    }
    assert("varbit"@ != "_jsonb"@) by {
        assert("varbit"@[0] == 'v');
        assert("_jsonb"@[0] == '_');
    }
    assert("_varbit"@ != "numeric"@) by {
        assert("_varbit"@[0] == '_');
        assert("numeric"@[0] == 'n');
    }
    assert("_varbit"@ != "_record"@) by {
        assert("_varbit"@[1] == 'v');
        assert("_record"@[1] == 'r');
    }
    assert("_varbit"@ != "tsrange"@) by {
        assert("_varbit"@[0] == '_');
        assert("tsrange"@[0] == 't');
    }
    assert("numeric"@ != "_record"@) by {
        assert("numeric"@[0] == 'n');
        assert("_record"@[0] == '_');
    }
    assert("numeric"@ != "tsrange"@) by {
        assert("numeric"@[0] == 'n');
        assert("tsrange"@[0] == 't');
    }
    assert("record"@ != "_jsonb"@) by {
        assert("record"@[0] == 'r');
        assert("_jsonb"@[0] == '_');
    }
    assert("interval"@ != "numrange"@) by {
        assert("interval"@[0] == 'i');
        assert("numrange"@[0] == 'n');
    }
    assert("interval"@ != "_tsrange"@) by {
        assert("interval"@[0] == 'i');
        assert("_tsrange"@[0] == '_');
    }
    assert("interval"@ != "jsonpath"@) by {
        assert("interval"@[0] == 'i');
        assert("jsonpath"@[0] == 'j');
    }
    assert("_record"@ != "tsrange"@) by {
        assert("_record"@[0] == '_');
        assert("tsrange"@[0] == 't');
    }
    assert("_uuid"@ != "jsonb"@) by {
        assert("_uuid"@[0] == '_');
        assert("jsonb"@[0] == 'j');
    }
    assert("int4range"@ != "_numrange"@) by {
        assert("int4range"@[0] == 'i');
        assert("_numrange"@[0] == '_');
    }
    assert("int4range"@ != "tstzrange"@) by {
        assert("int4range"@[0] == 'i');
        assert("tstzrange"@[0] == 't');
    }
    assert("int4range"@ != "daterange"@) by {
        assert("int4range"@[0] == 'i');
        assert("daterange"@[0] == 'd');
    }
    assert("int4range"@ != "int8range"@) by {
        assert("int4range"@[3] == '4');
        assert("int8range"@[3] == '8');
    }
    assert("int4range"@ != "_jsonpath"@) by {
        assert("int4range"@[0] == 'i');
        assert("_jsonpath"@[0] == '_');
    }
    assert("_int4range"@ != "_tstzrange"@) by {
        assert("_int4range"@[1] == 'i');
        assert("_tstzrange"@[1] == 't');
    }
    assert("_int4range"@ != "_daterange"@) by {
        assert("_int4range"@[1] == 'i');
        assert("_daterange"@[1] == 'd');
    }
    assert("_int4range"@ != "_int8range"@) by {
        assert("_int4range"@[4] == '4');
        assert("_int8range"@[4] == '8');
    }
    assert("numrange"@ != "_tsrange"@) by {
        assert("numrange"@[0] == 'n');
        assert("_tsrange"@[0] == '_');
    }
    assert("numrange"@ != "jsonpath"@) by {
        assert("numrange"@[0] == 'n');
        assert("jsonpath"@[0] == 'j');
    }
    assert("_numrange"@ != "tstzrange"@) by {
        assert("_numrange"@[0] == '_');
        assert("tstzrange"@[0] == 't');
    }
    assert("_numrange"@ != "daterange"@) by {
        assert("_numrange"@[0] == '_');
        assert("daterange"@[0] == 'd');
    }
    assert("_numrange"@ != "int8range"@) by {
        assert("_numrange"@[0] == '_');
        assert("int8range"@[0] == 'i');
    }
    assert("_numrange"@ != "_jsonpath"@) by {
        assert("_numrange"@[1] == 'n');
        assert("_jsonpath"@[1] == 'j');
    }
    assert("_tsrange"@ != "jsonpath"@) by {
        assert("_tsrange"@[0] == '_');
        assert("jsonpath"@[0] == 'j');
    }
    assert("tstzrange"@ != "daterange"@) by {
        assert("tstzrange"@[0] == 't');
        assert("daterange"@[0] == 'd');
    }
    assert("tstzrange"@ != "int8range"@) by {
        assert("tstzrange"@[0] == 't');
        assert("int8range"@[0] == 'i');
    }
    assert("tstzrange"@ != "_jsonpath"@) by {
        assert("tstzrange"@[0] == 't');
        assert("_jsonpath"@[0] == '_');
    }
    assert("_tstzrange"@ != "_daterange"@) by {
        assert("_tstzrange"@[1] == 't');
        assert("_daterange"@[1] == 'd');
    }
    assert("_tstzrange"@ != "_int8range"@) by {
        assert("_tstzrange"@[1] == 't');
        assert("_int8range"@[1] == 'i');
    }
    assert("daterange"@ != "int8range"@) by {
        assert("daterange"@[0] == 'd');
        assert("int8range"@[0] == 'i');
    }
    assert("daterange"@ != "_jsonpath"@) by {
        assert("daterange"@[0] == 'd');
        assert("_jsonpath"@[0] == '_');
    }
    assert("_daterange"@ != "_int8range"@) by {
        assert("_daterange"@[1] == 'd');
        assert("_int8range"@[1] == 'i');
    }
    assert("int8range"@ != "_jsonpath"@) by {
        assert("int8range"@[0] == 'i');
        assert("_jsonpath"@[0] == '_');
    }
    match t {
        PgType::Bool => {},
        PgType::Bytea => {},
        PgType::Char => {},
        PgType::Name => {},
        PgType::Int8 => {},
        PgType::Int2 => {},
        PgType::Int4 => {},
        PgType::Text => {},
        PgType::Oid => {},
        PgType::Json => {},
        PgType::JsonArray => {},
        PgType::Point => {},
        PgType::Lseg => {},
        PgType::Path => {},
        PgType::Box => {},
        PgType::Polygon => {},
        PgType::Line => {},
        PgType::LineArray => {},
        PgType::Cidr => {},
        PgType::CidrArray => {},
        PgType::Float4 => {},
        PgType::Float8 => {},
        PgType::Unknown => {},
        PgType::Circle => {},
        PgType::CircleArray => {},
        PgType::Macaddr8 => {},
        PgType::Macaddr8Array => {},
        PgType::Macaddr => {},
        PgType::Inet => {},
        PgType::BoolArray => {},
        PgType::ByteaArray => {},
        PgType::CharArray => {},
        PgType::NameArray => {},
        PgType::Int2Array => {},
        PgType::Int4Array => {},
        PgType::TextArray => {},
        PgType::BpcharArray => {},
        PgType::VarcharArray => {},
        PgType::Int8Array => {},
        PgType::PointArray => {},
        PgType::LsegArray => {},
        PgType::PathArray => {},
        PgType::BoxArray => {},
        PgType::Float4Array => {},
        PgType::Float8Array => {},
        PgType::PolygonArray => {},
        PgType::OidArray => {},
        PgType::MacaddrArray => {},
        PgType::InetArray => {},
        PgType::Bpchar => {},
        PgType::Varchar => {},
        PgType::Date => {},
        PgType::Time => {},
        PgType::Timestamp => {},
        PgType::TimestampArray => {},
        PgType::DateArray => {},
        PgType::TimeArray => {},
        PgType::Timestamptz => {},
        PgType::TimestamptzArray => {},
        PgType::NumericArray => {},
        PgType::Timetz => {},
        PgType::TimetzArray => {},
        PgType::Bit => {},
        PgType::BitArray => {},
        PgType::Varbit => {},
        PgType::VarbitArray => {},
        PgType::Numeric => {},
        PgType::Record => {},
        PgType::Interval => {},
        PgType::RecordArray => {},
        PgType::Uuid => {},
        PgType::UuidArray => {},
        PgType::Jsonb => {},
        PgType::JsonbArray => {},
        PgType::Int4Range => {},
        PgType::Int4RangeArray => {},
        PgType::NumRange => {},
        PgType::NumRangeArray => {},
        PgType::TsRange => {},
        PgType::TsRangeArray => {},
        PgType::TstzRange => {},
        PgType::TstzRangeArray => {},
        PgType::DateRange => {},
        PgType::DateRangeArray => {},
        PgType::Int8Range => {},
        PgType::Int8RangeArray => {},
        PgType::Jsonpath => {},
        PgType::JsonpathArray => {},
        _ => {},
    }
}

/// A built-in lookup by name answers with a built-in type that carries
/// exactly the requested name: the name half of the round trip, read off
/// the table.
pub proof fn lemma_name_to_builtin(s: Seq<char>)
    ensures
        builtin_of_name(s) matches Some(t) ==> is_builtin(t) && name_spec(t) == s,
{
}

/// No two built-in types share a name.
pub proof fn lemma_builtin_name_injective(t1: PgType, t2: PgType)
    requires
        is_builtin(t1),
        is_builtin(t2),
        name_spec(t1) == name_spec(t2),
    ensures
        t1 == t2,
{
    lemma_builtin_name_round_trip(t1);
    lemma_builtin_name_round_trip(t2);
}

} // verus!

