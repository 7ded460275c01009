use vstd::prelude::*;

use crate::type_eq::kind_eq;

verus! {

/// Type information for one PostgreSQL type: either one of the built-in
/// types the engine ships with, a custom type discovered at runtime, or a
/// still-unresolved declaration by name or by numeric id (oid).
#[derive(Debug)]
pub struct PgTypeInfo(pub PgType);

/// The internal representation behind [`PgTypeInfo`].
///
/// The built-in variants form the immutable, process-wide part of the type
/// catalog; `Custom` is a realized user-defined type; the two `Declare`
/// variants are deferred references that a catalog resolves on first use.
#[derive(Debug)]
pub enum PgType {
    Bool,
    Bytea,
    Char,
    Name,
    Int8,
    Int2,
    Int4,
    Text,
    Oid,
    Json,
    JsonArray,
    Point,
    Lseg,
    Path,
    Box,
    Polygon,
    Line,
    LineArray,
    Cidr,
    CidrArray,
    Float4,
    Float8,
    Unknown,
    Circle,
    CircleArray,
    Macaddr8,
    Macaddr8Array,
    Macaddr,
    Inet,
    BoolArray,
    ByteaArray,
    CharArray,
    NameArray,
    Int2Array,
    Int4Array,
    TextArray,
    BpcharArray,
    VarcharArray,
    Int8Array,
    PointArray,
    LsegArray,
    PathArray,
    BoxArray,
    Float4Array,
    Float8Array,
    PolygonArray,
    OidArray,
    MacaddrArray,
    InetArray,
    Bpchar,
    Varchar,
    Date,
    Time,
    Timestamp,
    TimestampArray,
    DateArray,
    TimeArray,
    Timestamptz,
    TimestamptzArray,
    NumericArray,
    Timetz,
    TimetzArray,
    Bit,
    BitArray,
    Varbit,
    VarbitArray,
    Numeric,
    Record,
    Interval,
    RecordArray,
    Uuid,
    UuidArray,
    Jsonb,
    JsonbArray,
    Int4Range,
    Int4RangeArray,
    NumRange,
    NumRangeArray,
    TsRange,
    TsRangeArray,
    TstzRange,
    TstzRangeArray,
    DateRange,
    DateRangeArray,
    Int8Range,
    Int8RangeArray,
    Jsonpath,
    JsonpathArray,
    /// A realized user-defined type.
    Custom(Box<PgCustomType>),
    /// A reference to a type only known by name; resolved by the catalog.
    DeclareWithName(String),
    /// A reference to a type only known by its oid; resolved by the catalog.
    DeclareWithOid(u32),
}

/// A user-defined type: identity (oid and name) plus structural kind.
#[derive(Debug)]
pub struct PgCustomType {
    pub oid: u32,
    pub name: String,
    pub kind: PgTypeKind,
}

/// The structural kind of a type.
#[derive(Debug)]
pub enum PgTypeKind {
    Simple,
    Domain(PgTypeInfo),
    Composite(Vec<(String, PgTypeInfo)>),
    Array(PgTypeInfo),
    Enum(Vec<String>),
    Range(PgTypeInfo),
}

/// True of the built-in variants only: not of custom types and not of
/// unresolved declarations.
pub open spec fn is_builtin(t: PgType) -> bool {
    !(t is Custom) && !(t is DeclareWithName) && !(t is DeclareWithOid)
}

/// A resolved type is anything but a deferred declaration: reading an oid,
/// a name or a structural kind from it is meaningful.
pub open spec fn is_resolved_type(t: PgType) -> bool {
    !(t is DeclareWithName) && !(t is DeclareWithOid)
}

/// The built-in type assigned to an oid, if any: the immutable built-in
/// half of the catalog, keyed by id.
pub open spec fn builtin_of_oid(oid: u32) -> Option<PgType> {
    if oid == 16 {
        Some(PgType::Bool)
    } else if oid == 17 {
        Some(PgType::Bytea)
    } else if oid == 18 {
        Some(PgType::Char)
    } else if oid == 19 {
        Some(PgType::Name)
    } else if oid == 20 {
        Some(PgType::Int8)
    } else if oid == 21 {
        Some(PgType::Int2)
    } else if oid == 23 {
        Some(PgType::Int4)
    } else if oid == 25 {
        Some(PgType::Text)
    } else if oid == 26 {
        Some(PgType::Oid)
    } else if oid == 114 {
        Some(PgType::Json)
    } else if oid == 199 {
        Some(PgType::JsonArray)
    } else if oid == 600 {
        Some(PgType::Point)
    } else if oid == 601 {
        Some(PgType::Lseg)
    } else if oid == 602 {
        Some(PgType::Path)
    } else if oid == 603 {
        Some(PgType::Box)
    } else if oid == 604 {
        Some(PgType::Polygon)
    } else if oid == 628 {
        Some(PgType::Line)
    } else if oid == 629 {
        Some(PgType::LineArray)
    } else if oid == 650 {
        Some(PgType::Cidr)
    } else if oid == 651 {
        Some(PgType::CidrArray)
    } else if oid == 700 {
        Some(PgType::Float4)
    } else if oid == 701 {
        Some(PgType::Float8)
    } else if oid == 705 {
        Some(PgType::Unknown)
    } else if oid == 718 {
        Some(PgType::Circle)
    } else if oid == 719 {
        Some(PgType::CircleArray)
    } else if oid == 774 {
        Some(PgType::Macaddr8)
    } else if oid == 775 {
        Some(PgType::Macaddr8Array)
    } else if oid == 829 {
        Some(PgType::Macaddr)
    } else if oid == 869 {
        Some(PgType::Inet)
    } else if oid == 1000 {
        Some(PgType::BoolArray)
    } else if oid == 1001 {
        Some(PgType::ByteaArray)
    } else if oid == 1002 {
        Some(PgType::CharArray)
    } else if oid == 1003 {
        Some(PgType::NameArray)
    } else if oid == 1005 {
        Some(PgType::Int2Array)
    } else if oid == 1007 {
        Some(PgType::Int4Array)
    } else if oid == 1009 {
        Some(PgType::TextArray)
    } else if oid == 1014 {
        Some(PgType::BpcharArray)
    } else if oid == 1015 {
        Some(PgType::VarcharArray)
    } else if oid == 1016 {
        Some(PgType::Int8Array)
    } else if oid == 1017 {
        Some(PgType::PointArray)
    } else if oid == 1018 {
        Some(PgType::LsegArray)
    } else if oid == 1019 {
        Some(PgType::PathArray)
    } else if oid == 1020 {
        Some(PgType::BoxArray)
    } else if oid == 1021 {
        Some(PgType::Float4Array)
    } else if oid == 1022 {
        Some(PgType::Float8Array)
    } else if oid == 1027 {
        Some(PgType::PolygonArray)
    } else if oid == 1028 {
        Some(PgType::OidArray)
    } else if oid == 1040 {
        Some(PgType::MacaddrArray)
    } else if oid == 1041 {
        Some(PgType::InetArray)
    } else if oid == 1042 {
        Some(PgType::Bpchar)
    } else if oid == 1043 {
        Some(PgType::Varchar)
    } else if oid == 1082 {
        Some(PgType::Date)
    } else if oid == 1083 {
        Some(PgType::Time)
    } else if oid == 1114 {
        Some(PgType::Timestamp)
    } else if oid == 1115 {
        Some(PgType::TimestampArray)
    } else if oid == 1182 {
        Some(PgType::DateArray)
    } else if oid == 1183 {
        Some(PgType::TimeArray)
    } else if oid == 1184 {
        Some(PgType::Timestamptz)
    } else if oid == 1185 {
        Some(PgType::TimestamptzArray)
    } else if oid == 1231 {
        Some(PgType::NumericArray)
    } else if oid == 1266 {
        Some(PgType::Timetz)
    } else if oid == 1270 {
        Some(PgType::TimetzArray)
    } else if oid == 1560 {
        Some(PgType::Bit)
    } else if oid == 1561 {
        Some(PgType::BitArray)
    } else if oid == 1562 {
        Some(PgType::Varbit)
    } else if oid == 1563 {
        Some(PgType::VarbitArray)
    } else if oid == 1700 {
        Some(PgType::Numeric)
    } else if oid == 2249 {
        Some(PgType::Record)
    } else if oid == 2281 {
        Some(PgType::Interval)
    } else if oid == 2287 {
        Some(PgType::RecordArray)
    } else if oid == 2950 {
        Some(PgType::Uuid)
    } else if oid == 2951 {
        Some(PgType::UuidArray)
    } else if oid == 3802 {
        Some(PgType::Jsonb)
    } else if oid == 3807 {
        Some(PgType::JsonbArray)
    } else if oid == 3904 {
        Some(PgType::Int4Range)
    } else if oid == 3905 {
        Some(PgType::Int4RangeArray)
    } else if oid == 3906 {
        Some(PgType::NumRange)
    } else if oid == 3907 {
        Some(PgType::NumRangeArray)
    } else if oid == 3908 {
        Some(PgType::TsRange)
    } else if oid == 3909 {
        Some(PgType::TsRangeArray)
    } else if oid == 3910 {
        Some(PgType::TstzRange)
    } else if oid == 3911 {
        Some(PgType::TstzRangeArray)
    } else if oid == 3912 {
        Some(PgType::DateRange)
    } else if oid == 3913 {
        Some(PgType::DateRangeArray)
    } else if oid == 3926 {
        Some(PgType::Int8Range)
    } else if oid == 3927 {
        Some(PgType::Int8RangeArray)
    } else if oid == 4072 {
        Some(PgType::Jsonpath)
    } else if oid == 4073 {
        Some(PgType::JsonpathArray)
    } else {
        None
    }
}

/// The built-in type that carries a name, if any: the immutable built-in
/// half of the catalog, keyed by name. The chain order is immaterial:
/// built-in names are pairwise distinct (`lemma_builtin_name_injective`).
pub open spec fn builtin_of_name(s: Seq<char>) -> Option<PgType> {
    if s == "bool"@ {
        Some(PgType::Bool)
    } else if s == "bytea"@ {
        Some(PgType::Bytea)
    } else if s == "char"@ {
        Some(PgType::Char)
    } else if s == "name"@ {
        Some(PgType::Name)
    } else if s == "int8"@ {
        Some(PgType::Int8)
    } else if s == "int2"@ {
        Some(PgType::Int2)
    } else if s == "int4"@ {
        Some(PgType::Int4)
    } else if s == "text"@ {
        Some(PgType::Text)
    } else if s == "oid"@ {
        Some(PgType::Oid)
    } else if s == "json"@ {
        Some(PgType::Json)
    } else if s == "_json"@ {
        Some(PgType::JsonArray)
    } else if s == "point"@ {
        Some(PgType::Point)
    } else if s == "lseg"@ {
        Some(PgType::Lseg)
    } else if s == "path"@ {
        Some(PgType::Path)
    } else if s == "box"@ {
        Some(PgType::Box)
    } else if s == "polygon"@ {
        Some(PgType::Polygon)
    } else if s == "line"@ {
        Some(PgType::Line)
    } else if s == "_line"@ {
        Some(PgType::LineArray)
    } else if s == "cidr"@ {
        Some(PgType::Cidr)
    } else if s == "_cidr"@ {
        Some(PgType::CidrArray)
    } else if s == "float4"@ {
        Some(PgType::Float4)
    } else if s == "float8"@ {
        Some(PgType::Float8)
    } else if s == "unknown"@ {
        Some(PgType::Unknown)
    } else if s == "circle"@ {
        Some(PgType::Circle)
    } else if s == "_circle"@ {
        Some(PgType::CircleArray)
    } else if s == "macaddr8"@ {
        Some(PgType::Macaddr8)
    } else if s == "_macaddr8"@ {
        Some(PgType::Macaddr8Array)
    } else if s == "macaddr"@ {
        Some(PgType::Macaddr)
    } else if s == "inet"@ {
        Some(PgType::Inet)
    } else if s == "_bool"@ {
        Some(PgType::BoolArray)
    } else if s == "_bytea"@ {
        Some(PgType::ByteaArray)
    } else if s == "_char"@ {
        Some(PgType::CharArray)
    } else if s == "_name"@ {
        Some(PgType::NameArray)
    } else if s == "_int2"@ {
        Some(PgType::Int2Array)
    } else if s == "_int4"@ {
        Some(PgType::Int4Array)
    } else if s == "_text"@ {
        Some(PgType::TextArray)
    } else if s == "_bpchar"@ {
        Some(PgType::BpcharArray)
    } else if s == "_varchar"@ {
        Some(PgType::VarcharArray)
    } else if s == "_int8"@ {
        Some(PgType::Int8Array)
    } else if s == "_point"@ {
        Some(PgType::PointArray)
    } else if s == "_lseg"@ {
        Some(PgType::LsegArray)
    } else if s == "_path"@ {
        Some(PgType::PathArray)
    } else if s == "_box"@ {
        Some(PgType::BoxArray)
    } else if s == "_float4"@ {
        Some(PgType::Float4Array)
    } else if s == "_float8"@ {
        Some(PgType::Float8Array)
    } else if s == "_polygon"@ {
        Some(PgType::PolygonArray)
    } else if s == "_oid"@ {
        Some(PgType::OidArray)
    } else if s == "_macaddr"@ {
        Some(PgType::MacaddrArray)
    } else if s == "_inet"@ {
        Some(PgType::InetArray)
    } else if s == "bpchar"@ {
        Some(PgType::Bpchar)
    } else if s == "varchar"@ {
        Some(PgType::Varchar)
    } else if s == "date"@ {
        Some(PgType::Date)
    } else if s == "time"@ {
        Some(PgType::Time)
    } else if s == "timestamp"@ {
        Some(PgType::Timestamp)
    } else if s == "_timestamp"@ {
        Some(PgType::TimestampArray)
    } else if s == "_date"@ {
        Some(PgType::DateArray)
    } else if s == "_time"@ {
        Some(PgType::TimeArray)
    } else if s == "timestamptz"@ {
        Some(PgType::Timestamptz)
    } else if s == "_timestamptz"@ {
        Some(PgType::TimestamptzArray)
    } else if s == "_numeric"@ {
        Some(PgType::NumericArray)
    } else if s == "timetz"@ {
        Some(PgType::Timetz)
    } else if s == "_timetz"@ {
        Some(PgType::TimetzArray)
    } else if s == "bit"@ {
        Some(PgType::Bit)
    } else if s == "_bit"@ {
        Some(PgType::BitArray)
    } else if s == "varbit"@ {
        Some(PgType::Varbit)
    } else if s == "_varbit"@ {
        Some(PgType::VarbitArray)
    } else if s == "numeric"@ {
        Some(PgType::Numeric)
    } else if s == "record"@ {
        Some(PgType::Record)
    } else if s == "interval"@ {
        Some(PgType::Interval)
    } else if s == "_record"@ {
        Some(PgType::RecordArray)
    } else if s == "uuid"@ {
        Some(PgType::Uuid)
    } else if s == "_uuid"@ {
        Some(PgType::UuidArray)
    } else if s == "jsonb"@ {
        Some(PgType::Jsonb)
    } else if s == "_jsonb"@ {
        Some(PgType::JsonbArray)
    } else if s == "int4range"@ {
        Some(PgType::Int4Range)
    } else if s == "_int4range"@ {
        Some(PgType::Int4RangeArray)
    } else if s == "numrange"@ {
        Some(PgType::NumRange)
    } else if s == "_numrange"@ {
        Some(PgType::NumRangeArray)
    } else if s == "tsrange"@ {
        Some(PgType::TsRange)
    } else if s == "_tsrange"@ {
        Some(PgType::TsRangeArray)
    } else if s == "tstzrange"@ {
        Some(PgType::TstzRange)
    } else if s == "_tstzrange"@ {
        Some(PgType::TstzRangeArray)
    } else if s == "daterange"@ {
        Some(PgType::DateRange)
    } else if s == "_daterange"@ {
        Some(PgType::DateRangeArray)
    } else if s == "int8range"@ {
        Some(PgType::Int8Range)
    } else if s == "_int8range"@ {
        Some(PgType::Int8RangeArray)
    } else if s == "jsonpath"@ {
        Some(PgType::Jsonpath)
    } else if s == "_jsonpath"@ {
        Some(PgType::JsonpathArray)
    } else {
        None
    }
}

/// The oid that a resolved type reports. Unresolved by-name declarations
/// report no oid; this function is only applied under that exclusion.
pub open spec fn oid_spec(t: PgType) -> u32 {
    match t {
        PgType::Bool => 16,
        PgType::Bytea => 17,
        PgType::Char => 18,
        PgType::Name => 19,
        PgType::Int8 => 20,
        PgType::Int2 => 21,
        PgType::Int4 => 23,
        PgType::Text => 25,
        PgType::Oid => 26,
        PgType::Json => 114,
        PgType::JsonArray => 199,
        PgType::Point => 600,
        PgType::Lseg => 601,
        PgType::Path => 602,
        PgType::Box => 603,
        PgType::Polygon => 604,
        PgType::Line => 628,
        PgType::LineArray => 629,
        PgType::Cidr => 650,
        PgType::CidrArray => 651,
        PgType::Float4 => 700,
        PgType::Float8 => 701,
        PgType::Unknown => 705,
        PgType::Circle => 718,
        PgType::CircleArray => 719,
        PgType::Macaddr8 => 774,
        PgType::Macaddr8Array => 775,
        PgType::Macaddr => 829,
        PgType::Inet => 869,
        PgType::BoolArray => 1000,
        PgType::ByteaArray => 1001,
        PgType::CharArray => 1002,
        PgType::NameArray => 1003,
        PgType::Int2Array => 1005,
        PgType::Int4Array => 1007,
        PgType::TextArray => 1009,
        PgType::BpcharArray => 1014,
        PgType::VarcharArray => 1015,
        PgType::Int8Array => 1016,
        PgType::PointArray => 1017,
        PgType::LsegArray => 1018,
        PgType::PathArray => 1019,
        PgType::BoxArray => 1020,
        PgType::Float4Array => 1021,
        PgType::Float8Array => 1022,
        PgType::PolygonArray => 1027,
        PgType::OidArray => 1028,
        PgType::MacaddrArray => 1040,
        PgType::InetArray => 1041,
        PgType::Bpchar => 1042,
        PgType::Varchar => 1043,
        PgType::Date => 1082,
        PgType::Time => 1083,
        PgType::Timestamp => 1114,
        PgType::TimestampArray => 1115,
        PgType::DateArray => 1182,
        PgType::TimeArray => 1183,
        PgType::Timestamptz => 1184,
        PgType::TimestamptzArray => 1185,
        PgType::NumericArray => 1231,
        PgType::Timetz => 1266,
        PgType::TimetzArray => 1270,
        PgType::Bit => 1560,
        PgType::BitArray => 1561,
        PgType::Varbit => 1562,
        PgType::VarbitArray => 1563,
        PgType::Numeric => 1700,
        PgType::Record => 2249,
        PgType::Interval => 2281,
        PgType::RecordArray => 2287,
        PgType::Uuid => 2950,
        PgType::UuidArray => 2951,
        PgType::Jsonb => 3802,
        PgType::JsonbArray => 3807,
        PgType::Int4Range => 3904,
        PgType::Int4RangeArray => 3905,
        PgType::NumRange => 3906,
        PgType::NumRangeArray => 3907,
        PgType::TsRange => 3908,
        PgType::TsRangeArray => 3909,
        PgType::TstzRange => 3910,
        PgType::TstzRangeArray => 3911,
        PgType::DateRange => 3912,
        PgType::DateRangeArray => 3913,
        PgType::Int8Range => 3926,
        PgType::Int8RangeArray => 3927,
        PgType::Jsonpath => 4072,
        PgType::JsonpathArray => 4073,
        PgType::Custom(c) => c.oid,
        PgType::DeclareWithName(_) => 0,
        PgType::DeclareWithOid(oid) => oid,
    }
}

/// The name that a type reports, as a sequence of characters.
pub open spec fn name_spec(t: PgType) -> Seq<char> {
    match t {
        PgType::Bool => "bool"@,
        PgType::Bytea => "bytea"@,
        PgType::Char => "char"@,
        PgType::Name => "name"@,
        PgType::Int8 => "int8"@,
        PgType::Int2 => "int2"@,
        PgType::Int4 => "int4"@,
        PgType::Text => "text"@,
        PgType::Oid => "oid"@,
        PgType::Json => "json"@,
        PgType::JsonArray => "_json"@,
        PgType::Point => "point"@,
        PgType::Lseg => "lseg"@,
        PgType::Path => "path"@,
        PgType::Box => "box"@,
        PgType::Polygon => "polygon"@,
        PgType::Line => "line"@,
        PgType::LineArray => "_line"@,
        PgType::Cidr => "cidr"@,
        PgType::CidrArray => "_cidr"@,
        PgType::Float4 => "float4"@,
        PgType::Float8 => "float8"@,
        PgType::Unknown => "unknown"@,
        PgType::Circle => "circle"@,
        PgType::CircleArray => "_circle"@,
        PgType::Macaddr8 => "macaddr8"@,
        PgType::Macaddr8Array => "_macaddr8"@,
        PgType::Macaddr => "macaddr"@,
        PgType::Inet => "inet"@,
        PgType::BoolArray => "_bool"@,
        PgType::ByteaArray => "_bytea"@,
        PgType::CharArray => "_char"@,
        PgType::NameArray => "_name"@,
        PgType::Int2Array => "_int2"@,
        PgType::Int4Array => "_int4"@,
        PgType::TextArray => "_text"@,
        PgType::BpcharArray => "_bpchar"@,
        PgType::VarcharArray => "_varchar"@,
        PgType::Int8Array => "_int8"@,
        PgType::PointArray => "_point"@,
        PgType::LsegArray => "_lseg"@,
        PgType::PathArray => "_path"@,
        PgType::BoxArray => "_box"@,
        PgType::Float4Array => "_float4"@,
        PgType::Float8Array => "_float8"@,
        PgType::PolygonArray => "_polygon"@,
        PgType::OidArray => "_oid"@,
        PgType::MacaddrArray => "_macaddr"@,
        PgType::InetArray => "_inet"@,
        PgType::Bpchar => "bpchar"@,
        PgType::Varchar => "varchar"@,
        PgType::Date => "date"@,
        PgType::Time => "time"@,
        PgType::Timestamp => "timestamp"@,
        PgType::TimestampArray => "_timestamp"@,
        PgType::DateArray => "_date"@,
        PgType::TimeArray => "_time"@,
        PgType::Timestamptz => "timestamptz"@,
        PgType::TimestamptzArray => "_timestamptz"@,
        PgType::NumericArray => "_numeric"@,
        PgType::Timetz => "timetz"@,
        PgType::TimetzArray => "_timetz"@,
        PgType::Bit => "bit"@,
        PgType::BitArray => "_bit"@,
        PgType::Varbit => "varbit"@,
        PgType::VarbitArray => "_varbit"@,
        PgType::Numeric => "numeric"@,
        PgType::Record => "record"@,
        PgType::Interval => "interval"@,
        PgType::RecordArray => "_record"@,
        PgType::Uuid => "uuid"@,
        PgType::UuidArray => "_uuid"@,
        PgType::Jsonb => "jsonb"@,
        PgType::JsonbArray => "_jsonb"@,
        PgType::Int4Range => "int4range"@,
        PgType::Int4RangeArray => "_int4range"@,
        PgType::NumRange => "numrange"@,
        PgType::NumRangeArray => "_numrange"@,
        PgType::TsRange => "tsrange"@,
        PgType::TsRangeArray => "_tsrange"@,
        PgType::TstzRange => "tstzrange"@,
        PgType::TstzRangeArray => "_tstzrange"@,
        PgType::DateRange => "daterange"@,
        PgType::DateRangeArray => "_daterange"@,
        PgType::Int8Range => "int8range"@,
        PgType::Int8RangeArray => "_int8range"@,
        PgType::Jsonpath => "jsonpath"@,
        PgType::JsonpathArray => "_jsonpath"@,
        PgType::Custom(c) => c.name@,
        PgType::DeclareWithName(n) => n@,
        PgType::DeclareWithOid(_) => "?"@,
    }
}

/// The structural kind that a resolved type reports.
pub open spec fn kind_spec(t: PgType) -> PgTypeKind {
    match t {
        PgType::Bool => PgTypeKind::Simple,
        PgType::Bytea => PgTypeKind::Simple,
        PgType::Char => PgTypeKind::Simple,
        PgType::Name => PgTypeKind::Simple,
        PgType::Int8 => PgTypeKind::Simple,
        PgType::Int2 => PgTypeKind::Simple,
        PgType::Int4 => PgTypeKind::Simple,
        PgType::Text => PgTypeKind::Simple,
        PgType::Oid => PgTypeKind::Simple,
        PgType::Json => PgTypeKind::Simple,
        PgType::JsonArray => PgTypeKind::Array(PgTypeInfo(PgType::Json)),
        PgType::Point => PgTypeKind::Simple,
        PgType::Lseg => PgTypeKind::Simple,
        PgType::Path => PgTypeKind::Simple,
        PgType::Box => PgTypeKind::Simple,
        PgType::Polygon => PgTypeKind::Simple,
        PgType::Line => PgTypeKind::Simple,
        PgType::LineArray => PgTypeKind::Array(PgTypeInfo(PgType::Line)),
        PgType::Cidr => PgTypeKind::Simple,
        PgType::CidrArray => PgTypeKind::Array(PgTypeInfo(PgType::Cidr)),
        PgType::Float4 => PgTypeKind::Simple,
        PgType::Float8 => PgTypeKind::Simple,
        PgType::Unknown => PgTypeKind::Simple,
        PgType::Circle => PgTypeKind::Simple,
        PgType::CircleArray => PgTypeKind::Array(PgTypeInfo(PgType::Circle)),
        PgType::Macaddr8 => PgTypeKind::Simple,
        PgType::Macaddr8Array => PgTypeKind::Array(PgTypeInfo(PgType::Macaddr8)),
        PgType::Macaddr => PgTypeKind::Simple,
        PgType::Inet => PgTypeKind::Simple,
        PgType::BoolArray => PgTypeKind::Array(PgTypeInfo(PgType::Bool)),
        PgType::ByteaArray => PgTypeKind::Array(PgTypeInfo(PgType::Bytea)),
        PgType::CharArray => PgTypeKind::Array(PgTypeInfo(PgType::Char)),
        PgType::NameArray => PgTypeKind::Array(PgTypeInfo(PgType::Name)),
        PgType::Int2Array => PgTypeKind::Array(PgTypeInfo(PgType::Int2)),
        PgType::Int4Array => PgTypeKind::Array(PgTypeInfo(PgType::Int4)),
        PgType::TextArray => PgTypeKind::Array(PgTypeInfo(PgType::Text)),
        PgType::BpcharArray => PgTypeKind::Array(PgTypeInfo(PgType::Bpchar)),
        PgType::VarcharArray => PgTypeKind::Array(PgTypeInfo(PgType::Varchar)),
        PgType::Int8Array => PgTypeKind::Array(PgTypeInfo(PgType::Int8)),
        PgType::PointArray => PgTypeKind::Array(PgTypeInfo(PgType::Point)),
        PgType::LsegArray => PgTypeKind::Array(PgTypeInfo(PgType::Lseg)),
        PgType::PathArray => PgTypeKind::Array(PgTypeInfo(PgType::Path)),
        PgType::BoxArray => PgTypeKind::Array(PgTypeInfo(PgType::Box)),
        PgType::Float4Array => PgTypeKind::Array(PgTypeInfo(PgType::Float4)),
        PgType::Float8Array => PgTypeKind::Array(PgTypeInfo(PgType::Float8)),
        PgType::PolygonArray => PgTypeKind::Array(PgTypeInfo(PgType::Polygon)),
        PgType::OidArray => PgTypeKind::Array(PgTypeInfo(PgType::Oid)),
        PgType::MacaddrArray => PgTypeKind::Array(PgTypeInfo(PgType::Macaddr)),
        PgType::InetArray => PgTypeKind::Array(PgTypeInfo(PgType::Inet)),
        PgType::Bpchar => PgTypeKind::Simple,
        PgType::Varchar => PgTypeKind::Simple,
        PgType::Date => PgTypeKind::Simple,
        PgType::Time => PgTypeKind::Simple,
        PgType::Timestamp => PgTypeKind::Simple,
        PgType::TimestampArray => PgTypeKind::Array(PgTypeInfo(PgType::Timestamp)),
        PgType::DateArray => PgTypeKind::Array(PgTypeInfo(PgType::Date)),
        PgType::TimeArray => PgTypeKind::Array(PgTypeInfo(PgType::Time)),
        PgType::Timestamptz => PgTypeKind::Simple,
        PgType::TimestamptzArray => PgTypeKind::Array(PgTypeInfo(PgType::Timestamptz)),
        PgType::NumericArray => PgTypeKind::Array(PgTypeInfo(PgType::Numeric)),
        PgType::Timetz => PgTypeKind::Simple,
        PgType::TimetzArray => PgTypeKind::Array(PgTypeInfo(PgType::Timetz)),
        PgType::Bit => PgTypeKind::Simple,
        PgType::BitArray => PgTypeKind::Array(PgTypeInfo(PgType::Bit)),
        PgType::Varbit => PgTypeKind::Simple,
        PgType::VarbitArray => PgTypeKind::Array(PgTypeInfo(PgType::Varbit)),
        PgType::Numeric => PgTypeKind::Simple,
        PgType::Record => PgTypeKind::Simple,
        PgType::Interval => PgTypeKind::Simple,
        PgType::RecordArray => PgTypeKind::Array(PgTypeInfo(PgType::Record)),
        PgType::Uuid => PgTypeKind::Simple,
        PgType::UuidArray => PgTypeKind::Array(PgTypeInfo(PgType::Uuid)),
        PgType::Jsonb => PgTypeKind::Simple,
        PgType::JsonbArray => PgTypeKind::Array(PgTypeInfo(PgType::Jsonb)),
        PgType::Int4Range => PgTypeKind::Simple,
        PgType::Int4RangeArray => PgTypeKind::Array(PgTypeInfo(PgType::Int4Range)),
        PgType::NumRange => PgTypeKind::Simple,
        PgType::NumRangeArray => PgTypeKind::Array(PgTypeInfo(PgType::NumRange)),
        PgType::TsRange => PgTypeKind::Simple,
        PgType::TsRangeArray => PgTypeKind::Array(PgTypeInfo(PgType::TsRange)),
        PgType::TstzRange => PgTypeKind::Simple,
        PgType::TstzRangeArray => PgTypeKind::Array(PgTypeInfo(PgType::TstzRange)),
        PgType::DateRange => PgTypeKind::Simple,
        PgType::DateRangeArray => PgTypeKind::Array(PgTypeInfo(PgType::DateRange)),
        PgType::Int8Range => PgTypeKind::Simple,
        PgType::Int8RangeArray => PgTypeKind::Array(PgTypeInfo(PgType::Int8Range)),
        PgType::Jsonpath => PgTypeKind::Simple,
        PgType::JsonpathArray => PgTypeKind::Array(PgTypeInfo(PgType::Jsonpath)),
        PgType::Custom(c) => c.kind,
        PgType::DeclareWithName(_) => PgTypeKind::Simple,
        PgType::DeclareWithOid(_) => PgTypeKind::Simple,
    }
}

/// The optional crate feature that mapping a built-in type to a host type
/// depends on.
pub open spec fn feature_gate_spec(t: PgType) -> Option<Seq<char>> {
    match t {
        PgType::Date => Some("time"@),
        PgType::Time => Some("time"@),
        PgType::Timestamp => Some("time"@),
        PgType::Timestamptz => Some("time"@),
        PgType::DateArray => Some("time"@),
        PgType::TimeArray => Some("time"@),
        PgType::TimestampArray => Some("time"@),
        PgType::TimestamptzArray => Some("time"@),
        PgType::Uuid => Some("uuid"@),
        PgType::UuidArray => Some("uuid"@),
        PgType::Json => Some("json"@),
        PgType::Jsonb => Some("json"@),
        PgType::JsonArray => Some("json"@),
        PgType::JsonbArray => Some("json"@),
        PgType::Cidr => Some("ipnetwork"@),
        PgType::Inet => Some("ipnetwork"@),
        PgType::CidrArray => Some("ipnetwork"@),
        PgType::InetArray => Some("ipnetwork"@),
        PgType::Numeric => Some("bigdecimal"@),
        PgType::NumericArray => Some("bigdecimal"@),
        _ => None,
    }
}

impl PgType {
    /// The corresponding built-in type, if the oid names one.
    pub fn try_from_oid(oid: u32) -> (r: Option<Self>)
        ensures
            r == builtin_of_oid(oid),
    {
        match oid {
            16 => Some(PgType::Bool),
            17 => Some(PgType::Bytea),
            18 => Some(PgType::Char),
            19 => Some(PgType::Name),
            20 => Some(PgType::Int8),
            21 => Some(PgType::Int2),
            23 => Some(PgType::Int4),
            25 => Some(PgType::Text),
            26 => Some(PgType::Oid),
            114 => Some(PgType::Json),
            199 => Some(PgType::JsonArray),
            600 => Some(PgType::Point),
            601 => Some(PgType::Lseg),
            602 => Some(PgType::Path),
            603 => Some(PgType::Box),
            604 => Some(PgType::Polygon),
            628 => Some(PgType::Line),
            629 => Some(PgType::LineArray),
            650 => Some(PgType::Cidr),
            651 => Some(PgType::CidrArray),
            700 => Some(PgType::Float4),
            701 => Some(PgType::Float8),
            705 => Some(PgType::Unknown),
            718 => Some(PgType::Circle),
            719 => Some(PgType::CircleArray),
            774 => Some(PgType::Macaddr8),
            775 => Some(PgType::Macaddr8Array),
            829 => Some(PgType::Macaddr),
            869 => Some(PgType::Inet),
            1000 => Some(PgType::BoolArray),
            1001 => Some(PgType::ByteaArray),
            1002 => Some(PgType::CharArray),
            1003 => Some(PgType::NameArray),
            1005 => Some(PgType::Int2Array),
            1007 => Some(PgType::Int4Array),
            1009 => Some(PgType::TextArray),
            1014 => Some(PgType::BpcharArray),
            1015 => Some(PgType::VarcharArray),
            1016 => Some(PgType::Int8Array),
            1017 => Some(PgType::PointArray),
            1018 => Some(PgType::LsegArray),
            1019 => Some(PgType::PathArray),
            1020 => Some(PgType::BoxArray),
            1021 => Some(PgType::Float4Array),
            1022 => Some(PgType::Float8Array),
            1027 => Some(PgType::PolygonArray),
            1028 => Some(PgType::OidArray),
            1040 => Some(PgType::MacaddrArray),
            1041 => Some(PgType::InetArray),
            1042 => Some(PgType::Bpchar),
            1043 => Some(PgType::Varchar),
            1082 => Some(PgType::Date),
            1083 => Some(PgType::Time),
            1114 => Some(PgType::Timestamp),
            1115 => Some(PgType::TimestampArray),
            1182 => Some(PgType::DateArray),
            1183 => Some(PgType::TimeArray),
            1184 => Some(PgType::Timestamptz),
            1185 => Some(PgType::TimestamptzArray),
            1231 => Some(PgType::NumericArray),
            1266 => Some(PgType::Timetz),
            1270 => Some(PgType::TimetzArray),
            1560 => Some(PgType::Bit),
            1561 => Some(PgType::BitArray),
            1562 => Some(PgType::Varbit),
            1563 => Some(PgType::VarbitArray),
            1700 => Some(PgType::Numeric),
            2249 => Some(PgType::Record),
            2281 => Some(PgType::Interval),
            2287 => Some(PgType::RecordArray),
            2950 => Some(PgType::Uuid),
            2951 => Some(PgType::UuidArray),
            3802 => Some(PgType::Jsonb),
            3807 => Some(PgType::JsonbArray),
            3904 => Some(PgType::Int4Range),
            3905 => Some(PgType::Int4RangeArray),
            3906 => Some(PgType::NumRange),
            3907 => Some(PgType::NumRangeArray),
            3908 => Some(PgType::TsRange),
            3909 => Some(PgType::TsRangeArray),
            3910 => Some(PgType::TstzRange),
            3911 => Some(PgType::TstzRangeArray),
            3912 => Some(PgType::DateRange),
            3913 => Some(PgType::DateRangeArray),
            3926 => Some(PgType::Int8Range),
            3927 => Some(PgType::Int8RangeArray),
            4072 => Some(PgType::Jsonpath),
            4073 => Some(PgType::JsonpathArray),
            _ => None,
        }
    }

    /// The corresponding built-in type, if some built-in type has the
    /// given name. Built-in names are pairwise distinct
    /// (`lemma_builtin_name_injective`), so the result is the unique one.
    pub fn try_from_name(s: &str) -> (r: Option<Self>)
        ensures
            r == builtin_of_name(s@),
            match r {
                Some(t) => is_builtin(t) && name_spec(t) == s@,
                None => forall|t: PgType| is_builtin(t) ==> name_spec(t) != s@,
            },
    {
        if str_equal(s, "bool") {
            Some(PgType::Bool)
        } else if str_equal(s, "bytea") {
            Some(PgType::Bytea)
        } else if str_equal(s, "char") {
            Some(PgType::Char)
        } else if str_equal(s, "name") {
            Some(PgType::Name)
        } else if str_equal(s, "int8") {
            Some(PgType::Int8)
        } else if str_equal(s, "int2") {
            Some(PgType::Int2)
        } else if str_equal(s, "int4") {
            Some(PgType::Int4)
        } else if str_equal(s, "text") {
            Some(PgType::Text)
        } else if str_equal(s, "oid") {
            Some(PgType::Oid)
        } else if str_equal(s, "json") {
            Some(PgType::Json)
        } else if str_equal(s, "_json") {
            Some(PgType::JsonArray)
        } else if str_equal(s, "point") {
            Some(PgType::Point)
        } else if str_equal(s, "lseg") {
            Some(PgType::Lseg)
        } else if str_equal(s, "path") {
            Some(PgType::Path)
        } else if str_equal(s, "box") {
            Some(PgType::Box)
        } else if str_equal(s, "polygon") {
            Some(PgType::Polygon)
        } else if str_equal(s, "line") {
            Some(PgType::Line)
        } else if str_equal(s, "_line") {
            Some(PgType::LineArray)
        } else if str_equal(s, "cidr") {
            Some(PgType::Cidr)
        } else if str_equal(s, "_cidr") {
            Some(PgType::CidrArray)
        } else if str_equal(s, "float4") {
            Some(PgType::Float4)
        } else if str_equal(s, "float8") {
            Some(PgType::Float8)
        } else if str_equal(s, "unknown") {
            Some(PgType::Unknown)
        } else if str_equal(s, "circle") {
            Some(PgType::Circle)
        } else if str_equal(s, "_circle") {
            Some(PgType::CircleArray)
        } else if str_equal(s, "macaddr8") {
            Some(PgType::Macaddr8)
        } else if str_equal(s, "_macaddr8") {
            Some(PgType::Macaddr8Array)
        } else if str_equal(s, "macaddr") {
            Some(PgType::Macaddr)
        } else if str_equal(s, "inet") {
            Some(PgType::Inet)
        } else if str_equal(s, "_bool") {
            Some(PgType::BoolArray)
        } else if str_equal(s, "_bytea") {
            Some(PgType::ByteaArray)
        } else if str_equal(s, "_char") {
            Some(PgType::CharArray)
        } else if str_equal(s, "_name") {
            Some(PgType::NameArray)
        } else if str_equal(s, "_int2") {
            Some(PgType::Int2Array)
        } else if str_equal(s, "_int4") {
            Some(PgType::Int4Array)
        } else if str_equal(s, "_text") {
            Some(PgType::TextArray)
        } else if str_equal(s, "_bpchar") {
            Some(PgType::BpcharArray)
        } else if str_equal(s, "_varchar") {
            Some(PgType::VarcharArray)
        } else if str_equal(s, "_int8") {
            Some(PgType::Int8Array)
        } else if str_equal(s, "_point") {
            Some(PgType::PointArray)
        } else if str_equal(s, "_lseg") {
            Some(PgType::LsegArray)
        } else if str_equal(s, "_path") {
            Some(PgType::PathArray)
        } else if str_equal(s, "_box") {
            Some(PgType::BoxArray)
        } else if str_equal(s, "_float4") {
            Some(PgType::Float4Array)
        } else if str_equal(s, "_float8") {
            Some(PgType::Float8Array)
        } else if str_equal(s, "_polygon") {
            Some(PgType::PolygonArray)
        } else if str_equal(s, "_oid") {
            Some(PgType::OidArray)
        } else if str_equal(s, "_macaddr") {
            Some(PgType::MacaddrArray)
        } else if str_equal(s, "_inet") {
            Some(PgType::InetArray)
        } else if str_equal(s, "bpchar") {
            Some(PgType::Bpchar)
        } else if str_equal(s, "varchar") {
            Some(PgType::Varchar)
        } else if str_equal(s, "date") {
            Some(PgType::Date)
        } else if str_equal(s, "time") {
            Some(PgType::Time)
        } else if str_equal(s, "timestamp") {
            Some(PgType::Timestamp)
        } else if str_equal(s, "_timestamp") {
            Some(PgType::TimestampArray)
        } else if str_equal(s, "_date") {
            Some(PgType::DateArray)
        } else if str_equal(s, "_time") {
            Some(PgType::TimeArray)
        } else if str_equal(s, "timestamptz") {
            Some(PgType::Timestamptz)
        } else if str_equal(s, "_timestamptz") {
            Some(PgType::TimestamptzArray)
        } else if str_equal(s, "_numeric") {
            Some(PgType::NumericArray)
        } else if str_equal(s, "timetz") {
            Some(PgType::Timetz)
        } else if str_equal(s, "_timetz") {
            Some(PgType::TimetzArray)
        } else if str_equal(s, "bit") {
            Some(PgType::Bit)
        } else if str_equal(s, "_bit") {
            Some(PgType::BitArray)
        } else if str_equal(s, "varbit") {
            Some(PgType::Varbit)
        } else if str_equal(s, "_varbit") {
            Some(PgType::VarbitArray)
        } else if str_equal(s, "numeric") {
            Some(PgType::Numeric)
        } else if str_equal(s, "record") {
            Some(PgType::Record)
        } else if str_equal(s, "interval") {
            Some(PgType::Interval)
        } else if str_equal(s, "_record") {
            Some(PgType::RecordArray)
        } else if str_equal(s, "uuid") {
            Some(PgType::Uuid)
        } else if str_equal(s, "_uuid") {
            Some(PgType::UuidArray)
        } else if str_equal(s, "jsonb") {
            Some(PgType::Jsonb)
        } else if str_equal(s, "_jsonb") {
            Some(PgType::JsonbArray)
        } else if str_equal(s, "int4range") {
            Some(PgType::Int4Range)
        } else if str_equal(s, "_int4range") {
            Some(PgType::Int4RangeArray)
        } else if str_equal(s, "numrange") {
            Some(PgType::NumRange)
        } else if str_equal(s, "_numrange") {
            Some(PgType::NumRangeArray)
        } else if str_equal(s, "tsrange") {
            Some(PgType::TsRange)
        } else if str_equal(s, "_tsrange") {
            Some(PgType::TsRangeArray)
        } else if str_equal(s, "tstzrange") {
            Some(PgType::TstzRange)
        } else if str_equal(s, "_tstzrange") {
            Some(PgType::TstzRangeArray)
        } else if str_equal(s, "daterange") {
            Some(PgType::DateRange)
        } else if str_equal(s, "_daterange") {
            Some(PgType::DateRangeArray)
        } else if str_equal(s, "int8range") {
            Some(PgType::Int8Range)
        } else if str_equal(s, "_int8range") {
            Some(PgType::Int8RangeArray)
        } else if str_equal(s, "jsonpath") {
            Some(PgType::Jsonpath)
        } else if str_equal(s, "_jsonpath") {
            Some(PgType::JsonpathArray)
        } else {
            assert forall|t: PgType| is_builtin(t) implies name_spec(t) != s@ by {
                match t {
                    PgType::Bool => {},
                    PgType::Bytea => {},
                    PgType::Char => {},
                    PgType::Name => {},
                    PgType::Int8 => {},
                    PgType::Int2 => {},
                    PgType::Int4 => {},
                    PgType::Text => {},
                    PgType::Oid => {},
                    PgType::Json => {},
                    PgType::JsonArray => {},
                    PgType::Point => {},
                    PgType::Lseg => {},
                    PgType::Path => {},
                    PgType::Box => {},
                    PgType::Polygon => {},
                    PgType::Line => {},
                    PgType::LineArray => {},
                    PgType::Cidr => {},
                    PgType::CidrArray => {},
                    PgType::Float4 => {},
                    PgType::Float8 => {},
                    PgType::Unknown => {},
                    PgType::Circle => {},
                    PgType::CircleArray => {},
                    PgType::Macaddr8 => {},
                    PgType::Macaddr8Array => {},
                    PgType::Macaddr => {},
                    PgType::Inet => {},
                    PgType::BoolArray => {},
                    PgType::ByteaArray => {},
                    PgType::CharArray => {},
                    PgType::NameArray => {},
                    PgType::Int2Array => {},
                    PgType::Int4Array => {},
                    PgType::TextArray => {},
                    PgType::BpcharArray => {},
                    PgType::VarcharArray => {},
                    PgType::Int8Array => {},
                    PgType::PointArray => {},
                    PgType::LsegArray => {},
                    PgType::PathArray => {},
                    PgType::BoxArray => {},
                    PgType::Float4Array => {},
                    PgType::Float8Array => {},
                    PgType::PolygonArray => {},
                    PgType::OidArray => {},
                    PgType::MacaddrArray => {},
                    PgType::InetArray => {},
                    PgType::Bpchar => {},
                    PgType::Varchar => {},
                    PgType::Date => {},
                    PgType::Time => {},
                    PgType::Timestamp => {},
                    PgType::TimestampArray => {},
                    PgType::DateArray => {},
                    PgType::TimeArray => {},
                    PgType::Timestamptz => {},
                    PgType::TimestamptzArray => {},
                    PgType::NumericArray => {},
                    PgType::Timetz => {},
                    PgType::TimetzArray => {},
                    PgType::Bit => {},
                    PgType::BitArray => {},
                    PgType::Varbit => {},
                    PgType::VarbitArray => {},
                    PgType::Numeric => {},
                    PgType::Record => {},
                    PgType::Interval => {},
                    PgType::RecordArray => {},
                    PgType::Uuid => {},
                    PgType::UuidArray => {},
                    PgType::Jsonb => {},
                    PgType::JsonbArray => {},
                    PgType::Int4Range => {},
                    PgType::Int4RangeArray => {},
                    PgType::NumRange => {},
                    PgType::NumRangeArray => {},
                    PgType::TsRange => {},
                    PgType::TsRangeArray => {},
                    PgType::TstzRange => {},
                    PgType::TstzRangeArray => {},
                    PgType::DateRange => {},
                    PgType::DateRangeArray => {},
                    PgType::Int8Range => {},
                    PgType::Int8RangeArray => {},
                    PgType::Jsonpath => {},
                    PgType::JsonpathArray => {},
                    _ => {},
                }
            }
            None
        }
    }

    /// Whether this is one of the built-in variants.
    pub fn is_builtin(&self) -> (r: bool)
        ensures
            r == is_builtin(*self),
    {
        !(matches!(self, PgType::Custom(_) | PgType::DeclareWithName(_) | PgType::DeclareWithOid(_)))
    }

    /// Whether this type is resolved, i.e. not a deferred declaration.
    pub fn is_resolved(&self) -> (r: bool)
        ensures
            r == is_resolved_type(*self),
    {
        !(matches!(self, PgType::DeclareWithName(_) | PgType::DeclareWithOid(_)))
    }

    /// The oid of this type. A by-name declaration carries no oid yet, so
    /// it is excluded rather than answered with a made-up value.
    pub fn oid(&self) -> (r: u32)
        requires
            !(*self is DeclareWithName),
        ensures
            r == oid_spec(*self),
    {
        match self {
            PgType::Bool => 16,
            PgType::Bytea => 17,
            PgType::Char => 18,
            PgType::Name => 19,
            PgType::Int8 => 20,
            PgType::Int2 => 21,
            PgType::Int4 => 23,
            PgType::Text => 25,
            PgType::Oid => 26,
            PgType::Json => 114,
            PgType::JsonArray => 199,
            PgType::Point => 600,
            PgType::Lseg => 601,
            PgType::Path => 602,
            PgType::Box => 603,
            PgType::Polygon => 604,
            PgType::Line => 628,
            PgType::LineArray => 629,
            PgType::Cidr => 650,
            PgType::CidrArray => 651,
            PgType::Float4 => 700,
            PgType::Float8 => 701,
            PgType::Unknown => 705,
            PgType::Circle => 718,
            PgType::CircleArray => 719,
            PgType::Macaddr8 => 774,
            PgType::Macaddr8Array => 775,
            PgType::Macaddr => 829,
            PgType::Inet => 869,
            PgType::BoolArray => 1000,
            PgType::ByteaArray => 1001,
            PgType::CharArray => 1002,
            PgType::NameArray => 1003,
            PgType::Int2Array => 1005,
            PgType::Int4Array => 1007,
            PgType::TextArray => 1009,
            PgType::BpcharArray => 1014,
            PgType::VarcharArray => 1015,
            PgType::Int8Array => 1016,
            PgType::PointArray => 1017,
            PgType::LsegArray => 1018,
            PgType::PathArray => 1019,
            PgType::BoxArray => 1020,
            PgType::Float4Array => 1021,
            PgType::Float8Array => 1022,
            PgType::PolygonArray => 1027,
            PgType::OidArray => 1028,
            PgType::MacaddrArray => 1040,
            PgType::InetArray => 1041,
            PgType::Bpchar => 1042,
            PgType::Varchar => 1043,
            PgType::Date => 1082,
            PgType::Time => 1083,
            PgType::Timestamp => 1114,
            PgType::TimestampArray => 1115,
            PgType::DateArray => 1182,
            PgType::TimeArray => 1183,
            PgType::Timestamptz => 1184,
            PgType::TimestamptzArray => 1185,
            PgType::NumericArray => 1231,
            PgType::Timetz => 1266,
            PgType::TimetzArray => 1270,
            PgType::Bit => 1560,
            PgType::BitArray => 1561,
            PgType::Varbit => 1562,
            PgType::VarbitArray => 1563,
            PgType::Numeric => 1700,
            PgType::Record => 2249,
            PgType::Interval => 2281,
            PgType::RecordArray => 2287,
            PgType::Uuid => 2950,
            PgType::UuidArray => 2951,
            PgType::Jsonb => 3802,
            PgType::JsonbArray => 3807,
            PgType::Int4Range => 3904,
            PgType::Int4RangeArray => 3905,
            PgType::NumRange => 3906,
            PgType::NumRangeArray => 3907,
            PgType::TsRange => 3908,
            PgType::TsRangeArray => 3909,
            PgType::TstzRange => 3910,
            PgType::TstzRangeArray => 3911,
            PgType::DateRange => 3912,
            PgType::DateRangeArray => 3913,
            PgType::Int8Range => 3926,
            PgType::Int8RangeArray => 3927,
            PgType::Jsonpath => 4072,
            PgType::JsonpathArray => 4073,
            PgType::Custom(c) => c.oid,
            PgType::DeclareWithOid(oid) => *oid,
            PgType::DeclareWithName(_) => 0,
        }
    }

    /// The name of this type.
    pub fn name(&self) -> (r: String)
        ensures
            r@ == name_spec(*self),
    {
        match self {
            PgType::Bool => "bool".to_owned(),
            PgType::Bytea => "bytea".to_owned(),
            PgType::Char => "char".to_owned(),
            PgType::Name => "name".to_owned(),
            PgType::Int8 => "int8".to_owned(),
            PgType::Int2 => "int2".to_owned(),
            PgType::Int4 => "int4".to_owned(),
            PgType::Text => "text".to_owned(),
            PgType::Oid => "oid".to_owned(),
            PgType::Json => "json".to_owned(),
            PgType::JsonArray => "_json".to_owned(),
            PgType::Point => "point".to_owned(),
            PgType::Lseg => "lseg".to_owned(),
            PgType::Path => "path".to_owned(),
            PgType::Box => "box".to_owned(),
            PgType::Polygon => "polygon".to_owned(),
            PgType::Line => "line".to_owned(),
            PgType::LineArray => "_line".to_owned(),
            PgType::Cidr => "cidr".to_owned(),
            PgType::CidrArray => "_cidr".to_owned(),
            PgType::Float4 => "float4".to_owned(),
            PgType::Float8 => "float8".to_owned(),
            PgType::Unknown => "unknown".to_owned(),
            PgType::Circle => "circle".to_owned(),
            PgType::CircleArray => "_circle".to_owned(),
            PgType::Macaddr8 => "macaddr8".to_owned(),
            PgType::Macaddr8Array => "_macaddr8".to_owned(),
            PgType::Macaddr => "macaddr".to_owned(),
            PgType::Inet => "inet".to_owned(),
            PgType::BoolArray => "_bool".to_owned(),
            PgType::ByteaArray => "_bytea".to_owned(),
            PgType::CharArray => "_char".to_owned(),
            PgType::NameArray => "_name".to_owned(),
            PgType::Int2Array => "_int2".to_owned(),
            PgType::Int4Array => "_int4".to_owned(),
            PgType::TextArray => "_text".to_owned(),
            PgType::BpcharArray => "_bpchar".to_owned(),
            PgType::VarcharArray => "_varchar".to_owned(),
            PgType::Int8Array => "_int8".to_owned(),
            PgType::PointArray => "_point".to_owned(),
            PgType::LsegArray => "_lseg".to_owned(),
            PgType::PathArray => "_path".to_owned(),
            PgType::BoxArray => "_box".to_owned(),
            PgType::Float4Array => "_float4".to_owned(),
            PgType::Float8Array => "_float8".to_owned(),
            PgType::PolygonArray => "_polygon".to_owned(),
            PgType::OidArray => "_oid".to_owned(),
            PgType::MacaddrArray => "_macaddr".to_owned(),
            PgType::InetArray => "_inet".to_owned(),
            PgType::Bpchar => "bpchar".to_owned(),
            PgType::Varchar => "varchar".to_owned(),
            PgType::Date => "date".to_owned(),
            PgType::Time => "time".to_owned(),
            PgType::Timestamp => "timestamp".to_owned(),
            PgType::TimestampArray => "_timestamp".to_owned(),
            PgType::DateArray => "_date".to_owned(),
            PgType::TimeArray => "_time".to_owned(),
            PgType::Timestamptz => "timestamptz".to_owned(),
            PgType::TimestamptzArray => "_timestamptz".to_owned(),
            PgType::NumericArray => "_numeric".to_owned(),
            PgType::Timetz => "timetz".to_owned(),
            PgType::TimetzArray => "_timetz".to_owned(),
            PgType::Bit => "bit".to_owned(),
            PgType::BitArray => "_bit".to_owned(),
            PgType::Varbit => "varbit".to_owned(),
            PgType::VarbitArray => "_varbit".to_owned(),
            PgType::Numeric => "numeric".to_owned(),
            PgType::Record => "record".to_owned(),
            PgType::Interval => "interval".to_owned(),
            PgType::RecordArray => "_record".to_owned(),
            PgType::Uuid => "uuid".to_owned(),
            PgType::UuidArray => "_uuid".to_owned(),
            PgType::Jsonb => "jsonb".to_owned(),
            PgType::JsonbArray => "_jsonb".to_owned(),
            PgType::Int4Range => "int4range".to_owned(),
            PgType::Int4RangeArray => "_int4range".to_owned(),
            PgType::NumRange => "numrange".to_owned(),
            PgType::NumRangeArray => "_numrange".to_owned(),
            PgType::TsRange => "tsrange".to_owned(),
            PgType::TsRangeArray => "_tsrange".to_owned(),
            PgType::TstzRange => "tstzrange".to_owned(),
            PgType::TstzRangeArray => "_tstzrange".to_owned(),
            PgType::DateRange => "daterange".to_owned(),
            PgType::DateRangeArray => "_daterange".to_owned(),
            PgType::Int8Range => "int8range".to_owned(),
            PgType::Int8RangeArray => "_int8range".to_owned(),
            PgType::Jsonpath => "jsonpath".to_owned(),
            PgType::JsonpathArray => "_jsonpath".to_owned(),
            PgType::Custom(c) => c.name.clone(),
            PgType::DeclareWithOid(_) => "?".to_owned(),
            PgType::DeclareWithName(n) => n.clone(),
        }
    }

    /// The structural kind of this type. Only a resolved type has one;
    /// asking an unresolved declaration is a caller error and excluded.
    pub fn kind(&self) -> (r: PgTypeKind)
        requires
            is_resolved_type(*self),
        ensures
            kind_eq(r, kind_spec(*self)),
    {
        match self {
            PgType::Bool => PgTypeKind::Simple,
            PgType::Bytea => PgTypeKind::Simple,
            PgType::Char => PgTypeKind::Simple,
            PgType::Name => PgTypeKind::Simple,
            PgType::Int8 => PgTypeKind::Simple,
            PgType::Int2 => PgTypeKind::Simple,
            PgType::Int4 => PgTypeKind::Simple,
            PgType::Text => PgTypeKind::Simple,
            PgType::Oid => PgTypeKind::Simple,
            PgType::Json => PgTypeKind::Simple,
            PgType::JsonArray => PgTypeKind::Array(PgTypeInfo(PgType::Json)),
            PgType::Point => PgTypeKind::Simple,
            PgType::Lseg => PgTypeKind::Simple,
            PgType::Path => PgTypeKind::Simple,
            PgType::Box => PgTypeKind::Simple,
            PgType::Polygon => PgTypeKind::Simple,
            PgType::Line => PgTypeKind::Simple,
            PgType::LineArray => PgTypeKind::Array(PgTypeInfo(PgType::Line)),
            PgType::Cidr => PgTypeKind::Simple,
            PgType::CidrArray => PgTypeKind::Array(PgTypeInfo(PgType::Cidr)),
            PgType::Float4 => PgTypeKind::Simple,
            PgType::Float8 => PgTypeKind::Simple,
            PgType::Unknown => PgTypeKind::Simple,
            PgType::Circle => PgTypeKind::Simple,
            PgType::CircleArray => PgTypeKind::Array(PgTypeInfo(PgType::Circle)),
            PgType::Macaddr8 => PgTypeKind::Simple,
            PgType::Macaddr8Array => PgTypeKind::Array(PgTypeInfo(PgType::Macaddr8)),
            PgType::Macaddr => PgTypeKind::Simple,
            PgType::Inet => PgTypeKind::Simple,
            PgType::BoolArray => PgTypeKind::Array(PgTypeInfo(PgType::Bool)),
            PgType::ByteaArray => PgTypeKind::Array(PgTypeInfo(PgType::Bytea)),
            PgType::CharArray => PgTypeKind::Array(PgTypeInfo(PgType::Char)),
            PgType::NameArray => PgTypeKind::Array(PgTypeInfo(PgType::Name)),
            PgType::Int2Array => PgTypeKind::Array(PgTypeInfo(PgType::Int2)),
            PgType::Int4Array => PgTypeKind::Array(PgTypeInfo(PgType::Int4)),
            PgType::TextArray => PgTypeKind::Array(PgTypeInfo(PgType::Text)),
            PgType::BpcharArray => PgTypeKind::Array(PgTypeInfo(PgType::Bpchar)),
            PgType::VarcharArray => PgTypeKind::Array(PgTypeInfo(PgType::Varchar)),
            PgType::Int8Array => PgTypeKind::Array(PgTypeInfo(PgType::Int8)),
            PgType::PointArray => PgTypeKind::Array(PgTypeInfo(PgType::Point)),
            PgType::LsegArray => PgTypeKind::Array(PgTypeInfo(PgType::Lseg)),
            PgType::PathArray => PgTypeKind::Array(PgTypeInfo(PgType::Path)),
            PgType::BoxArray => PgTypeKind::Array(PgTypeInfo(PgType::Box)),
            PgType::Float4Array => PgTypeKind::Array(PgTypeInfo(PgType::Float4)),
            PgType::Float8Array => PgTypeKind::Array(PgTypeInfo(PgType::Float8)),
            PgType::PolygonArray => PgTypeKind::Array(PgTypeInfo(PgType::Polygon)),
            PgType::OidArray => PgTypeKind::Array(PgTypeInfo(PgType::Oid)),
            PgType::MacaddrArray => PgTypeKind::Array(PgTypeInfo(PgType::Macaddr)),
            PgType::InetArray => PgTypeKind::Array(PgTypeInfo(PgType::Inet)),
            PgType::Bpchar => PgTypeKind::Simple,
            PgType::Varchar => PgTypeKind::Simple,
            PgType::Date => PgTypeKind::Simple,
            PgType::Time => PgTypeKind::Simple,
            PgType::Timestamp => PgTypeKind::Simple,
            PgType::TimestampArray => PgTypeKind::Array(PgTypeInfo(PgType::Timestamp)),
            PgType::DateArray => PgTypeKind::Array(PgTypeInfo(PgType::Date)),
            PgType::TimeArray => PgTypeKind::Array(PgTypeInfo(PgType::Time)),
            PgType::Timestamptz => PgTypeKind::Simple,
            PgType::TimestamptzArray => PgTypeKind::Array(PgTypeInfo(PgType::Timestamptz)),
            PgType::NumericArray => PgTypeKind::Array(PgTypeInfo(PgType::Numeric)),
            PgType::Timetz => PgTypeKind::Simple,
            PgType::TimetzArray => PgTypeKind::Array(PgTypeInfo(PgType::Timetz)),
            PgType::Bit => PgTypeKind::Simple,
            PgType::BitArray => PgTypeKind::Array(PgTypeInfo(PgType::Bit)),
            PgType::Varbit => PgTypeKind::Simple,
            PgType::VarbitArray => PgTypeKind::Array(PgTypeInfo(PgType::Varbit)),
            PgType::Numeric => PgTypeKind::Simple,
            PgType::Record => PgTypeKind::Simple,
            PgType::Interval => PgTypeKind::Simple,
            PgType::RecordArray => PgTypeKind::Array(PgTypeInfo(PgType::Record)),
            PgType::Uuid => PgTypeKind::Simple,
            PgType::UuidArray => PgTypeKind::Array(PgTypeInfo(PgType::Uuid)),
            PgType::Jsonb => PgTypeKind::Simple,
            PgType::JsonbArray => PgTypeKind::Array(PgTypeInfo(PgType::Jsonb)),
            PgType::Int4Range => PgTypeKind::Simple,
            PgType::Int4RangeArray => PgTypeKind::Array(PgTypeInfo(PgType::Int4Range)),
            PgType::NumRange => PgTypeKind::Simple,
            PgType::NumRangeArray => PgTypeKind::Array(PgTypeInfo(PgType::NumRange)),
            PgType::TsRange => PgTypeKind::Simple,
            PgType::TsRangeArray => PgTypeKind::Array(PgTypeInfo(PgType::TsRange)),
            PgType::TstzRange => PgTypeKind::Simple,
            PgType::TstzRangeArray => PgTypeKind::Array(PgTypeInfo(PgType::TstzRange)),
            PgType::DateRange => PgTypeKind::Simple,
            PgType::DateRangeArray => PgTypeKind::Array(PgTypeInfo(PgType::DateRange)),
            PgType::Int8Range => PgTypeKind::Simple,
            PgType::Int8RangeArray => PgTypeKind::Array(PgTypeInfo(PgType::Int8Range)),
            PgType::Jsonpath => PgTypeKind::Simple,
            PgType::JsonpathArray => PgTypeKind::Array(PgTypeInfo(PgType::Jsonpath)),
            PgType::Custom(c) => c.kind.duplicate(),
            PgType::DeclareWithName(_) => PgTypeKind::Simple,
            PgType::DeclareWithOid(_) => PgTypeKind::Simple,
        }
    }
}

impl PgTypeInfo {
    /// The corresponding type info, if the oid names a built-in type.
    pub fn try_from_oid(oid: u32) -> (r: Option<Self>)
        ensures
            r == match builtin_of_oid(oid) {
                Some(t) => Some(PgTypeInfo(t)),
                None => None::<PgTypeInfo>,
            },
    {
        match PgType::try_from_oid(oid) {
            Some(t) => Some(PgTypeInfo(t)),
            None => None,
        }
    }

    /// The corresponding type info, if some built-in type has this name.
    pub fn try_from_name(name: &str) -> (r: Option<Self>)
        ensures
            r == match builtin_of_name(name@) {
                Some(t) => Some(PgTypeInfo(t)),
                None => None::<PgTypeInfo>,
            },
    {
        match PgType::try_from_name(name) {
            Some(t) => Some(PgTypeInfo(t)),
            None => None,
        }
    }

    /// The structural kind of this type; only a resolved type has one.
    pub fn __kind(&self) -> (r: PgTypeKind)
        requires
            is_resolved_type(self.0),
        ensures
            kind_eq(r, kind_spec(self.0)),
    {
        self.0.kind()
    }

    /// The optional crate feature that mapping this type to a host type
    /// depends on, if any.
    pub fn __type_feature_gate(&self) -> (r: Option<&'static str>)
        ensures
            match r {
                Some(s) => feature_gate_spec(self.0) == Some(s@),
                None => feature_gate_spec(self.0) is None,
            },
    {
        match self.0 {
            PgType::Date | PgType::Time | PgType::Timestamp | PgType::Timestamptz | PgType::DateArray | PgType::TimeArray | PgType::TimestampArray | PgType::TimestamptzArray => Some("time"),
            PgType::Uuid | PgType::UuidArray => Some("uuid"),
            PgType::Json | PgType::Jsonb | PgType::JsonArray | PgType::JsonbArray => Some("json"),
            PgType::Cidr | PgType::Inet | PgType::CidrArray | PgType::InetArray => Some("ipnetwork"),
            PgType::Numeric | PgType::NumericArray => Some("bigdecimal"),
            _ => None,
        }
    }

    /// The declared name, for a reference created by [`Self::with_name`]
    /// that the catalog has not resolved yet.
    pub fn get_custom_type(&self) -> (r: Option<String>)
        ensures
            match r {
                Some(s) => self.0 matches PgType::DeclareWithName(n) && s@ == n@,
                None => !(self.0 is DeclareWithName),
            },
    {
        match &self.0 {
            PgType::DeclareWithName(n) => Some(n.clone()),
            _ => None,
        }
    }

    /// A deferred reference to a type only known by name. The catalog
    /// resolves it on first use; until then it reports no oid and no kind.
    pub fn with_name(name: &str) -> (r: Self)
        ensures
            r.0 matches PgType::DeclareWithName(n) && n@ == name@,
    {
        PgTypeInfo(PgType::DeclareWithName(name.to_owned()))
    }

    /// A deferred reference to a type only known by its oid.
    pub fn with_oid(oid: u32) -> (r: Self)
        ensures
            r.0 == PgType::DeclareWithOid(oid),
    {
        PgTypeInfo(PgType::DeclareWithOid(oid))
    }

    /// The oid this type reports; see [`PgType::oid`].
    pub fn oid(&self) -> (r: u32)
        requires
            !(self.0 is DeclareWithName),
        ensures
            r == oid_spec(self.0),
    {
        self.0.oid()
    }

    /// The name this type reports; see [`PgType::name`].
    pub fn name(&self) -> (r: String)
        ensures
            r@ == name_spec(self.0),
    {
        self.0.name()
    }

    /// Whether this type is resolved, i.e. not a deferred declaration.
    pub fn is_resolved(&self) -> (r: bool)
        ensures
            r == is_resolved_type(self.0),
    {
        self.0.is_resolved()
    }
}

/// Character-for-character equality of two string slices.
pub fn str_equal(a: &str, b: &str) -> (r: bool)
    ensures
        r == (a@ == b@),
{
    let x: String = a.to_owned();
    let y: String = b.to_owned();
    x == y
}

} // verus!

