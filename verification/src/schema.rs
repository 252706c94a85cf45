//! The fixed, ordered column schema of one track-point row.
//!
//! The column order here and the value order produced by the row mapper are
//! one wire-level contract: they must match exactly and never drift.

use vstd::prelude::*;

verus! {

/// Logical type of a column.
#[derive(Clone, Copy, PartialEq, Eq, Structural, Debug)]
pub enum ColumnDataType {
    String,
    Uint32,
    Uint64,
    Float64,
    TimestampSecond,
}

/// Semantic role of a column in the storage layer.
#[derive(Clone, Copy, PartialEq, Eq, Structural, Debug)]
pub enum SemanticType {
    /// Identity and grouping key.
    Tag,
    /// Measured or descriptive value.
    Field,
    /// The event time.
    Timestamp,
}

/// One column descriptor: name, logical type and semantic role.
#[derive(Clone, PartialEq, Eq, Debug)]
pub struct ColumnSchema {
    pub column_name: String,
    pub datatype: ColumnDataType,
    pub semantic_type: SemanticType,
}

/// One column of the schema has the given name, type and role.
pub open spec fn column_is(c: ColumnSchema, name: Seq<char>, datatype: ColumnDataType, role: SemanticType) -> bool {
    c.column_name@ == name && c.datatype == datatype && c.semantic_type == role
}

/// The 16 columns of a track-point row, in their fixed wire order: three
/// identity tags, the event time, then twelve measurement and attribute
/// fields.
pub open spec fn schema_spec_ok(cols: Seq<ColumnSchema>) -> bool {
    &&& cols.len() == 16
    &&& column_is(cols[0], "name"@, ColumnDataType::String, SemanticType::Tag)
    &&& column_is(cols[1], "track"@, ColumnDataType::Uint32, SemanticType::Tag)
    &&& column_is(cols[2], "segment"@, ColumnDataType::Uint32, SemanticType::Tag)
    &&& column_is(cols[3], "ts"@, ColumnDataType::TimestampSecond, SemanticType::Timestamp)
    &&& column_is(cols[4], "latitude"@, ColumnDataType::Float64, SemanticType::Field)
    &&& column_is(cols[5], "longitude"@, ColumnDataType::Float64, SemanticType::Field)
    &&& column_is(cols[6], "elevation"@, ColumnDataType::Float64, SemanticType::Field)
    &&& column_is(cols[7], "geoidheight"@, ColumnDataType::Float64, SemanticType::Field)
    &&& column_is(cols[8], "hdop"@, ColumnDataType::Float64, SemanticType::Field)
    &&& column_is(cols[9], "vdop"@, ColumnDataType::Float64, SemanticType::Field)
    &&& column_is(cols[10], "pdop"@, ColumnDataType::Float64, SemanticType::Field)
    &&& column_is(cols[11], "comment"@, ColumnDataType::String, SemanticType::Field)
    &&& column_is(cols[12], "description"@, ColumnDataType::String, SemanticType::Field)
    &&& column_is(cols[13], "source"@, ColumnDataType::String, SemanticType::Field)
    &&& column_is(cols[14], "symbol"@, ColumnDataType::String, SemanticType::Field)
    &&& column_is(cols[15], "sat"@, ColumnDataType::Uint64, SemanticType::Field)
}

/// Creates the schema for track-point data: the 16 column descriptors, in
/// the exact order the row mapper produces values.
pub fn gpx_schema() -> (r: Vec<ColumnSchema>)
    ensures
        schema_spec_ok(r@),
{
    let mut fields: Vec<ColumnSchema> = Vec::new();
    fields.push(ColumnSchema {
        column_name: "name".to_owned(),
        datatype: ColumnDataType::String,
        semantic_type: SemanticType::Tag,
    });
    fields.push(ColumnSchema {
        column_name: "track".to_owned(),
        datatype: ColumnDataType::Uint32,
        semantic_type: SemanticType::Tag,
    });
    fields.push(ColumnSchema {
        column_name: "segment".to_owned(),
        datatype: ColumnDataType::Uint32,
        semantic_type: SemanticType::Tag,
    });
    fields.push(ColumnSchema {
        column_name: "ts".to_owned(),
        datatype: ColumnDataType::TimestampSecond,
        semantic_type: SemanticType::Timestamp,
    });
    fields.push(ColumnSchema {
        column_name: "latitude".to_owned(),
        datatype: ColumnDataType::Float64,
        semantic_type: SemanticType::Field,
    });
    fields.push(ColumnSchema {
        column_name: "longitude".to_owned(),
        datatype: ColumnDataType::Float64,
        semantic_type: SemanticType::Field,
    });
    fields.push(ColumnSchema {
        column_name: "elevation".to_owned(),
        datatype: ColumnDataType::Float64,
        semantic_type: SemanticType::Field,
    });
    fields.push(ColumnSchema {
        column_name: "geoidheight".to_owned(),
        datatype: ColumnDataType::Float64,
        semantic_type: SemanticType::Field,
    });
    fields.push(ColumnSchema {
        column_name: "hdop".to_owned(),
        datatype: ColumnDataType::Float64,
        semantic_type: SemanticType::Field,
    });
    fields.push(ColumnSchema {
        column_name: "vdop".to_owned(),
        datatype: ColumnDataType::Float64,
        semantic_type: SemanticType::Field,
    });
    fields.push(ColumnSchema {
        column_name: "pdop".to_owned(),
        datatype: ColumnDataType::Float64,
        semantic_type: SemanticType::Field,
    });
    fields.push(ColumnSchema {
        column_name: "comment".to_owned(),
        datatype: ColumnDataType::String,
        semantic_type: SemanticType::Field,
    });
    fields.push(ColumnSchema {
        column_name: "description".to_owned(),
        datatype: ColumnDataType::String,
        semantic_type: SemanticType::Field,
    });
    fields.push(ColumnSchema {
        column_name: "source".to_owned(),
        datatype: ColumnDataType::String,
        semantic_type: SemanticType::Field,
    });
    fields.push(ColumnSchema {
        column_name: "symbol".to_owned(),
        datatype: ColumnDataType::String,
        semantic_type: SemanticType::Field,
    });
    fields.push(ColumnSchema {
        column_name: "sat".to_owned(),
        datatype: ColumnDataType::Uint64,
        semantic_type: SemanticType::Field,
    });
    fields
}

} // verus!
