//! Mapping points to rows, and building the batched insert request.
//!
//! The row shapes here mirror the wire format of the ingestion boundary,
//! with binary64 numbers held as bit patterns. The surrounding driver
//! converts them one-for-one into the transport's own types and submits the
//! request; a batch is always one table, one schema, and one row per point.

use vstd::prelude::*;

use crate::error::Error;
use crate::schema::{gpx_schema, schema_spec_ok, ColumnDataType, ColumnSchema, SemanticType};
use crate::track::Point;

verus! {

/// The typed content of one row cell. `F64Value` carries the binary64 bit
/// pattern of the number on the wire.
#[derive(Clone, PartialEq, Eq, Debug)]
pub enum ValueData {
    StringValue(String),
    U32Value(u32),
    U64Value(u64),
    F64Value(u64),
    TimestampSecondValue(i64),
}

/// One row cell: a value, or the explicit "no value" marker — the storage
/// layer distinguishes unset from zero or empty.
#[derive(Clone, PartialEq, Eq, Debug)]
pub struct Value {
    pub value_data: Option<ValueData>,
}

/// One row: an ordered tuple of cells, produced fresh per point.
#[derive(Clone, PartialEq, Eq, Debug)]
pub struct Row {
    pub values: Vec<Value>,
}

/// A batch: the schema and one row per point, in point order.
#[derive(Clone, PartialEq, Eq, Debug)]
pub struct Rows {
    pub schema: Vec<ColumnSchema>,
    pub rows: Vec<Row>,
}

/// One insert of a batch into a named table.
#[derive(Clone, PartialEq, Eq, Debug)]
pub struct RowInsertRequest {
    pub table_name: String,
    pub rows: Option<Rows>,
}

/// The full submission unit handed to the ingestion boundary.
#[derive(Clone, PartialEq, Eq, Debug)]
pub struct RowInsertRequests {
    pub inserts: Vec<RowInsertRequest>,
}

/// An optional binary64 cell: the bit pattern when present, the unset
/// marker when absent.
pub open spec fn opt_f64_cell(v: Value, o: Option<u64>) -> bool {
    match o {
        Some(b) => v.value_data == Some(ValueData::F64Value(b)),
        None => v.value_data is None,
    }
}

/// An optional string cell.
pub open spec fn opt_string_cell(v: Value, o: Option<String>) -> bool {
    match o {
        Some(s) => v.value_data == Some(ValueData::StringValue(s)),
        None => v.value_data is None,
    }
}

/// An optional unsigned 64-bit cell.
pub open spec fn opt_u64_cell(v: Value, o: Option<u64>) -> bool {
    match o {
        Some(u) => v.value_data == Some(ValueData::U64Value(u)),
        None => v.value_data is None,
    }
}

/// The row produced from one point: exactly 16 values, in the fixed schema
/// order, with every absent optional attribute mapped to the unset marker.
/// The timestamp cell is the point's time as whole seconds since the epoch
/// (sub-second precision floored away).
pub open spec fn row_spec(row: Row, name: Seq<char>, track: u32, segment: u32, p: Point) -> bool {
    &&& row.values@.len() == 16
    &&& (row.values@[0].value_data matches Some(ValueData::StringValue(s)) && s@ == name)
    &&& row.values@[1].value_data == Some(ValueData::U32Value(track))
    &&& row.values@[2].value_data == Some(ValueData::U32Value(segment))
    &&& (p.time matches Some(t) && row.values@[3].value_data == Some(
        ValueData::TimestampSecondValue(t.seconds),
    ))
    &&& row.values@[4].value_data == Some(ValueData::F64Value(p.latitude))
    &&& row.values@[5].value_data == Some(ValueData::F64Value(p.longitude))
    &&& opt_f64_cell(row.values@[6], p.elevation)
    &&& opt_f64_cell(row.values@[7], p.geoidheight)
    &&& opt_f64_cell(row.values@[8], p.hdop)
    &&& opt_f64_cell(row.values@[9], p.vdop)
    &&& opt_f64_cell(row.values@[10], p.pdop)
    &&& opt_string_cell(row.values@[11], p.comment)
    &&& opt_string_cell(row.values@[12], p.description)
    &&& opt_string_cell(row.values@[13], p.source)
    &&& opt_string_cell(row.values@[14], p.symbol)
    &&& opt_u64_cell(row.values@[15], p.sat)
}

/// Converts one point plus its track identity to a row. A point without a
/// timestamp is a fatal error, never a silently-zeroed cell.
pub fn waypoint_to_row(name: &str, track: u32, segment: u32, p: Point) -> (r: Result<Row, Error>)
    ensures
        r is Ok <==> p.time is Some,
        r matches Ok(row) ==> row_spec(row, name@, track, segment, p),
        r matches Err(e) ==> e is TimestampNotPresent,
{
    let ts: i64 = match p.time {
        Some(t) => t.seconds,
        None => {
            return Err(Error::TimestampNotPresent);
        },
    };
    let mut values: Vec<Value> = Vec::new();
    values.push(Value { value_data: Some(ValueData::StringValue(name.to_owned())) });
    values.push(Value { value_data: Some(ValueData::U32Value(track)) });
    values.push(Value { value_data: Some(ValueData::U32Value(segment)) });
    values.push(Value { value_data: Some(ValueData::TimestampSecondValue(ts)) });
    values.push(Value { value_data: Some(ValueData::F64Value(p.latitude)) });
    values.push(Value { value_data: Some(ValueData::F64Value(p.longitude)) });
    values.push(Value {
        value_data: match p.elevation {
            Some(b) => Some(ValueData::F64Value(b)),
            None => None,
        },
    });
    values.push(Value {
        value_data: match p.geoidheight {
            Some(b) => Some(ValueData::F64Value(b)),
            None => None,
        },
    });
    values.push(Value {
        value_data: match p.hdop {
            Some(b) => Some(ValueData::F64Value(b)),
            None => None,
        },
    });
    values.push(Value {
        value_data: match p.vdop {
            Some(b) => Some(ValueData::F64Value(b)),
            None => None,
        },
    });
    values.push(Value {
        value_data: match p.pdop {
            Some(b) => Some(ValueData::F64Value(b)),
            None => None,
        },
    });
    values.push(Value {
        value_data: match p.comment {
            Some(s) => Some(ValueData::StringValue(s)),
            None => None,
        },
    });
    values.push(Value {
        value_data: match p.description {
            Some(s) => Some(ValueData::StringValue(s)),
            None => None,
        },
    });
    values.push(Value {
        value_data: match p.source {
            Some(s) => Some(ValueData::StringValue(s)),
            None => None,
        },
    });
    values.push(Value {
        value_data: match p.symbol {
            Some(s) => Some(ValueData::StringValue(s)),
            None => None,
        },
    });
    values.push(Value {
        value_data: match p.sat {
            Some(u) => Some(ValueData::U64Value(u)),
            None => None,
        },
    });
    Ok(Row { values })
}

/// Every point of the batch carries a timestamp: exactly when the batch
/// builds.
pub open spec fn all_times_present(records: Seq<Point>) -> bool {
    forall|i: int| 0 <= i < records.len() ==> (#[trigger] records[i]).time is Some
}

/// One row per point, in point order, each as the row mapper produces it.
pub open spec fn rows_ok(rows: Seq<Row>, name: Seq<char>, track: u32, segment: u32, records: Seq<Point>) -> bool {
    &&& rows.len() == records.len()
    &&& forall|i: int| 0 <= i < records.len() ==> row_spec(
        #[trigger] rows[i],
        name,
        track,
        segment,
        records[i],
    )
}

/// The submission unit built from one segment's points: a single insert
/// into `table_name`, carrying the 16-column schema and one row per point.
pub open spec fn insert_request_ok(reqs: RowInsertRequests, table_name: Seq<char>, name: Seq<char>, track: u32, segment: u32, records: Seq<Point>) -> bool {
    &&& reqs.inserts@.len() == 1
    &&& reqs.inserts@[0].table_name@ == table_name
    &&& reqs.inserts@[0].rows matches Some(rows) && {
        &&& schema_spec_ok(rows.schema@)
        &&& rows_ok(rows.rows@, name, track, segment, records)
    }
}

/// Converts one segment's points to the submission unit: one insert, one
/// table, one schema reference, one row per point. The first point without
/// a timestamp aborts the batch.
pub fn to_insert_request(table_name: &str, name: &str, track: u32, segment: u32, records: Vec<Point>) -> (r: Result<
    RowInsertRequests,
    Error,
>)
    ensures
        r is Ok <==> all_times_present(records@),
        r matches Ok(reqs) ==> insert_request_ok(reqs, table_name@, name@, track, segment, records@),
        r matches Err(e) ==> e is TimestampNotPresent,
{
    let ghost r0 = records@;
    let mut rest = records;
    let mut rows: Vec<Row> = Vec::new();
    let mut failed = false;
    while !failed && rest.len() > 0
        invariant
            !failed ==> rows@.len() + rest@.len() == r0.len(),
            !failed ==> rest@ == r0.skip(rows@.len() as int),
            failed ==> !all_times_present(r0),
            forall|i: int| 0 <= i < rows@.len() ==> row_spec(
                #[trigger] rows@[i],
                name@,
                track,
                segment,
                r0[i],
            ),
            forall|i: int| 0 <= i < rows@.len() ==> (#[trigger] r0[i]).time is Some,
        decreases rest@.len(),
    {
        let ghost done = rows@.len() as int;
        let p = rest.remove(0);
        proof {
            assert(p == r0[done]);
            assert(rest@ =~= r0.skip(done + 1));
        }
        match waypoint_to_row(name, track, segment, p) {
            Ok(row) => {
                rows.push(row);
            },
            Err(_) => {
                failed = true;
            },
        }
    }
    if failed {
        return Err(Error::TimestampNotPresent);
    }
    let schema = gpx_schema();
    let mut inserts: Vec<RowInsertRequest> = Vec::new();
    inserts.push(RowInsertRequest {
        table_name: table_name.to_owned(),
        rows: Some(Rows { schema, rows }),
    });
    Ok(RowInsertRequests { inserts })
}

/// Basic authentication credentials for the ingestion client.
#[derive(Clone, PartialEq, Eq, Debug)]
pub struct BasicAuth {
    pub username: String,
    pub password: String,
}

/// The outcome of resolving the optional username and password options.
#[derive(Clone, PartialEq, Eq, Debug)]
pub enum AuthResolution {
    /// Neither credential was supplied: connect without authentication.
    NoAuth,
    /// Both credentials were supplied.
    Basic(BasicAuth),
    /// Exactly one credential was supplied: a fatal configuration error,
    /// rejected before any connection is made.
    Invalid,
}

/// Decides the authentication scheme from the two credential options:
/// both-or-neither, anything else is rejected.
pub fn resolve_auth(username: Option<String>, password: Option<String>) -> (r: AuthResolution)
    ensures
        username is Some && password is Some ==> r == AuthResolution::Basic(
            BasicAuth { username: username.unwrap(), password: password.unwrap() },
        ),
        username is None && password is None ==> r == AuthResolution::NoAuth,
        (username is Some) != (password is Some) ==> r == AuthResolution::Invalid,
{
    match (username, password) {
        (Some(u), Some(p)) => AuthResolution::Basic(BasicAuth { username: u, password: p }),
        (None, None) => AuthResolution::NoAuth,
        _ => AuthResolution::Invalid,
    }
}

/// The cell's content fits the column's logical type.
pub open spec fn data_matches_type(d: ValueData, t: ColumnDataType) -> bool {
    match d {
        ValueData::StringValue(_) => t is String,
        ValueData::U32Value(_) => t is Uint32,
        ValueData::U64Value(_) => t is Uint64,
        ValueData::F64Value(_) => t is Float64,
        ValueData::TimestampSecondValue(_) => t is TimestampSecond,
    }
}

/// The cell is admissible under the column descriptor: a present value fits
/// the column's type, and the identity tags and the event time are never
/// the unset marker.
pub open spec fn value_matches_column(v: Value, c: ColumnSchema) -> bool {
    &&& (c.semantic_type is Tag || c.semantic_type is Timestamp ==> v.value_data is Some)
    &&& (v.value_data matches Some(d) ==> data_matches_type(d, c.datatype))
}

/// Law: every row the mapper produces matches the schema column for column
/// — same arity, each value of the column's logical type, with the three
/// tags and the event time always present.
pub proof fn lemma_row_matches_schema(row: Row, cols: Seq<ColumnSchema>, name: Seq<char>, track: u32, segment: u32, p: Point)
    requires
        row_spec(row, name, track, segment, p),
        schema_spec_ok(cols),
    ensures
        row.values@.len() == cols.len(),
        forall|j: int| 0 <= j < cols.len() ==> value_matches_column(
            #[trigger] row.values@[j],
            cols[j],
        ),
{
    assert forall|j: int| 0 <= j < cols.len() implies value_matches_column(
        row.values@[j],
        cols[j],
    ) by {
        assert(opt_f64_cell(row.values@[6], p.elevation));
        assert(opt_f64_cell(row.values@[7], p.geoidheight));
        assert(opt_f64_cell(row.values@[8], p.hdop));
        assert(opt_f64_cell(row.values@[9], p.vdop));
        assert(opt_f64_cell(row.values@[10], p.pdop));
        assert(opt_string_cell(row.values@[11], p.comment));
        assert(opt_string_cell(row.values@[12], p.description));
        assert(opt_string_cell(row.values@[13], p.source));
        assert(opt_string_cell(row.values@[14], p.symbol));
        assert(opt_u64_cell(row.values@[15], p.sat));
    }
}

/// Law: in a built submission unit, every row matches the schema that
/// travels beside it, column for column — the wire-level lockstep between
/// the row mapper and the schema holds for the whole batch.
pub proof fn lemma_batch_matches_schema(reqs: RowInsertRequests, table_name: Seq<char>, name: Seq<char>, track: u32, segment: u32, records: Seq<Point>)
    requires
        insert_request_ok(reqs, table_name, name, track, segment, records),
    ensures
        reqs.inserts@[0].rows matches Some(rows) ==> {
            &&& rows.rows@.len() == records.len()
            &&& forall|i: int, j: int|
                0 <= i < rows.rows@.len() && 0 <= j < rows.schema@.len()
                    ==> value_matches_column(#[trigger] rows.rows@[i].values@[j], rows.schema@[j])
        },
{
    let rows = reqs.inserts@[0].rows.unwrap();
    assert forall|i: int, j: int|
        0 <= i < rows.rows@.len() && 0 <= j < rows.schema@.len() implies value_matches_column(
        #[trigger] rows.rows@[i].values@[j],
        rows.schema@[j],
    ) by {
        lemma_row_matches_schema(rows.rows@[i], rows.schema@, name, track, segment, records[i]);
    }
}

} // verus!
