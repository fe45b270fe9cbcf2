//! Decoding log records into typed operations.
//!
//! Every record names its kind in the `op` field; each kind has its own set
//! of required fields. Decoding is all or nothing: either every required
//! field is read, or the first one that cannot be read is reported.

use crate::error::{Error, ErrorView};
use crate::record::{
    doc_at, field_at, fields, get_document, get_i64, get_str, get_timestamp, i64_at, stamp_at,
    str_at, AccessError, Field,
};
use bson::{Document, Timestamp};
use vstd::prelude::*;
use vstd::string::*;

verus! {

/// A point in time: POSIX seconds and a sub-second part in nanoseconds.
#[derive(Clone, Copy, Debug, PartialEq, Eq, Structural)]
pub struct UtcTime {
    /// Seconds since the Unix epoch.
    pub seconds: i64,
    /// Nanoseconds past `seconds`.
    pub nanoseconds: u64,
}

/// Two to the 32nd: the weight of the seconds in a compound timestamp.
pub open spec fn word() -> int {
    0x1_0000_0000
}

/// The time that a compound timestamp stands for: its high 32 bits are
/// seconds, its low 32 bits an ordinal within the second, scaled by one
/// million into nanoseconds.
pub open spec fn utc_time_of(compound: u64) -> UtcTime {
    UtcTime {
        seconds: (compound as int / word()) as i64,
        nanoseconds: ((compound as int % word()) * 1_000_000) as u64,
    }
}

/// The 64-bit compound value of a server timestamp.
pub open spec fn compound_of(t: Timestamp) -> u64 {
    (t.time as int * word() + t.increment as int) as u64
}

/// Converts a compound timestamp into a point in time.
pub fn timestamp_to_datetime(compound: u64) -> (t: UtcTime)
    ensures
        t == utc_time_of(compound),
        t.seconds as int == compound as int / word(),
        t.nanoseconds as int == (compound as int % word()) * 1_000_000,
{
    let seconds: u64 = compound >> 32;
    let ordinal: u64 = compound & 0xFFFF_FFFF;
    assert(seconds == compound / 0x1_0000_0000) by (bit_vector)
        requires
            seconds == compound >> 32,
    ;
    assert(ordinal == compound % 0x1_0000_0000) by (bit_vector)
        requires
            ordinal == compound & 0xFFFF_FFFF,
    ;
    UtcTime { seconds: seconds as i64, nanoseconds: ordinal * 1_000_000 }
}

/// Joins the two halves of a server timestamp into its compound value.
fn compound_value(t: Timestamp) -> (c: u64)
    ensures
        c == compound_of(t),
{
    let high: u64 = t.time as u64;
    let low: u64 = t.increment as u64;
    let c: u64 = (high << 32) | low;
    assert(c == high * 0x1_0000_0000 + low) by (bit_vector)
        requires
            c == (high << 32) | low,
            high < 0x1_0000_0000,
            low < 0x1_0000_0000,
    ;
    c
}

/// A replica set log operation.
#[derive(Clone, Debug, PartialEq)]
pub enum Operation {
    /// A no-op, written periodically by the server or when a replica set starts.
    Noop {
        /// A unique identifier for this operation.
        id: i64,
        /// The time of the operation.
        timestamp: UtcTime,
        /// The message carried by the no-op.
        message: String,
    },
    /// A document inserted into a namespace.
    Insert {
        /// A unique identifier for this operation.
        id: i64,
        /// The time of the operation.
        timestamp: UtcTime,
        /// The namespace, `<database>.<collection>`.
        namespace: String,
        /// The inserted document.
        document: Document,
    },
    /// A document matching a query updated in a namespace.
    Update {
        /// A unique identifier for this operation.
        id: i64,
        /// The time of the operation.
        timestamp: UtcTime,
        /// The namespace, `<database>.<collection>`.
        namespace: String,
        /// The selection criteria of the update.
        query: Document,
        /// The update applied.
        update: Document,
    },
    /// A document matching a query deleted from a namespace.
    Delete {
        /// A unique identifier for this operation.
        id: i64,
        /// The time of the operation.
        timestamp: UtcTime,
        /// The namespace, `<database>.<collection>`.
        namespace: String,
        /// The selection criteria of the delete.
        query: Document,
    },
    /// An administrative command, such as creating or dropping a collection.
    Command {
        /// A unique identifier for this operation.
        id: i64,
        /// The time of the operation.
        timestamp: UtcTime,
        /// The namespace, `<database>.<collection>`.
        namespace: String,
        /// The command.
        command: Document,
    },
}

/// An `Operation` with its strings seen as character sequences.
pub enum OperationView {
    /// See `Operation::Noop`.
    Noop { id: i64, timestamp: UtcTime, message: Seq<char> },
    /// See `Operation::Insert`.
    Insert { id: i64, timestamp: UtcTime, namespace: Seq<char>, document: Document },
    /// See `Operation::Update`.
    Update {
        id: i64,
        timestamp: UtcTime,
        namespace: Seq<char>,
        query: Document,
        update: Document,
    },
    /// See `Operation::Delete`.
    Delete { id: i64, timestamp: UtcTime, namespace: Seq<char>, query: Document },
    /// See `Operation::Command`.
    Command { id: i64, timestamp: UtcTime, namespace: Seq<char>, command: Document },
}

impl View for Operation {
    type V = OperationView;

    open spec fn view(&self) -> OperationView {
        match self {
            Operation::Noop { id, timestamp, message } => OperationView::Noop {
                id: *id,
                timestamp: *timestamp,
                message: message@,
            },
            Operation::Insert { id, timestamp, namespace, document } => OperationView::Insert {
                id: *id,
                timestamp: *timestamp,
                namespace: namespace@,
                document: *document,
            },
            Operation::Update { id, timestamp, namespace, query, update } => OperationView::Update {
                id: *id,
                timestamp: *timestamp,
                namespace: namespace@,
                query: *query,
                update: *update,
            },
            Operation::Delete { id, timestamp, namespace, query } => OperationView::Delete {
                id: *id,
                timestamp: *timestamp,
                namespace: namespace@,
                query: *query,
            },
            Operation::Command { id, timestamp, namespace, command } => OperationView::Command {
                id: *id,
                timestamp: *timestamp,
                namespace: namespace@,
                command: *command,
            },
        }
    }
}

/// A decode result with its values seen through their views.
pub open spec fn outcome(r: Result<Operation, Error>) -> Result<OperationView, ErrorView> {
    match r {
        Ok(op) => Ok(op@),
        Err(e) => Err(e@),
    }
}

/// The error for a required field `key` that could not be read.
pub open spec fn missing(key: Seq<char>, cause: AccessError) -> ErrorView {
    ErrorView::MissingField { field: key, cause }
}

/// The fields every operation starts with: `h` (the id) and `ts` (the time).
pub open spec fn head_of(d: Document) -> Result<(i64, UtcTime), ErrorView> {
    match i64_at(d, "h"@) {
        Err(e) => Err(missing("h"@, e)),
        Ok(id) => match stamp_at(d, "ts"@) {
            Err(e) => Err(missing("ts"@, e)),
            Ok(ts) => Ok((id, utc_time_of(compound_of(ts)))),
        },
    }
}

/// The head followed by `ns` (the namespace) and `o` (the main payload).
pub open spec fn body_of(d: Document) -> Result<(i64, UtcTime, Seq<char>, Document), ErrorView> {
    match head_of(d) {
        Err(e) => Err(e),
        Ok((id, t)) => match str_at(d, "ns"@) {
            Err(e) => Err(missing("ns"@, e)),
            Ok(ns) => match doc_at(d, "o"@) {
                Err(e) => Err(missing("o"@, e)),
                Ok(o) => Ok((id, t, ns, o)),
            },
        },
    }
}

/// A no-op record: the head, then the payload `o` and its string `msg`.
pub open spec fn noop_of(d: Document) -> Result<OperationView, ErrorView> {
    match head_of(d) {
        Err(e) => Err(e),
        Ok((id, t)) => match doc_at(d, "o"@) {
            Err(e) => Err(missing("o"@, e)),
            Ok(o) => match str_at(o, "msg"@) {
                Err(e) => Err(missing("msg"@, e)),
                Ok(msg) => Ok(OperationView::Noop { id, timestamp: t, message: msg }),
            },
        },
    }
}

/// An insert record: the body, whose payload is the inserted document.
pub open spec fn insert_of(d: Document) -> Result<OperationView, ErrorView> {
    match body_of(d) {
        Err(e) => Err(e),
        Ok((id, t, ns, o)) => Ok(
            OperationView::Insert { id, timestamp: t, namespace: ns, document: o },
        ),
    }
}

/// An update record: the body, whose payload is the update, then the query `o2`.
pub open spec fn update_of(d: Document) -> Result<OperationView, ErrorView> {
    match body_of(d) {
        Err(e) => Err(e),
        Ok((id, t, ns, o)) => match doc_at(d, "o2"@) {
            Err(e) => Err(missing("o2"@, e)),
            Ok(o2) => Ok(
                OperationView::Update { id, timestamp: t, namespace: ns, query: o2, update: o },
            ),
        },
    }
}

/// A delete record: the body, whose payload is the query.
pub open spec fn delete_of(d: Document) -> Result<OperationView, ErrorView> {
    match body_of(d) {
        Err(e) => Err(e),
        Ok((id, t, ns, o)) => Ok(
            OperationView::Delete { id, timestamp: t, namespace: ns, query: o },
        ),
    }
}

/// A command record: the body, whose payload is the command.
pub open spec fn command_of(d: Document) -> Result<OperationView, ErrorView> {
    match body_of(d) {
        Err(e) => Err(e),
        Ok((id, t, ns, o)) => Ok(
            OperationView::Command { id, timestamp: t, namespace: ns, command: o },
        ),
    }
}

/// What decoding a record gives: the discriminator `op` must be a string,
/// and its first character picks the kind of operation.
pub open spec fn decode(d: Document) -> Result<OperationView, ErrorView> {
    match str_at(d, "op"@) {
        Err(_) => Err(ErrorView::InvalidOperation),
        Ok(code) => if code.len() > 0 && code[0] == 'n' {
            noop_of(d)
        } else if code.len() > 0 && code[0] == 'i' {
            insert_of(d)
        } else if code.len() > 0 && code[0] == 'u' {
            update_of(d)
        } else if code.len() > 0 && code[0] == 'd' {
            delete_of(d)
        } else if code.len() > 0 && code[0] == 'c' {
            command_of(d)
        } else {
            Err(ErrorView::UnknownOperation(code))
        },
    }
}

/// Reads the id and the time of a record.
fn read_head(d: &Document) -> (r: Result<(i64, UtcTime), Error>)
    ensures
        match r {
            Ok(v) => head_of(*d) == Ok::<(i64, UtcTime), ErrorView>(v),
            Err(e) => head_of(*d) == Err::<(i64, UtcTime), ErrorView>(e@),
        },
{
    let id = match get_i64(d, "h") {
        Ok(v) => v,
        Err(e) => return Err(Error::missing_field("h", e)),
    };
    let ts = match get_timestamp(d, "ts") {
        Ok(t) => t,
        Err(e) => return Err(Error::missing_field("ts", e)),
    };
    Ok((id, timestamp_to_datetime(compound_value(ts))))
}

/// Reads the id, the time, the namespace and the main payload of a record.
fn read_body(d: &Document) -> (r: Result<(i64, UtcTime, String, Document), Error>)
    ensures
        match r {
            Ok((id, t, ns, o)) => body_of(*d) == Ok::<
                (i64, UtcTime, Seq<char>, Document),
                ErrorView,
            >((id, t, ns@, o)),
            Err(e) => body_of(*d) == Err::<(i64, UtcTime, Seq<char>, Document), ErrorView>(e@),
        },
{
    let (id, t) = match read_head(d) {
        Ok(v) => v,
        Err(e) => return Err(e),
    };
    let ns = match get_str(d, "ns") {
        Ok(s) => s,
        Err(e) => return Err(Error::missing_field("ns", e)),
    };
    let o = match get_document(d, "o") {
        Ok(o) => o,
        Err(e) => return Err(Error::missing_field("o", e)),
    };
    Ok((id, t, ns, o))
}

impl Operation {
    /// Decodes a log record into an operation.
    ///
    /// The record's `op` field must be a string; its first character picks the
    /// kind: `n` no-op, `i` insert, `u` update, `d` delete, `c` command. A record
    /// without a readable `op` gives `InvalidOperation`; any other code gives
    /// `UnknownOperation` with that code; a required field that is absent or
    /// of another kind gives `MissingField`.
    pub fn new(document: &Document) -> (r: Result<Operation, Error>)
        ensures
            outcome(r) == decode(*document),
    {
        let code = match get_str(document, "op") {
            Ok(c) => c,
            Err(_) => return Err(Error::InvalidOperation),
        };
        if code.as_str().unicode_len() > 0 {
            let first = code.as_str().get_char(0);
            if first == 'n' {
                return Operation::from_noop(document);
            } else if first == 'i' {
                return Operation::from_insert(document);
            } else if first == 'u' {
                return Operation::from_update(document);
            } else if first == 'd' {
                return Operation::from_delete(document);
            } else if first == 'c' {
                return Operation::from_command(document);
            }
        }
        Err(Error::UnknownOperation(code))
    }

    /// Decodes a no-op record, whatever its `op` field holds.
    pub fn from_noop(document: &Document) -> (r: Result<Operation, Error>)
        ensures
            outcome(r) == noop_of(*document),
    {
        let (id, timestamp) = match read_head(document) {
            Ok(v) => v,
            Err(e) => return Err(e),
        };
        let o = match get_document(document, "o") {
            Ok(o) => o,
            Err(e) => return Err(Error::missing_field("o", e)),
        };
        let message = match get_str(&o, "msg") {
            Ok(m) => m,
            Err(e) => return Err(Error::missing_field("msg", e)),
        };
        Ok(Operation::Noop { id, timestamp, message })
    }

    /// Decodes an insert record, whatever its `op` field holds.
    pub fn from_insert(document: &Document) -> (r: Result<Operation, Error>)
        ensures
            outcome(r) == insert_of(*document),
    {
        match read_body(document) {
            Ok((id, timestamp, namespace, o)) => Ok(
                Operation::Insert { id, timestamp, namespace, document: o },
            ),
            Err(e) => Err(e),
        }
    }

    /// Decodes an update record, whatever its `op` field holds.
    pub fn from_update(document: &Document) -> (r: Result<Operation, Error>)
        ensures
            outcome(r) == update_of(*document),
    {
        let (id, timestamp, namespace, o) = match read_body(document) {
            Ok(v) => v,
            Err(e) => return Err(e),
        };
        let o2 = match get_document(document, "o2") {
            Ok(q) => q,
            Err(e) => return Err(Error::missing_field("o2", e)),
        };
        Ok(Operation::Update { id, timestamp, namespace, query: o2, update: o })
    }

    /// Decodes a delete record, whatever its `op` field holds.
    pub fn from_delete(document: &Document) -> (r: Result<Operation, Error>)
        ensures
            outcome(r) == delete_of(*document),
    {
        match read_body(document) {
            Ok((id, timestamp, namespace, o)) => Ok(
                Operation::Delete { id, timestamp, namespace, query: o },
            ),
            Err(e) => Err(e),
        }
    }

    /// Decodes a command record, whatever its `op` field holds.
    pub fn from_command(document: &Document) -> (r: Result<Operation, Error>)
        ensures
            outcome(r) == command_of(*document),
    {
        match read_body(document) {
            Ok((id, timestamp, namespace, o)) => Ok(
                Operation::Command { id, timestamp, namespace, command: o },
            ),
            Err(e) => Err(e),
        }
    }
}

/// Whether a discriminator picks one of the five kinds of operation.
pub open spec fn known_code(code: Seq<char>) -> bool {
    code.len() > 0 && (code[0] == 'n' || code[0] == 'i' || code[0] == 'u' || code[0] == 'd'
        || code[0] == 'c')
}

/// A well-formed no-op record decodes to a no-op with the record's id, time
/// and message.
pub proof fn lemma_noop_decodes(
    d: Document,
    code: Seq<char>,
    id: i64,
    ts: Timestamp,
    o: Document,
    msg: Seq<char>,
)
    requires
        field_at(d, "op"@) == Some(Field::Str(code)),
        code.len() > 0,
        code[0] == 'n',
        field_at(d, "h"@) == Some(Field::Int64(id)),
        field_at(d, "ts"@) == Some(Field::Stamp(ts)),
        field_at(d, "o"@) == Some(Field::Doc(o)),
        field_at(o, "msg"@) == Some(Field::Str(msg)),
    ensures
        decode(d) == Ok::<OperationView, ErrorView>(
            OperationView::Noop { id, timestamp: utc_time_of(compound_of(ts)), message: msg },
        ),
{
}

/// A well-formed insert record decodes to an insert with the record's id,
/// time, namespace and document.
pub proof fn lemma_insert_decodes(
    d: Document,
    code: Seq<char>,
    id: i64,
    ts: Timestamp,
    ns: Seq<char>,
    o: Document,
)
    requires
        field_at(d, "op"@) == Some(Field::Str(code)),
        code.len() > 0,
        code[0] == 'i',
        field_at(d, "h"@) == Some(Field::Int64(id)),
        field_at(d, "ts"@) == Some(Field::Stamp(ts)),
        field_at(d, "ns"@) == Some(Field::Str(ns)),
        field_at(d, "o"@) == Some(Field::Doc(o)),
    ensures
        decode(d) == Ok::<OperationView, ErrorView>(
            OperationView::Insert {
                id,
                timestamp: utc_time_of(compound_of(ts)),
                namespace: ns,
                document: o,
            },
        ),
{
}

/// A well-formed update record decodes to an update whose query is `o2` and
/// whose update is `o`.
pub proof fn lemma_update_decodes(
    d: Document,
    code: Seq<char>,
    id: i64,
    ts: Timestamp,
    ns: Seq<char>,
    o: Document,
    o2: Document,
)
    requires
        field_at(d, "op"@) == Some(Field::Str(code)),
        code.len() > 0,
        code[0] == 'u',
        field_at(d, "h"@) == Some(Field::Int64(id)),
        field_at(d, "ts"@) == Some(Field::Stamp(ts)),
        field_at(d, "ns"@) == Some(Field::Str(ns)),
        field_at(d, "o"@) == Some(Field::Doc(o)),
        field_at(d, "o2"@) == Some(Field::Doc(o2)),
    ensures
        decode(d) == Ok::<OperationView, ErrorView>(
            OperationView::Update {
                id,
                timestamp: utc_time_of(compound_of(ts)),
                namespace: ns,
                query: o2,
                update: o,
            },
        ),
{
}

/// A well-formed delete record decodes to a delete whose query is `o`.
pub proof fn lemma_delete_decodes(
    d: Document,
    code: Seq<char>,
    id: i64,
    ts: Timestamp,
    ns: Seq<char>,
    o: Document,
)
    requires
        field_at(d, "op"@) == Some(Field::Str(code)),
        code.len() > 0,
        code[0] == 'd',
        field_at(d, "h"@) == Some(Field::Int64(id)),
        field_at(d, "ts"@) == Some(Field::Stamp(ts)),
        field_at(d, "ns"@) == Some(Field::Str(ns)),
        field_at(d, "o"@) == Some(Field::Doc(o)),
    ensures
        decode(d) == Ok::<OperationView, ErrorView>(
            OperationView::Delete {
                id,
                timestamp: utc_time_of(compound_of(ts)),
                namespace: ns,
                query: o,
            },
        ),
{
}

/// A well-formed command record decodes to a command whose payload is `o`.
pub proof fn lemma_command_decodes(
    d: Document,
    code: Seq<char>,
    id: i64,
    ts: Timestamp,
    ns: Seq<char>,
    o: Document,
)
    requires
        field_at(d, "op"@) == Some(Field::Str(code)),
        code.len() > 0,
        code[0] == 'c',
        field_at(d, "h"@) == Some(Field::Int64(id)),
        field_at(d, "ts"@) == Some(Field::Stamp(ts)),
        field_at(d, "ns"@) == Some(Field::Str(ns)),
        field_at(d, "o"@) == Some(Field::Doc(o)),
    ensures
        decode(d) == Ok::<OperationView, ErrorView>(
            OperationView::Command {
                id,
                timestamp: utc_time_of(compound_of(ts)),
                namespace: ns,
                command: o,
            },
        ),
{
}

/// A server timestamp of `s` seconds and ordinal `k` has the compound value
/// `s << 32 | k`, and that value converts to `s` seconds and `k` million
/// nanoseconds; with ordinal zero the sub-second part is zero.
pub proof fn lemma_timestamp_round_trip(s: u32, k: u32)
    ensures
        compound_of(Timestamp { time: s, increment: k }) == ((s as u64) << 32) | (k as u64),
        utc_time_of(((s as u64) << 32) | (k as u64)) == (UtcTime {
            seconds: s as i64,
            nanoseconds: (k as u64 * 1_000_000) as u64,
        }),
        utc_time_of((s as u64) << 32) == (UtcTime { seconds: s as i64, nanoseconds: 0 }),
{
    let high: u64 = s as u64;
    let low: u64 = k as u64;
    let c: u64 = (high << 32) | low;
    assert(c == high * 0x1_0000_0000 + low) by (bit_vector)
        requires
            c == (high << 32) | low,
            high < 0x1_0000_0000,
            low < 0x1_0000_0000,
    ;
    assert(high << 32 == high * 0x1_0000_0000) by (bit_vector)
        requires
            high < 0x1_0000_0000,
    ;
    assert((high * 0x1_0000_0000 + low) / 0x1_0000_0000 == high) by (nonlinear_arith)
        requires
            low < 0x1_0000_0000,
    ;
    assert((high * 0x1_0000_0000 + low) % 0x1_0000_0000 == low) by (nonlinear_arith)
        requires
            low < 0x1_0000_0000,
    ;
    assert((high * 0x1_0000_0000) / 0x1_0000_0000 == high) by (nonlinear_arith);
    assert((high * 0x1_0000_0000) % 0x1_0000_0000 == 0) by (nonlinear_arith);
}

/// A discriminator that names none of the five kinds fails with
/// `UnknownOperation`, carrying the discriminator.
pub proof fn lemma_unknown_code_fails(d: Document, code: Seq<char>)
    requires
        field_at(d, "op"@) == Some(Field::Str(code)),
        !known_code(code),
    ensures
        decode(d) == Err::<OperationView, ErrorView>(ErrorView::UnknownOperation(code)),
{
}

/// A record without a discriminator fails with `InvalidOperation`.
pub proof fn lemma_missing_code_fails(d: Document)
    requires
        !fields(d).contains_key("op"@),
    ensures
        decode(d) == Err::<OperationView, ErrorView>(ErrorView::InvalidOperation),
{
}

/// An insert record without its document payload `o` fails with `MissingField`.
pub proof fn lemma_insert_without_payload_fails(d: Document, code: Seq<char>)
    requires
        field_at(d, "op"@) == Some(Field::Str(code)),
        code.len() > 0,
        code[0] == 'i',
        !fields(d).contains_key("o"@),
    ensures
        decode(d) matches Err(ErrorView::MissingField { .. }),
{
}

/// Decoding depends on the record alone: two decodes of one record give the
/// same operation, or the same error.
pub proof fn lemma_decode_is_pure(
    d: Document,
    first: Result<Operation, Error>,
    second: Result<Operation, Error>,
)
    requires
        outcome(first) == decode(d),
        outcome(second) == decode(d),
    ensures
        outcome(first) == outcome(second),
{
}

} // verus!
