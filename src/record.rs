//! Typed, fallible field access on a log record.
//!
//! A record is a `bson::Document`. Verus sees it through `fields`, the map
//! from each key to what the decoder can tell about the value stored there.

use bson::document::ValueAccessError;
use bson::{Document, Timestamp};
use vstd::prelude::*;

verus! {

/// bson's document, an ordered map from keys to values; opaque here and seen
/// through `fields`.
#[verifier::external_type_specification]
#[verifier::external_body]
pub struct ExDocument(Document);

/// bson's server timestamp: two public `u32` fields, `time` and `increment`.
#[verifier::external_type_specification]
pub struct ExTimestamp(Timestamp);

/// bson's access error, an enum of two unit variants, `NotPresent` and
/// `UnexpectedType`.
#[verifier::external_type_specification]
pub struct ExValueAccessError(ValueAccessError);

/// Relies on the derived `Clone` of `Document`: the copy holds the same
/// entries in the same order.
pub assume_specification[ <Document as Clone>::clone ](d: &Document) -> (r: Document)
    ensures
        r == *d,
;

/// Relies on `Document::new`: a document without entries.
pub assume_specification[ Document::new ]() -> (r: Document)
    ensures
        fields(r).dom() == Set::<Seq<char>>::empty(),
;

/// What the decoder can tell about one value of a record.
pub enum Field {
    /// A UTF-8 string.
    Str(Seq<char>),
    /// A 64-bit signed integer.
    Int64(i64),
    /// The server's compound timestamp.
    Stamp(Timestamp),
    /// A nested document.
    Doc(Document),
    /// Any other kind of value.
    Other,
}

/// The contents of a document: each key mapped to the kind and value stored there.
pub uninterp spec fn fields(d: Document) -> Map<Seq<char>, Field>;

/// Why a typed read of a field failed.
#[derive(Clone, Copy, Debug, PartialEq, Eq, Structural)]
pub enum AccessError {
    /// The record has no field of that name.
    NotPresent,
    /// The field is present but holds another kind of value.
    UnexpectedType,
}

/// The value under `key`, if the record has one.
pub open spec fn field_at(d: Document, key: Seq<char>) -> Option<Field> {
    if fields(d).contains_key(key) {
        Some(fields(d)[key])
    } else {
        None
    }
}

/// The string under `key`, or why it cannot be read as one.
pub open spec fn str_at(d: Document, key: Seq<char>) -> Result<Seq<char>, AccessError> {
    match field_at(d, key) {
        None => Err(AccessError::NotPresent),
        Some(Field::Str(s)) => Ok(s),
        Some(_) => Err(AccessError::UnexpectedType),
    }
}

/// Whether the outside error stands for `e`.
pub open spec fn reports(v: ValueAccessError, e: AccessError) -> bool {
    match e {
        AccessError::NotPresent => v is NotPresent,
        AccessError::UnexpectedType => v is UnexpectedType,
    }
}

/// Relies on `Document::get_str`: the string under `key`, `NotPresent` when
/// the key is absent, `UnexpectedType` when it holds another kind of value.
#[verifier::external_body]
fn read_str(d: &Document, key: &str) -> (r: Result<String, ValueAccessError>)
    ensures
        !fields(*d).contains_key(key@) ==> r is Err && r->Err_0 is NotPresent,
        fields(*d).contains_key(key@) ==> match fields(*d)[key@] {
            Field::Str(s) => r is Ok && r->Ok_0@ == s,
            _ => r is Err && r->Err_0 is UnexpectedType,
        },
{
    d.get_str(key).map(String::from)
}

/// Maps the outside access error onto the library's own.
fn access_error(v: ValueAccessError) -> (e: AccessError)
    requires
        v is NotPresent || v is UnexpectedType,
    ensures
        reports(v, e),
{
    match v {
        ValueAccessError::NotPresent => AccessError::NotPresent,
        _ => AccessError::UnexpectedType,
    }
}

/// The 64-bit integer under `key`, or why it cannot be read as one.
pub open spec fn i64_at(d: Document, key: Seq<char>) -> Result<i64, AccessError> {
    match field_at(d, key) {
        None => Err(AccessError::NotPresent),
        Some(Field::Int64(v)) => Ok(v),
        Some(_) => Err(AccessError::UnexpectedType),
    }
}

/// The compound timestamp under `key`, or why it cannot be read as one.
pub open spec fn stamp_at(d: Document, key: Seq<char>) -> Result<Timestamp, AccessError> {
    match field_at(d, key) {
        None => Err(AccessError::NotPresent),
        Some(Field::Stamp(t)) => Ok(t),
        Some(_) => Err(AccessError::UnexpectedType),
    }
}

/// The nested document under `key`, or why it cannot be read as one.
pub open spec fn doc_at(d: Document, key: Seq<char>) -> Result<Document, AccessError> {
    match field_at(d, key) {
        None => Err(AccessError::NotPresent),
        Some(Field::Doc(o)) => Ok(o),
        Some(_) => Err(AccessError::UnexpectedType),
    }
}

/// Relies on `Document::get_i64`: the `Int64` value under `key`, `NotPresent`
/// when the key is absent, `UnexpectedType` when it holds another kind of value.
#[verifier::external_body]
fn read_i64(d: &Document, key: &str) -> (r: Result<i64, ValueAccessError>)
    ensures
        !fields(*d).contains_key(key@) ==> r is Err && r->Err_0 is NotPresent,
        fields(*d).contains_key(key@) ==> match fields(*d)[key@] {
            Field::Int64(v) => r == Ok::<i64, ValueAccessError>(v),
            _ => r is Err && r->Err_0 is UnexpectedType,
        },
{
    d.get_i64(key)
}

/// Relies on `Document::get_timestamp`: the `Timestamp` value under `key`,
/// `NotPresent` when the key is absent, `UnexpectedType` when it holds another
/// kind of value.
#[verifier::external_body]
fn read_timestamp(d: &Document, key: &str) -> (r: Result<Timestamp, ValueAccessError>)
    ensures
        !fields(*d).contains_key(key@) ==> r is Err && r->Err_0 is NotPresent,
        fields(*d).contains_key(key@) ==> match fields(*d)[key@] {
            Field::Stamp(t) => r == Ok::<Timestamp, ValueAccessError>(t),
            _ => r is Err && r->Err_0 is UnexpectedType,
        },
{
    d.get_timestamp(key)
}

/// Relies on `Document::get_document` and `Document::clone`: an owned copy of
/// the nested document under `key`, `NotPresent` when the key is absent,
/// `UnexpectedType` when it holds another kind of value.
#[verifier::external_body]
fn read_document(d: &Document, key: &str) -> (r: Result<Document, ValueAccessError>)
    ensures
        !fields(*d).contains_key(key@) ==> r is Err && r->Err_0 is NotPresent,
        fields(*d).contains_key(key@) ==> match fields(*d)[key@] {
            Field::Doc(o) => r == Ok::<Document, ValueAccessError>(o),
            _ => r is Err && r->Err_0 is UnexpectedType,
        },
{
    d.get_document(key).cloned()
}

/// Reads the string under `key`.
pub fn get_str(d: &Document, key: &str) -> (r: Result<String, AccessError>)
    ensures
        match str_at(*d, key@) {
            Ok(s) => r is Ok && r->Ok_0@ == s,
            Err(e) => r == Err::<String, AccessError>(e),
        },
{
    match read_str(d, key) {
        Ok(s) => Ok(s),
        Err(v) => Err(access_error(v)),
    }
}

/// Reads the 64-bit integer under `key`.
pub fn get_i64(d: &Document, key: &str) -> (r: Result<i64, AccessError>)
    ensures
        r == i64_at(*d, key@),
{
    match read_i64(d, key) {
        Ok(v) => Ok(v),
        Err(v) => Err(access_error(v)),
    }
}

/// Reads the compound timestamp under `key`.
pub fn get_timestamp(d: &Document, key: &str) -> (r: Result<Timestamp, AccessError>)
    ensures
        r == stamp_at(*d, key@),
{
    match read_timestamp(d, key) {
        Ok(t) => Ok(t),
        Err(v) => Err(access_error(v)),
    }
}

/// Reads an owned copy of the nested document under `key`.
pub fn get_document(d: &Document, key: &str) -> (r: Result<Document, AccessError>)
    ensures
        r == doc_at(*d, key@),
{
    match read_document(d, key) {
        Ok(o) => Ok(o),
        Err(v) => Err(access_error(v)),
    }
}

} // verus!
