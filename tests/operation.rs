use bson::{Bson, Document, Timestamp};
use oplog::{timestamp_to_datetime, AccessError, Error, Operation, UtcTime};

fn stamp(time: u32, increment: u32) -> Bson {
    Bson::Timestamp(Timestamp { time, increment })
}

fn one(key: &str, value: impl Into<Bson>) -> Document {
    let mut d = Document::new();
    d.insert(key, value);
    d
}

fn at(seconds: i64) -> UtcTime {
    UtcTime { seconds, nanoseconds: 0 }
}

fn noop_record() -> Document {
    let mut doc = Document::new();
    doc.insert("ts", stamp(1479419535, 0));
    doc.insert("h", -2135725856567446411i64);
    doc.insert("v", 2);
    doc.insert("op", "n");
    doc.insert("ns", "");
    doc.insert("o", one("msg", "initiating set"));
    doc
}

fn insert_record() -> Document {
    let mut doc = Document::new();
    doc.insert("ts", stamp(1479561394, 0));
    doc.insert("h", -1742072865587022793i64);
    doc.insert("v", 2);
    doc.insert("op", "i");
    doc.insert("ns", "foo.bar");
    doc.insert("o", one("foo", "bar"));
    doc
}

#[test]
fn operation_converts_noops() {
    let operation = Operation::new(&noop_record()).unwrap();

    assert_eq!(
        operation,
        Operation::Noop {
            id: -2135725856567446411i64,
            timestamp: at(1479419535),
            message: "initiating set".to_string(),
        }
    );
}

#[test]
fn operation_converts_inserts() {
    let operation = Operation::new(&insert_record()).unwrap();

    assert_eq!(
        operation,
        Operation::Insert {
            id: -1742072865587022793i64,
            timestamp: at(1479561394),
            namespace: "foo.bar".to_string(),
            document: one("foo", "bar"),
        }
    );
}

#[test]
fn operation_converts_updates() {
    let mut doc = Document::new();
    doc.insert("ts", stamp(1479561033, 0));
    doc.insert("h", 3511341713062188019i64);
    doc.insert("v", 2);
    doc.insert("op", "u");
    doc.insert("ns", "foo.bar");
    doc.insert("o2", one("_id", 1));
    doc.insert("o", one("$set", one("foo", "baz")));
    let operation = Operation::new(&doc).unwrap();

    assert_eq!(
        operation,
        Operation::Update {
            id: 3511341713062188019i64,
            timestamp: at(1479561033),
            namespace: "foo.bar".to_string(),
            query: one("_id", 1),
            update: one("$set", one("foo", "baz")),
        }
    );
}

#[test]
fn operation_converts_deletes() {
    let mut doc = Document::new();
    doc.insert("ts", stamp(1479421186, 0));
    doc.insert("h", -5457382347563537847i64);
    doc.insert("v", 2);
    doc.insert("op", "d");
    doc.insert("ns", "foo.bar");
    doc.insert("o", one("_id", 1));
    let operation = Operation::new(&doc).unwrap();

    assert_eq!(
        operation,
        Operation::Delete {
            id: -5457382347563537847i64,
            timestamp: at(1479421186),
            namespace: "foo.bar".to_string(),
            query: one("_id", 1),
        }
    );
}

#[test]
fn operation_converts_commands() {
    let mut doc = Document::new();
    doc.insert("ts", stamp(1479553955, 0));
    doc.insert("h", -7222343681970774929i64);
    doc.insert("v", 2);
    doc.insert("op", "c");
    doc.insert("ns", "test.$cmd");
    doc.insert("o", one("create", "foo"));
    let operation = Operation::new(&doc).unwrap();

    assert_eq!(
        operation,
        Operation::Command {
            id: -7222343681970774929i64,
            timestamp: at(1479553955),
            namespace: "test.$cmd".to_string(),
            command: one("create", "foo"),
        }
    );
}

#[test]
fn operation_returns_unknown_operations() {
    let doc = one("op", "x");
    let operation = Operation::new(&doc);

    match operation {
        Err(Error::UnknownOperation(op)) => assert_eq!(op, "x"),
        _ => panic!("Expected unknown operation."),
    }
}

// A record without a discriminator is told apart from one with an unknown
// discriminator: it gives `InvalidOperation`.
#[test]
fn operation_returns_missing_fields() {
    let doc = one("foo", "bar");
    let operation = Operation::new(&doc);

    match operation {
        Err(Error::InvalidOperation) => {}
        _ => panic!("Expected invalid operation."),
    }
}

#[test]
fn discriminator_of_another_kind_is_invalid() {
    let doc = one("op", 7i64);
    assert_eq!(Operation::new(&doc), Err(Error::InvalidOperation));
}

#[test]
fn empty_discriminator_is_unknown() {
    let doc = one("op", "");
    assert_eq!(Operation::new(&doc), Err(Error::UnknownOperation(String::new())));
}

#[test]
fn only_the_first_character_of_the_discriminator_counts() {
    let mut doc = noop_record();
    doc.insert("op", "noop");
    assert_eq!(Operation::new(&doc), Operation::new(&noop_record()));
    assert!(matches!(Operation::new(&doc), Ok(Operation::Noop { .. })));
}

#[test]
fn insert_without_document_is_missing_field() {
    let mut doc = insert_record();
    doc.remove("o");
    assert_eq!(
        Operation::new(&doc),
        Err(Error::MissingField { field: "o".to_string(), cause: AccessError::NotPresent })
    );
}

#[test]
fn field_of_wrong_kind_is_missing_field() {
    let mut doc = insert_record();
    doc.insert("h", 5i32);
    assert_eq!(
        Operation::new(&doc),
        Err(Error::MissingField { field: "h".to_string(), cause: AccessError::UnexpectedType })
    );
}

#[test]
fn fields_are_checked_in_order() {
    let mut doc = insert_record();
    doc.remove("ts");
    doc.remove("ns");
    assert_eq!(
        Operation::new(&doc),
        Err(Error::MissingField { field: "ts".to_string(), cause: AccessError::NotPresent })
    );
}

#[test]
fn noop_without_message_is_missing_field() {
    let mut doc = noop_record();
    doc.insert("o", one("note", "initiating set"));
    assert_eq!(
        Operation::new(&doc),
        Err(Error::MissingField { field: "msg".to_string(), cause: AccessError::NotPresent })
    );
}

#[test]
fn update_without_query_is_missing_field() {
    let mut doc = insert_record();
    doc.insert("op", "u");
    assert_eq!(
        Operation::new(&doc),
        Err(Error::MissingField { field: "o2".to_string(), cause: AccessError::NotPresent })
    );
}

#[test]
fn ordinal_becomes_milliseconds() {
    let mut doc = insert_record();
    doc.insert("ts", stamp(1479561394, 7));
    match Operation::new(&doc) {
        Ok(Operation::Insert { timestamp, .. }) => assert_eq!(
            timestamp,
            UtcTime { seconds: 1479561394, nanoseconds: 7_000_000 }
        ),
        other => panic!("unexpected result {:?}", other),
    }
}

#[test]
fn compound_timestamp_converts_exactly() {
    let s: u64 = 1479419535;
    assert_eq!(timestamp_to_datetime(s << 32), UtcTime { seconds: 1479419535, nanoseconds: 0 });
    assert_eq!(
        timestamp_to_datetime((s << 32) | 42),
        UtcTime { seconds: 1479419535, nanoseconds: 42_000_000 }
    );
    assert_eq!(
        timestamp_to_datetime(u64::MAX),
        UtcTime { seconds: 4294967295, nanoseconds: 4294967295 * 1_000_000 }
    );
    assert_eq!(timestamp_to_datetime(0), UtcTime { seconds: 0, nanoseconds: 0 });
}

#[test]
fn decoding_twice_gives_equal_operations() {
    let doc = insert_record();
    assert_eq!(Operation::new(&doc), Operation::new(&doc));
    let bad = one("op", "x");
    assert_eq!(Operation::new(&bad), Operation::new(&bad));
}

#[test]
fn error_descriptions() {
    let missing = Error::MissingField { field: "o".to_string(), cause: AccessError::NotPresent };
    assert_eq!(missing.description(), "field is not present");
    assert_eq!(missing.message(), "field is not present");
    let wrong = Error::MissingField { field: "h".to_string(), cause: AccessError::UnexpectedType };
    assert_eq!(wrong.description(), "field does not have the expected type");
    let unknown = Error::UnknownOperation("x".to_string());
    assert_eq!(unknown.description(), "unknown operation type");
    assert_eq!(unknown.message(), "Unknown operation type found: x");
    assert_eq!(Error::InvalidOperation.description(), "invalid operation");
    let database = Error::Database("connection refused".to_string());
    assert_eq!(database.message(), "connection refused");
    assert_eq!(Error::missing_field("ns", AccessError::NotPresent), Error::MissingField {
        field: "ns".to_string(),
        cause: AccessError::NotPresent,
    });
}

#[test]
fn kind_decoders_read_their_own_fields() {
    let mut noop = noop_record();
    noop.remove("ns");
    noop.remove("op");
    assert_eq!(
        Operation::from_noop(&noop),
        Ok(Operation::Noop {
            id: -2135725856567446411i64,
            timestamp: at(1479419535),
            message: "initiating set".to_string(),
        })
    );
    let insert = insert_record();
    assert_eq!(Operation::from_insert(&insert), Operation::new(&insert));
    assert_eq!(
        Operation::from_delete(&insert),
        Ok(Operation::Delete {
            id: -1742072865587022793i64,
            timestamp: at(1479561394),
            namespace: "foo.bar".to_string(),
            query: one("foo", "bar"),
        })
    );
    assert_eq!(
        Operation::from_command(&insert),
        Ok(Operation::Command {
            id: -1742072865587022793i64,
            timestamp: at(1479561394),
            namespace: "foo.bar".to_string(),
            command: one("foo", "bar"),
        })
    );
    let mut update = insert_record();
    update.insert("o2", one("_id", 1));
    assert_eq!(
        Operation::from_update(&update),
        Ok(Operation::Update {
            id: -1742072865587022793i64,
            timestamp: at(1479561394),
            namespace: "foo.bar".to_string(),
            query: one("_id", 1),
            update: one("foo", "bar"),
        })
    );
}
