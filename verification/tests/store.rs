use record_store::dispatch::{Header, RecordResponse};
use record_store::error::Error;
use record_store::lookup::lookup;
use record_store::types::{Record, RecordData};
use record_store::store::{after_decrement, payload_to_delete, ConsumeOutcome, Store};

fn paste(slug: &str, body: &str, remaining: Option<u64>) -> Record {
    Record::new(slug.to_string(), RecordData::Paste { body: body.to_string() }, remaining, None)
}

#[test]
fn single_access_paste_is_served_once() {
    let mut store = Store::new();
    store.ingest(paste("abc123", "hello", Some(1)));
    assert_eq!(lookup(&mut store, "abc123", 0), Ok(RecordResponse::Paste("hello".to_string())));
    assert_eq!(lookup(&mut store, "abc123", 0), Err(Error::NotFound("abc123".to_string())));
    assert_eq!(store.fetch("abc123", 0), None);
    assert_eq!(store.len(), 0);
}

#[test]
fn unlimited_file_is_served_a_thousand_times() {
    let mut store = Store::new();
    let data = RecordData::File { path: "/tmp/x.bin".to_string(), name: "report.pdf".to_string() };
    store.ingest(Record::new("dl1".to_string(), data, None, None));
    let want = RecordResponse::File(Header {
        name: "Content-Disposition".to_string(),
        value: "attachment; filename=report.pdf".to_string(),
    });
    for _ in 0..1000 {
        assert_eq!(lookup(&mut store, "dl1", 0), Ok(want.clone()));
    }
    assert_eq!(store.len(), 1);
    assert!(store.fetch("dl1", 0).is_some());
}

#[test]
fn five_consumes_of_three_accesses_find_the_record_three_times() {
    let mut store = Store::new();
    store.ingest(paste("k3", "x", Some(3)));
    store.ingest(paste("other", "y", Some(3)));
    let fetched = store.fetch("k3", 0).unwrap();
    let outcomes: Vec<ConsumeOutcome> = (0..5).map(|_| store.consume(&fetched)).collect();
    assert_eq!(
        outcomes,
        vec![
            ConsumeOutcome::Remaining(2),
            ConsumeOutcome::Remaining(1),
            ConsumeOutcome::Exhausted,
            ConsumeOutcome::Gone,
            ConsumeOutcome::Gone,
        ]
    );
    assert_eq!(outcomes.iter().filter(|o| o.is_found()).count(), 3);
    assert_eq!(store.fetch("k3", 0), None);
    assert_eq!(store.fetch("other", 0), Some(paste("other", "y", Some(3))));
    assert_eq!(store.len(), 1);
}

#[test]
fn fetch_changes_nothing_and_consume_takes_exactly_one() {
    let mut store = Store::new();
    store.ingest(paste("p", "body", Some(5)));
    for _ in 0..10 {
        assert_eq!(store.fetch("p", 0), Some(paste("p", "body", Some(5))));
    }
    let fetched = store.fetch("p", 0).unwrap();
    assert_eq!(store.consume(&fetched), ConsumeOutcome::Remaining(4));
    assert_eq!(store.fetch("p", 0), Some(paste("p", "body", Some(4))));
}

#[test]
fn consume_of_unlimited_record_never_deletes_it() {
    let mut store = Store::new();
    store.ingest(paste("forever", "body", None));
    let fetched = store.fetch("forever", 0).unwrap();
    for _ in 0..50 {
        assert_eq!(store.consume(&fetched), ConsumeOutcome::Unlimited);
    }
    assert_eq!(store.fetch("forever", 0), Some(paste("forever", "body", None)));
    assert_eq!(store.len(), 1);
}

#[test]
fn consume_of_absent_record_finds_it_gone() {
    let mut store = Store::new();
    assert_eq!(store.consume(&paste("nobody", "x", Some(2))), ConsumeOutcome::Gone);
    assert_eq!(store.consume(&paste("nobody", "x", None)), ConsumeOutcome::Unlimited);
    assert_eq!(store.len(), 0);
}

#[test]
fn exhausted_record_is_not_found() {
    let mut store = Store::new();
    store.ingest(paste("spent", "x", Some(0)));
    assert_eq!(store.fetch("spent", 0), None);
    assert_eq!(lookup(&mut store, "spent", 0), Err(Error::NotFound("spent".to_string())));
    assert_eq!(store.consume(&paste("spent", "x", Some(1))), ConsumeOutcome::Gone);
    assert_eq!(store.len(), 0);
}

#[test]
fn paste_comes_back_as_it_was_written() {
    let body = "caf\u{e9}\n\t\u{4e16}\u{754c} \u{1f600}\u{0}end";
    let mut store = Store::new();
    store.ingest(paste("rt", body, Some(2)));
    let fetched = store.fetch("rt", 7).unwrap();
    assert_eq!(fetched.data(), &RecordData::Paste { body: body.to_string() });
    assert_eq!(lookup(&mut store, "rt", 7), Ok(RecordResponse::Paste(body.to_string())));
}

#[test]
fn expired_record_is_not_found() {
    let mut store = Store::new();
    store.ingest(Record::new(
        "soon".to_string(),
        RecordData::Url { target: "/x".to_string() },
        None,
        Some(100),
    ));
    assert!(store.fetch("soon", 99).is_some());
    assert_eq!(store.fetch("soon", 100), None);
    assert_eq!(lookup(&mut store, "soon", 101), Err(Error::NotFound("soon".to_string())));
    assert_eq!(lookup(&mut store, "soon", 99), Ok(RecordResponse::Url("/x".to_string())));
}

#[test]
fn slugs_are_compared_exactly() {
    let mut store = Store::new();
    store.ingest(paste("Abc", "upper", None));
    store.ingest(paste("abc", "lower", None));
    assert_eq!(store.len(), 2);
    assert_eq!(lookup(&mut store, "Abc", 0), Ok(RecordResponse::Paste("upper".to_string())));
    assert_eq!(lookup(&mut store, "abc", 0), Ok(RecordResponse::Paste("lower".to_string())));
    assert_eq!(lookup(&mut store, "ABC", 0), Err(Error::NotFound("ABC".to_string())));
}

#[test]
fn ingest_replaces_the_record_under_the_same_slug() {
    let mut store = Store::new();
    store.ingest(paste("s", "first", Some(1)));
    store.ingest(paste("s", "second", Some(2)));
    assert_eq!(store.len(), 1);
    assert_eq!(store.fetch("s", 0), Some(paste("s", "second", Some(2))));
}

#[test]
fn malformed_record_costs_no_access() {
    let mut store = Store::new();
    let data = RecordData::File { path: "/p".to_string(), name: "a\nb".to_string() };
    store.ingest(Record::new("bad".to_string(), data, Some(1), None));
    assert_eq!(lookup(&mut store, "bad", 0), Err(Error::MalformedName));
    assert_eq!(store.fetch("bad", 0).unwrap().remaining_accesses(), Some(1));
}

#[test]
fn decrement_reply_is_read_as_outcome() {
    assert_eq!(after_decrement(None), ConsumeOutcome::Gone);
    assert_eq!(after_decrement(Some(0)), ConsumeOutcome::Exhausted);
    assert_eq!(after_decrement(Some(-1)), ConsumeOutcome::Exhausted);
    assert_eq!(after_decrement(Some(i64::MIN)), ConsumeOutcome::Exhausted);
    assert_eq!(after_decrement(Some(1)), ConsumeOutcome::Remaining(1));
    assert_eq!(after_decrement(Some(i64::MAX)), ConsumeOutcome::Remaining(9223372036854775807));
}

#[test]
fn backing_file_is_deleted_only_with_its_record() {
    let data = RecordData::File { path: "/tmp/x.bin".to_string(), name: "report.pdf".to_string() };
    let record = Record::new("dl".to_string(), data, Some(1), None);
    assert_eq!(
        payload_to_delete(&record, ConsumeOutcome::Exhausted),
        Some("/tmp/x.bin".to_string())
    );
    assert_eq!(payload_to_delete(&record, ConsumeOutcome::Remaining(1)), None);
    assert_eq!(payload_to_delete(&record, ConsumeOutcome::Unlimited), None);
    assert_eq!(payload_to_delete(&record, ConsumeOutcome::Gone), None);
    assert_eq!(payload_to_delete(&paste("p", "b", Some(1)), ConsumeOutcome::Exhausted), None);
}

#[test]
fn counter_at_the_largest_value_goes_down_by_one() {
    let mut store = Store::new();
    store.ingest(paste("big", "x", Some(u64::MAX)));
    let fetched = store.fetch("big", u64::MAX).unwrap();
    assert_eq!(store.consume(&fetched), ConsumeOutcome::Remaining(u64::MAX - 1));
}
