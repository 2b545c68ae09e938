use mqtt_workers::codec::{collect_bodies, DecodeError, EncodeError};
use mqtt_workers::config::WorkerKind;
use mqtt_workers::notice::{Level, Notice};

fn failure(text: &str) -> EncodeError {
    EncodeError { diagnostic: text.to_string() }
}

#[test]
fn collect_bodies_of_a_whole_batch() {
    let out = collect_bodies(vec![Ok(vec![1u8, 2]), Ok(vec![]), Ok(vec![3u8])]);
    assert_eq!(out, Ok(vec![vec![1u8, 2], vec![], vec![3u8]]));
}

#[test]
fn collect_bodies_of_an_empty_batch() {
    assert_eq!(collect_bodies(vec![]), Ok(vec![]));
}

#[test]
fn collect_bodies_withholds_a_batch_with_one_failure() {
    let out = collect_bodies(vec![Ok(vec![1u8]), Err(failure("no")), Ok(vec![2u8])]);
    assert_eq!(out, Err(failure("no")));
    let out = collect_bodies(vec![Ok(vec![1u8]), Ok(vec![2u8]), Err(failure("last"))]);
    assert_eq!(out, Err(failure("last")));
    let out = collect_bodies(vec![Err(failure("only"))]);
    assert_eq!(out, Err(failure("only")));
}

#[test]
fn collect_bodies_reports_the_first_failure() {
    let out = collect_bodies(vec![
        Ok(vec![9u8]),
        Err(failure("first")),
        Err(failure("second")),
    ]);
    assert_eq!(out, Err(failure("first")));
}

#[test]
fn errors_carry_their_diagnostic() {
    let d = DecodeError { diagnostic: "EOF while parsing".to_string() };
    assert_eq!(d.diagnostic, "EOF while parsing");
    assert_eq!(d, DecodeError { diagnostic: "EOF while parsing".to_string() });
    assert_ne!(failure("a"), failure("b"));
}

#[test]
fn levels_of_the_notices() {
    assert_eq!(Notice::Started.level(), Level::Info);
    assert_eq!(Notice::ListSize(5).level(), Level::Info);
    assert_eq!(
        Notice::Published { ordinal: 1, subject: "a@x.com".to_string() }.level(),
        Level::Info
    );
    assert_eq!(Notice::TimedOut.level(), Level::Warning);
    assert_eq!(Notice::PollFailed("x".to_string()).level(), Level::Error);
    assert_eq!(Notice::DecodeFailed("x".to_string()).level(), Level::Error);
    assert_eq!(Notice::EncodeFailed("x".to_string()).level(), Level::Error);
    assert_eq!(Notice::PublishFailed("x".to_string()).level(), Level::Error);
    assert_eq!(Notice::OutOfTurn.level(), Level::Error);
}

#[test]
fn lines_of_the_record_generation_worker() {
    let kind = WorkerKind::RecordGeneration;
    assert_eq!(Notice::Started.render(kind), "[Service C] Starting and subscribing to requests");
    assert_eq!(Notice::ListSize(5).render(kind), "[Service C] Using LIST_SIZE=5");
    assert_eq!(Notice::ListSize(0).render(kind), "[Service C] Using LIST_SIZE=0");
    assert_eq!(Notice::ListSize(120).render(kind), "[Service C] Using LIST_SIZE=120");
    assert_eq!(Notice::TimedOut.render(kind), "[Service C] Timeout waiting for request");
    assert_eq!(
        Notice::PollFailed("connection refused".to_string()).render(kind),
        "[Service C] Eventloop error: connection refused"
    );
    assert_eq!(
        Notice::DecodeFailed("missing field `email`".to_string()).render(kind),
        "[Service C] Failed to deserialize profile: missing field `email`"
    );
    assert_eq!(
        Notice::EncodeFailed("key must be a string".to_string()).render(kind),
        "[Service C] Failed to serialize response: key must be a string"
    );
    assert_eq!(
        Notice::PublishFailed("channel closed".to_string()).render(kind),
        "[Service C] Failed to publish response: channel closed"
    );
    assert_eq!(
        Notice::Published { ordinal: 1, subject: "a@x.com".to_string() }.render(kind),
        "[Service C] Responded for profile a@x.com"
    );
    assert_eq!(
        Notice::OutOfTurn.render(kind),
        "[Service C] Dropped an event that answers no pending action"
    );
}

#[test]
fn lines_of_the_duplication_worker() {
    let kind = WorkerKind::Duplication;
    assert_eq!(Notice::Started.render(kind), "[Service D] Starting and subscribing to requests");
    assert_eq!(Notice::TimedOut.render(kind), "[Service D] Timeout waiting for request");
    assert_eq!(
        Notice::PollFailed("broken pipe".to_string()).render(kind),
        "[Service D] Eventloop error: broken pipe"
    );
    assert_eq!(
        Notice::DecodeFailed("expected value at line 1 column 1".to_string()).render(kind),
        "[Service D] Failed to deserialize AggregatedData: expected value at line 1 column 1"
    );
    assert_eq!(
        Notice::EncodeFailed("e".to_string()).render(kind),
        "[Service D] Failed to serialize response: e"
    );
    assert_eq!(
        Notice::PublishFailed("e".to_string()).render(kind),
        "[Service D] Failed to publish response: e"
    );
    assert_eq!(
        Notice::Published { ordinal: 1, subject: "d@x.com".to_string() }.render(kind),
        "[Service D] Duplicated and sent record 1 for profile d@x.com"
    );
    assert_eq!(
        Notice::Published { ordinal: 2, subject: "d@x.com".to_string() }.render(kind),
        "[Service D] Duplicated and sent record 2 for profile d@x.com"
    );
    assert_eq!(
        Notice::OutOfTurn.render(kind),
        "[Service D] Dropped an event that answers no pending action"
    );
}

#[test]
fn lines_keep_an_empty_diagnostic() {
    assert_eq!(
        Notice::PollFailed(String::new()).render(WorkerKind::Duplication),
        "[Service D] Eventloop error: "
    );
}
