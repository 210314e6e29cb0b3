use boca::{ReadStep, ResilientReader, MAX_READ_ATTEMPTS, READ_BACKOFF_MS};

#[test]
fn first_success_is_delivered() {
    let mut r = ResilientReader::new(String::from("a.md"));
    match r.record(Ok(String::from("text"))) {
        ReadStep::Done(t) => assert_eq!(t, "text"),
        _ => panic!("expected the text"),
    }
    assert_eq!(r.failures, 0);
}

#[test]
fn two_failures_then_success() {
    let mut r = ResilientReader::new(String::from("a.md"));
    let mut waited: u64 = 0;
    let outcomes = vec![
        Err(String::from("gone")),
        Err(String::from("gone again")),
        Ok(String::from("# Back")),
    ];
    let mut result = None;
    for o in outcomes {
        match r.record(o) {
            ReadStep::Done(t) => result = Some(t),
            ReadStep::Backoff(ms) => waited += ms,
            ReadStep::Failed(_) => panic!("gave up too early"),
        }
    }
    assert_eq!(result.as_deref(), Some("# Back"));
    assert!(waited >= 2 * READ_BACKOFF_MS);
    assert_eq!(READ_BACKOFF_MS, 300);
}

#[test]
fn three_failures_give_up_with_last_cause() {
    let mut r = ResilientReader::new(String::from("a.md"));
    assert!(matches!(r.record(Err(String::from("one"))), ReadStep::Backoff(300)));
    assert!(matches!(r.record(Err(String::from("two"))), ReadStep::Backoff(300)));
    match r.record(Err(String::from("three"))) {
        ReadStep::Failed(e) => {
            assert_eq!(e.path, "a.md");
            assert_eq!(e.cause, "three");
        }
        _ => panic!("expected the read to be given up"),
    }
    assert!(r.exhausted());
    assert_eq!(MAX_READ_ATTEMPTS, 3);
}
