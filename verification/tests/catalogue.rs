use tanoshi::catalogue::{no_source_error, LookupAction, LookupEvent, LookupStage, Resolved, SourcePathLookup};

#[test]
fn stored_manga_is_answered() {
    let mut l: SourcePathLookup<&str> = SourcePathLookup::start();
    assert_eq!(l.step(LookupEvent::StoredManga(Some("m"))), Some(LookupAction::Answer(Ok(Resolved::Stored("m")))));
    assert!(matches!(l.stage, LookupStage::Done));
    assert_eq!(l.step(LookupEvent::Inserted(Ok(1))), None);
}

#[test]
fn missing_manga_is_fetched_and_stored() {
    let mut l: SourcePathLookup<&str> = SourcePathLookup::start();
    assert_eq!(l.step(LookupEvent::StoredManga(None)), Some(LookupAction::FetchFromSource));
    assert_eq!(l.step(LookupEvent::Fetched(Ok("m"))), Some(LookupAction::Store));
    assert_eq!(l.pending(), Some(&"m"));
    assert_eq!(l.step(LookupEvent::Inserted(Ok(42))), Some(LookupAction::Answer(Ok(Resolved::Inserted("m", 42)))));
    assert_eq!(l.pending(), None);
}

#[test]
fn failures_are_answered() {
    let mut l: SourcePathLookup<&str> = SourcePathLookup::start();
    l.step(LookupEvent::StoredManga(None));
    assert_eq!(l.step(LookupEvent::Fetched(Err(no_source_error()))), Some(LookupAction::Answer(Err("no source".to_string()))));
    let mut l: SourcePathLookup<&str> = SourcePathLookup::start();
    l.step(LookupEvent::StoredManga(None));
    l.step(LookupEvent::Fetched(Ok("m")));
    assert_eq!(l.step(LookupEvent::Inserted(Err("db".to_string()))), Some(LookupAction::Answer(Err("db".to_string()))));
}

#[test]
fn events_out_of_order_are_ignored() {
    let mut l: SourcePathLookup<&str> = SourcePathLookup::start();
    assert_eq!(l.step(LookupEvent::Fetched(Ok("m"))), None);
    assert!(matches!(l.stage, LookupStage::SearchingStored));
}
