use leptos_ws::error::Error;
use leptos_ws::messages::{BiDirectionalMessage, Messages, ServerSignalMessage};
use leptos_ws::signal::{check_is_hydrating, SignalEntry, SignalKind};
use serde_json::Value;

fn number(n: i64) -> Value {
    Value::from(n)
}

fn counter(kind: SignalKind) -> SignalEntry {
    SignalEntry::new("count".to_owned(), kind, "i32".to_owned(), number(0))
}

#[test]
fn new_entry_starts_with_its_initial_value() {
    let entry = counter(SignalKind::ReadOnly);
    assert_eq!(entry.name(), "count");
    assert_eq!(entry.kind(), SignalKind::ReadOnly);
    assert_eq!(entry.json().unwrap(), number(0));
    assert_eq!(entry.try_get(true), number(0));
}

#[test]
fn local_write_moves_the_shadow_and_announces_without_origin() {
    let mut entry = counter(SignalKind::ReadOnly);
    let applied = entry.update_if_changed(&number(5)).unwrap();
    assert_eq!(entry.json().unwrap(), number(5));
    assert!(applied.reseed.is_none());
    assert!(applied.event.origin.is_none());
    match applied.event.message {
        Messages::ServerSignal(ServerSignalMessage::Update(update)) => {
            assert_eq!(update.get_name(), "count");
            let mut replay = number(0);
            json_patch::patch(&mut replay, update.get_patch()).unwrap();
            assert_eq!(replay, number(5));
        }
        other => panic!("unexpected frame {:?}", other),
    }
}

#[test]
fn local_write_of_an_equal_value_fails_and_changes_nothing() {
    let mut entry = counter(SignalKind::BiDirectional);
    let res = entry.update_if_changed(&number(0));
    assert!(matches!(res, Err(Error::UpdateSignalFailed)));
    assert_eq!(entry.json().unwrap(), number(0));
}

#[test]
fn remote_patch_reseeds_and_keeps_the_origin() {
    let mut entry = counter(SignalKind::BiDirectional);
    let patch = json_patch::diff(&number(0), &number(7));
    let applied = entry.update_json(&patch, Some("abc".to_owned())).unwrap();
    assert_eq!(applied.reseed, Some(number(7)));
    assert_eq!(applied.event.origin.as_deref(), Some("abc"));
    assert!(matches!(
        applied.event.message,
        Messages::BiDirectional(BiDirectionalMessage::Update(_))
    ));
    assert_eq!(entry.json().unwrap(), number(7));
    assert_eq!(entry.try_get(true), number(0));
    assert_eq!(entry.try_get(false), number(7));
}

#[test]
fn patch_that_does_not_apply_leaves_the_shadow_untouched() {
    let mut entry = SignalEntry::new(
        "doc".to_owned(),
        SignalKind::BiDirectional,
        "Doc".to_owned(),
        serde_json::from_str("{\"a\":1}").unwrap(),
    );
    let bad: json_patch::Patch =
        serde_json::from_str("[{\"op\":\"remove\",\"path\":\"/missing\"}]").unwrap();
    let res = entry.update_json(&bad, Some("abc".to_owned()));
    assert!(matches!(res, Err(Error::UpdateSignalFailed)));
    let expected: Value = serde_json::from_str("{\"a\":1}").unwrap();
    assert_eq!(entry.json().unwrap(), expected);
}

#[test]
fn patch_that_fails_halfway_is_undone() {
    let mut entry = SignalEntry::new(
        "doc".to_owned(),
        SignalKind::BiDirectional,
        "Doc".to_owned(),
        serde_json::from_str("{\"a\":1}").unwrap(),
    );
    let bad: json_patch::Patch = serde_json::from_str(
        "[{\"op\":\"add\",\"path\":\"/b\",\"value\":2},{\"op\":\"test\",\"path\":\"/a\",\"value\":9}]",
    )
    .unwrap();
    assert!(entry.update_json(&bad, None).is_err());
    let expected: Value = serde_json::from_str("{\"a\":1}").unwrap();
    assert_eq!(entry.json().unwrap(), expected);
}

#[test]
fn local_patch_does_not_reseed() {
    let mut entry = counter(SignalKind::ReadOnly);
    let patch = json_patch::diff(&number(0), &number(3));
    let applied = entry.update_json(&patch, None).unwrap();
    assert!(applied.reseed.is_none());
    assert!(applied.event.origin.is_none());
    assert_eq!(entry.json().unwrap(), number(3));
}

#[test]
fn remote_patch_that_changes_nothing_is_still_announced() {
    let mut entry = counter(SignalKind::BiDirectional);
    let patch: json_patch::Patch =
        serde_json::from_str("[{\"op\":\"replace\",\"path\":\"\",\"value\":0}]").unwrap();
    let applied = entry.update_json(&patch, Some("abc".to_owned())).unwrap();
    assert_eq!(applied.reseed, Some(number(0)));
    assert_eq!(entry.json().unwrap(), number(0));
}

#[test]
fn set_json_replaces_the_shadow_and_asks_for_a_reseed() {
    let mut entry = counter(SignalKind::ReadOnly);
    let seed: Value = serde_json::from_str("[1,2,3]").unwrap();
    let seeded = entry.set_json(seed.clone()).unwrap();
    assert_eq!(seeded.reseed, seed);
    assert_eq!(seeded.previous, number(0));
    assert_eq!(entry.json().unwrap(), seed);
    assert_eq!(entry.try_get(true), number(0));
    assert!(entry.settle_seed(seeded, Ok(())).is_ok());
    assert_eq!(entry.json().unwrap(), seed);
    let refused = entry.set_json(Value::from("text")).unwrap();
    assert_eq!(entry.json().unwrap(), Value::from("text"));
    match entry.settle_seed(refused, Err("expected a list".to_owned())) {
        Err(Error::SerializationFailed(text)) => assert_eq!(text, "expected a list"),
        other => panic!("unexpected result {:?}", other),
    }
    assert_eq!(entry.json().unwrap(), seed);
}

#[test]
fn write_that_reports_no_mutation_announces_nothing() {
    let mut entry = SignalEntry::new(
        "flag".to_owned(),
        SignalKind::ReadOnly,
        "bool".to_owned(),
        Value::from(true),
    );
    assert!(entry.try_maybe_update(false, &Value::from(true)).is_none());
    assert!(entry.try_maybe_update(false, &Value::from(false)).is_none());
    assert_eq!(entry.json().unwrap(), Value::from(true));
}

#[test]
fn write_that_mutates_to_an_equal_value_announces_nothing() {
    let mut entry = SignalEntry::new(
        "flag".to_owned(),
        SignalKind::ReadOnly,
        "bool".to_owned(),
        Value::from(true),
    );
    assert!(entry.try_maybe_update(true, &Value::from(true)).is_none());
    assert_eq!(entry.json().unwrap(), Value::from(true));
}

#[test]
fn write_that_mutates_announces_once() {
    let mut entry = counter(SignalKind::BiDirectional);
    let event = entry.try_maybe_update(true, &number(1)).unwrap();
    assert!(event.origin.is_none());
    assert!(matches!(
        event.message,
        Messages::BiDirectional(BiDirectionalMessage::Update(_))
    ));
    assert_eq!(entry.json().unwrap(), number(1));
}

#[test]
fn duplicate_and_into_json_keep_the_content() {
    let mut entry = counter(SignalKind::BiDirectional);
    entry.update_if_changed(&number(4)).unwrap();
    let copy = entry.duplicate();
    assert_eq!(copy.name(), "count");
    assert_eq!(copy.element(), "i32");
    assert_eq!(copy.kind(), SignalKind::BiDirectional);
    assert_eq!(copy.try_get(true), number(0));
    assert_eq!(copy.into_json(), number(4));
}

#[test]
fn hydration_is_reported_as_the_context_says() {
    assert!(!check_is_hydrating(None));
    assert!(check_is_hydrating(Some((true, true))));
    assert!(check_is_hydrating(Some((true, false))));
    assert!(check_is_hydrating(Some((false, false))));
    assert!(!check_is_hydrating(Some((false, true))));
}

fn document(text: &str) -> SignalEntry {
    SignalEntry::new(
        "doc".to_owned(),
        SignalKind::BiDirectional,
        "Doc".to_owned(),
        serde_json::from_str(text).unwrap(),
    )
}

#[test]
fn move_that_fails_after_taking_its_value_leaves_the_shadow_untouched() {
    let mut entry = document("{\"a\":1}");
    let bad: json_patch::Patch =
        serde_json::from_str("[{\"op\":\"move\",\"from\":\"/a\",\"path\":\"/b/c\"}]")
            .unwrap();
    let res = entry.update_json(&bad, Some("abc".to_owned()));
    assert!(matches!(res, Err(Error::UpdateSignalFailed)));
    let expected: Value = serde_json::from_str("{\"a\":1}").unwrap();
    assert_eq!(entry.json().unwrap(), expected);
}

#[test]
fn move_onto_an_ancestor_followed_by_a_failure_is_rejected_quietly() {
    let mut entry = document("{\"a\":{\"b\":1}}");
    let bad: json_patch::Patch = serde_json::from_str(
        "[{\"op\":\"move\",\"from\":\"/a/b\",\"path\":\"/a\"},{\"op\":\"test\",\"path\":\"/x\",\"value\":1}]",
    )
    .unwrap();
    let res = entry.update_json(&bad, None);
    assert!(matches!(res, Err(Error::UpdateSignalFailed)));
    let expected: Value = serde_json::from_str("{\"a\":{\"b\":1}}").unwrap();
    assert_eq!(entry.json().unwrap(), expected);
}

#[test]
fn move_that_applies_moves() {
    let mut entry = document("{\"a\":{\"b\":1}}");
    let good: json_patch::Patch =
        serde_json::from_str("[{\"op\":\"move\",\"from\":\"/a/b\",\"path\":\"/a\"}]")
            .unwrap();
    let applied = entry.update_json(&good, Some("abc".to_owned())).unwrap();
    let expected: Value = serde_json::from_str("{\"a\":1}").unwrap();
    assert_eq!(entry.json().unwrap(), expected);
    assert_eq!(applied.reseed, Some(expected));
    let before: Value = serde_json::from_str("{\"a\":{\"b\":1}}").unwrap();
    assert_eq!(applied.previous, before);
}

#[test]
fn settle_announces_or_takes_back() {
    let mut entry = counter(SignalKind::BiDirectional);
    let patch = json_patch::diff(&number(0), &number(7));
    let applied = entry.update_json(&patch, Some("abc".to_owned())).unwrap();
    let event = entry.settle(applied, Ok(())).unwrap();
    assert_eq!(event.origin.as_deref(), Some("abc"));
    assert_eq!(entry.json().unwrap(), number(7));
    let patch = json_patch::diff(&number(7), &Value::from("seven"));
    let applied = entry.update_json(&patch, Some("abc".to_owned())).unwrap();
    assert_eq!(entry.json().unwrap(), Value::from("seven"));
    let res = entry.settle(applied, Err("expected i32".to_owned()));
    match res {
        Err(Error::SerializationFailed(text)) => assert_eq!(text, "expected i32"),
        other => panic!("unexpected result {:?}", other),
    }
    assert_eq!(entry.json().unwrap(), number(7));
}
