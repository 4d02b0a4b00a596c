use codex_session::storage::{
    failure_of, persist_all, MemoryRollout, RolloutFileStorage, RolloutItem, RolloutWriter, Severity, StorageBackend,
    StorageError,
};

fn item(p: &str) -> RolloutItem {
    RolloutItem { payload: p.to_string() }
}

fn closed_rollout() -> MemoryRollout {
    let mut rollout = MemoryRollout::new();
    rollout.close();
    rollout
}

fn kept(storage: &RolloutFileStorage<MemoryRollout>) -> usize {
    storage.installed().as_ref().map(|r| r.len()).unwrap_or(0)
}

#[test]
fn failed_saves_are_swallowed_and_later_calls_still_run() {
    let mut storage = RolloutFileStorage::new(Some(closed_rollout()));
    persist_all(&mut storage, &vec![vec![item("a")], vec![item("b"), item("c")]]);
    let failures = storage.take_failures();
    assert_eq!(failures.len(), 3);
    assert!(matches!(failures[0].severity, Severity::Error));
    assert_eq!(failures[0].message, "rollout is closed");
    assert!(matches!(failures[1].severity, Severity::Error));
    assert!(matches!(failures[2].severity, Severity::Warning));
    assert_eq!(failures[2].message, "rollout is closed");
    assert!(storage.take_failures().is_empty());
}

#[test]
fn successful_saves_reach_the_writer_with_no_failures() {
    let mut storage = RolloutFileStorage::new(Some(MemoryRollout::new()));
    storage.save(&vec![item("a"), item("b")]);
    storage.flush();
    assert!(storage.failures().is_empty());
    assert_eq!(kept(&storage), 1);
}

#[test]
fn storage_without_recorder_drops_items_quietly() {
    let mut storage: RolloutFileStorage<MemoryRollout> = RolloutFileStorage::new(None);
    storage.save(&vec![item("a")]);
    storage.flush();
    assert!(storage.failures().is_empty());
    assert!(storage.installed().is_none());
}

#[test]
fn memory_rollout_keeps_every_batch() {
    let mut storage = RolloutFileStorage::new(Some(MemoryRollout::new()));
    persist_all(&mut storage, &vec![vec![item("a")], vec![item("b"), item("c")]]);
    storage.save(&vec![item("d")]);
    assert!(storage.failures().is_empty());
    assert_eq!(kept(&storage), 3);
}

#[test]
fn memory_rollout_counts_batches_and_refuses_once_closed() {
    let mut rollout = MemoryRollout::new();
    assert_eq!(rollout.len(), 0);
    assert!(rollout.record_items(&vec![item("a"), item("b")]).is_ok());
    assert!(rollout.record_items(&vec![]).is_ok());
    assert!(RolloutWriter::flush(&mut rollout).is_ok());
    rollout.close();
    assert!(rollout.record_items(&vec![item("c")]).is_err());
    assert!(RolloutWriter::flush(&mut rollout).is_err());
    assert_eq!(rollout.len(), 2);
}

#[test]
fn failure_of_maps_results_to_kept_failures() {
    assert!(failure_of(Ok(()), Severity::Error).is_none());
    let f = failure_of(Err(StorageError { message: "nope".to_string() }), Severity::Warning).unwrap();
    assert!(matches!(f.severity, Severity::Warning));
    assert_eq!(f.message, "nope");
}

#[test]
fn a_failed_save_does_not_stop_the_next_one() {
    let mut storage = RolloutFileStorage::new(Some(closed_rollout()));
    storage.save_items(&vec![item("a")]);
    storage.save_items(&vec![item("b")]);
    storage.flush_recorder();
    let failures = storage.take_failures();
    assert_eq!(failures.len(), 3);
    assert!(matches!(failures[0].severity, Severity::Error));
    assert!(matches!(failures[1].severity, Severity::Error));
    assert!(matches!(failures[2].severity, Severity::Warning));
}
