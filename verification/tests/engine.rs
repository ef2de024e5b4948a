use image_sort::action::{Action, ActionKind, ActionLog};
use image_sort::engine::{Slot, SortEngine};

fn names(list: &[&str]) -> Vec<String> {
    list.iter().map(|s| String::from(*s)).collect()
}

#[test]
fn log_records_and_pops_in_lifo_order() {
    let mut log = ActionLog::new();
    assert!(log.is_empty());
    log.record(Action {
        from: String::from("a.png"),
        to: Some(String::from("/dest/a.png")),
        kind: ActionKind::Move,
    });
    log.record(Action {
        from: String::from("b.jpg"),
        to: None,
        kind: ActionKind::Delete,
    });
    let last = log.pop_last().unwrap();
    assert_eq!(last.from, "b.jpg");
    assert_eq!(last.to, None);
    assert!(matches!(last.kind, ActionKind::Delete));
    let first = log.pop_last().unwrap();
    assert_eq!(first.from, "a.png");
    assert_eq!(first.to, Some(String::from("/dest/a.png")));
    assert!(matches!(first.kind, ActionKind::Move));
    assert!(log.is_empty());
}

#[test]
fn log_pop_on_empty_log_is_none() {
    let mut log = ActionLog::new();
    assert!(log.pop_last().is_none());
    assert!(log.is_empty());
}

#[test]
fn sort_then_undo_round_trip() {
    let mut e = SortEngine::new();
    e.open_source_folder(names(&["a.png", "b.jpg"]));
    e.set_destination(Slot::One, String::from("/dest"));

    let request = e.sort_to(Slot::One).unwrap();
    assert_eq!(request.source, "a.png");
    assert_eq!(request.target, "/dest/a.png");
    assert_eq!(e.pending(), &names(&["b.jpg"]));
    assert_eq!(e.history().len(), 0);

    e.commit_move(request);
    assert_eq!(e.history().len(), 1);
    assert_eq!(e.history()[0].from, "a.png");
    assert_eq!(e.history()[0].to, Some(String::from("/dest/a.png")));
    assert!(matches!(e.history()[0].kind, ActionKind::Move));

    let action = e.undo().unwrap();
    assert_eq!(action.from, "a.png");
    assert_eq!(action.to, Some(String::from("/dest/a.png")));
    assert!(e.history().is_empty());

    e.complete_undo(action.from);
    assert_eq!(e.current(), Some(&String::from("a.png")));
    assert_eq!(e.pending(), &names(&["a.png", "b.jpg"]));
}

#[test]
fn delete_then_undo_round_trip() {
    let mut e = SortEngine::new();
    e.open_source_folder(names(&["x.jpg"]));

    let popped = e.delete_current().unwrap();
    assert_eq!(popped, "x.jpg");
    assert_eq!(e.remaining_count(), 0);

    e.commit_delete(popped);
    assert_eq!(e.history().len(), 1);
    assert_eq!(e.history()[0].from, "x.jpg");
    assert_eq!(e.history()[0].to, None);
    assert!(matches!(e.history()[0].kind, ActionKind::Delete));

    let action = e.undo().unwrap();
    assert!(matches!(action.kind, ActionKind::Delete));
    e.complete_undo(action.from);
    assert_eq!(e.pending(), &names(&["x.jpg"]));
    assert!(e.history().is_empty());
}

#[test]
fn undo_on_empty_log_is_a_noop() {
    let mut e = SortEngine::new();
    e.open_source_folder(names(&["a.png"]));
    assert!(e.undo().is_none());
    assert_eq!(e.pending(), &names(&["a.png"]));
    assert!(e.history().is_empty());
}

#[test]
fn sort_on_empty_catalog_is_a_noop() {
    let mut e = SortEngine::new();
    e.set_destination(Slot::Two, String::from("/dest"));
    assert!(e.sort_to(Slot::Two).is_none());
    assert_eq!(e.remaining_count(), 0);
    assert!(e.history().is_empty());
}

#[test]
fn sort_on_unset_slot_is_a_noop() {
    let mut e = SortEngine::new();
    e.open_source_folder(names(&["a.png"]));
    assert!(e.sort_to(Slot::Three).is_none());
    assert_eq!(e.pending(), &names(&["a.png"]));
    assert!(e.history().is_empty());
}

#[test]
fn delete_on_empty_catalog_is_a_noop() {
    let mut e = SortEngine::new();
    assert!(e.delete_current().is_none());
    assert_eq!(e.remaining_count(), 0);
    assert!(e.history().is_empty());
}

#[test]
fn sort_pops_by_swap_removal() {
    let mut e = SortEngine::new();
    e.open_source_folder(names(&["a.png", "b.jpg", "c.jpg"]));
    e.set_destination(Slot::One, String::from("/dest"));
    let request = e.sort_to(Slot::One).unwrap();
    assert_eq!(request.source, "a.png");
    // The last entry became the new head: preview order changes.
    assert_eq!(e.pending(), &names(&["c.jpg", "b.jpg"]));
}

#[test]
fn destination_slots_are_independent() {
    let mut e = SortEngine::new();
    e.set_destination(Slot::One, String::from("/one"));
    e.set_destination(Slot::Three, String::from("/three"));
    e.open_source_folder(names(&["a.png"]));
    assert!(e.can_sort(Slot::One));
    assert!(!e.can_sort(Slot::Two));
    assert!(e.can_sort(Slot::Three));
    let request = e.sort_to(Slot::Three).unwrap();
    assert_eq!(request.target, "/three/a.png");
}

#[test]
fn enablement_follows_catalog_and_log() {
    let mut e = SortEngine::new();
    assert!(!e.can_delete());
    assert!(!e.can_undo());
    assert!(!e.can_sort(Slot::One));

    e.open_source_folder(names(&["a.png"]));
    assert!(e.can_delete());
    assert!(!e.can_sort(Slot::One));

    e.set_destination(Slot::One, String::from("/dest"));
    assert!(e.can_sort(Slot::One));

    let popped = e.delete_current().unwrap();
    e.commit_delete(popped);
    assert!(!e.can_delete());
    assert!(!e.can_sort(Slot::One));
    assert!(e.can_undo());
}

#[test]
fn open_source_folder_replaces_catalog_but_keeps_log() {
    let mut e = SortEngine::new();
    e.open_source_folder(names(&["x.jpg"]));
    let popped = e.delete_current().unwrap();
    e.commit_delete(popped);
    e.open_source_folder(names(&["y.jpg", "z.png"]));
    assert_eq!(e.pending(), &names(&["y.jpg", "z.png"]));
    assert_eq!(e.history().len(), 1);
}
