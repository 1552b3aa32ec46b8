//! Lock-file monitor behaviour: initialization from on-disk state, event
//! filtering by file name, and idempotent flag updates.

use romodoro::monitor::{sentinel_matches, FsEventKind, LockFileMonitor};

const SENTINEL: &str = "romodoro.lock";

fn monitor(initial: bool) -> LockFileMonitor {
    LockFileMonitor::new(SENTINEL.to_string(), initial)
}

#[test]
fn flag_initializes_to_on_disk_existence() {
    assert!(monitor(true).flag);
    assert!(!monitor(false).flag);
}

#[test]
fn create_event_sets_the_flag() {
    let mut m = monitor(false);
    m.on_event(FsEventKind::Create, "/home/u/.config/romodoro.lock");
    assert!(m.flag);
}

#[test]
fn remove_event_clears_the_flag() {
    let mut m = monitor(true);
    m.on_event(FsEventKind::Remove, "/home/u/.config/romodoro.lock");
    assert!(!m.flag);
}

#[test]
fn repeated_create_events_leave_the_flag_true() {
    let mut m = monitor(false);
    m.on_event(FsEventKind::Create, "/home/u/.config/romodoro.lock");
    m.on_event(FsEventKind::Create, "/home/u/.config/romodoro.lock");
    assert!(m.flag);
}

#[test]
fn repeated_remove_events_leave_the_flag_false() {
    let mut m = monitor(true);
    m.on_event(FsEventKind::Remove, "/home/u/.config/romodoro.lock");
    m.on_event(FsEventKind::Remove, "/home/u/.config/romodoro.lock");
    assert!(!m.flag);
}

#[test]
fn other_operations_leave_the_flag_unchanged() {
    let mut m = monitor(true);
    m.on_event(FsEventKind::Other, "/home/u/.config/romodoro.lock");
    assert!(m.flag);
    let mut m = monitor(false);
    m.on_event(FsEventKind::Other, "/home/u/.config/romodoro.lock");
    assert!(!m.flag);
}

#[test]
fn events_for_other_files_are_ignored() {
    let mut m = monitor(false);
    m.on_event(FsEventKind::Create, "/home/u/.config/romodoro");
    m.on_event(FsEventKind::Create, "/home/u/.config/other.lock");
    assert!(!m.flag);
    let mut m = monitor(true);
    m.on_event(FsEventKind::Remove, "/home/u/.config/other.lock");
    assert!(m.flag);
}

#[test]
fn sentinel_name_must_be_a_whole_final_component() {
    assert!(sentinel_matches("/home/u/.config/romodoro.lock", SENTINEL));
    assert!(sentinel_matches("romodoro.lock", SENTINEL));
    assert!(!sentinel_matches("/home/u/.config/xromodoro.lock", SENTINEL));
    assert!(!sentinel_matches("/home/u/.config/romodoro.lock2", SENTINEL));
    assert!(!sentinel_matches("/home/u/.config/", SENTINEL));
    assert!(!sentinel_matches("", SENTINEL));
}
