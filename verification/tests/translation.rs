use std::path::PathBuf;

use analyzer_host::address::Address;
use analyzer_host::translator::{
    create_message, file_change, message_for, on_watch_result, Delivery, Event, EventKind,
    FileChangeType, WATCHED_FILES_CHANGED,
};

fn event(kind: EventKind, paths: &[&str]) -> Event {
    Event { kind, paths: paths.iter().map(PathBuf::from).collect() }
}

#[test]
fn create_event_becomes_one_created_entry_for_each_path() {
    let message =
        file_change(event(EventKind::Create, &["/r/a.p4", "/r/b.p4"])).expect("a notification");
    assert_eq!(message.method, "workspace/didChangeWatchedFiles");
    assert_eq!(message.changes.len(), 2);
    assert_eq!(message.changes[0].uri.path(), "/r/a.p4");
    assert_eq!(message.changes[0].uri.as_str(), "file:///r/a.p4");
    assert_eq!(message.changes[0].typ, FileChangeType::Created);
    assert_eq!(message.changes[1].uri.path(), "/r/b.p4");
    assert_eq!(message.changes[1].uri.as_str(), "file:///r/b.p4");
    assert_eq!(message.changes[1].typ, FileChangeType::Created);
}

#[test]
fn modify_event_becomes_changed_entries_in_path_order() {
    let paths = ["/workspace/b.p4", "/workspace/a.p4", "/workspace/c.p4"];
    let message = file_change(event(EventKind::Modify, &paths)).expect("a notification");
    assert_eq!(message.changes.len(), 3);
    for (change, path) in message.changes.iter().zip(paths.iter()) {
        assert_eq!(change.uri.path(), *path);
        assert_eq!(change.typ, FileChangeType::Changed);
    }
}

#[test]
fn remove_event_becomes_one_deleted_entry() {
    let message = file_change(event(EventKind::Remove, &["/r/gone.p4"])).expect("a notification");
    assert_eq!(message.method, WATCHED_FILES_CHANGED);
    assert_eq!(message.changes.len(), 1);
    assert_eq!(message.changes[0].uri.path(), "/r/gone.p4");
    assert_eq!(message.changes[0].typ, FileChangeType::Deleted);
    assert_ne!(message.changes[0].typ, FileChangeType::Changed);
    assert_ne!(message.changes[0].typ, FileChangeType::Created);
}

#[test]
fn access_event_becomes_no_notification() {
    assert!(file_change(event(EventKind::Access, &["/workspace/a.p4"])).is_none());
    assert!(file_change(event(EventKind::Access, &[])).is_none());
}

#[test]
fn unclassified_events_become_no_notification() {
    assert!(file_change(event(EventKind::Any, &["/workspace/a.p4"])).is_none());
    assert!(file_change(event(EventKind::Other, &["/workspace/a.p4"])).is_none());
}

#[test]
fn path_without_an_address_is_left_out_alone() {
    let message = file_change(event(
        EventKind::Create,
        &["/workspace/a.p4", "relative/not-absolute.p4", "/workspace/b.p4"],
    ))
    .expect("a notification");
    assert_eq!(message.changes.len(), 2);
    assert_eq!(message.changes[0].uri.path(), "/workspace/a.p4");
    assert_eq!(message.changes[1].uri.path(), "/workspace/b.p4");
}

#[test]
fn event_whose_paths_have_no_address_becomes_an_empty_notification() {
    let message = file_change(event(EventKind::Modify, &["a.p4", ""])).expect("a notification");
    assert_eq!(message.method, WATCHED_FILES_CHANGED);
    assert!(message.changes.is_empty());
}

#[test]
fn event_without_paths_becomes_an_empty_notification() {
    let message = file_change(event(EventKind::Remove, &[])).expect("a notification");
    assert_eq!(message.method, WATCHED_FILES_CHANGED);
    assert!(message.changes.is_empty());
}

#[test]
fn create_message_tags_every_entry_with_the_given_change() {
    let paths = vec![PathBuf::from("/x/one"), PathBuf::from("/x/two")];
    let message = create_message(paths, FileChangeType::Deleted).expect("a notification");
    assert_eq!(message.method, "workspace/didChangeWatchedFiles");
    assert_eq!(message.changes.len(), 2);
    assert_eq!(message.changes[0].uri.as_str(), "file:///x/one");
    assert_eq!(message.changes[0].typ, FileChangeType::Deleted);
    assert_eq!(message.changes[1].uri.as_str(), "file:///x/two");
    assert_eq!(message.changes[1].typ, FileChangeType::Deleted);
}

#[test]
fn entry_address_encodes_what_a_url_cannot_hold() {
    let message =
        file_change(event(EventKind::Create, &["/work space/a?b#c.p4"])).expect("a notification");
    assert_eq!(message.changes.len(), 1);
    assert_eq!(message.changes[0].uri.as_str(), "file:///work%20space/a%3Fb%23c.p4");
    assert_eq!(message.changes[0].uri.path(), "/work%20space/a%3Fb%23c.p4");
}

#[test]
fn created_file_under_a_watched_root_is_sent_as_one_entry() {
    match on_watch_result(Ok(event(EventKind::Create, &["/ws/f.p4"]))) {
        Delivery::Send(message) => {
            assert_eq!(message.method, "workspace/didChangeWatchedFiles");
            assert_eq!(message.changes.len(), 1);
            assert_eq!(message.changes[0].uri.path(), "/ws/f.p4");
            assert_eq!(message.changes[0].typ, FileChangeType::Created);
        }
        _ => panic!("a created file is to be sent"),
    }
}

#[test]
fn reported_access_is_dropped() {
    let delivery = on_watch_result(Ok(event(EventKind::Access, &["/workspace/f"])));
    assert!(matches!(delivery, Delivery::Nothing));
}

#[test]
fn reported_error_is_logged() {
    match on_watch_result(Err(String::from("Error { kind: MaxFilesWatch, paths: [] }"))) {
        Delivery::Log(line) => {
            assert_eq!(line, "watch error: Error { kind: MaxFilesWatch, paths: [] }")
        }
        _ => panic!("an error is to be logged"),
    }
}

#[test]
fn message_holds_an_entry_for_every_address_that_was_found() {
    let uris = vec![
        Address::parse("file:///w/one"),
        None,
        Address::from_file_path(&PathBuf::from("/w/two")),
        None,
    ];
    let message = message_for(uris, FileChangeType::Changed);
    assert_eq!(message.method, "workspace/didChangeWatchedFiles");
    assert_eq!(message.changes.len(), 2);
    assert_eq!(message.changes[0].uri.as_str(), "file:///w/one");
    assert_eq!(message.changes[0].typ, FileChangeType::Changed);
    assert_eq!(message.changes[1].uri.as_str(), "file:///w/two");
    assert_eq!(message.changes[1].typ, FileChangeType::Changed);

    let message = message_for(Vec::new(), FileChangeType::Created);
    assert_eq!(message.method, WATCHED_FILES_CHANGED);
    assert!(message.changes.is_empty());
}
