use analyzer_host::address::Address;
use analyzer_host::watch::{NativeFs, WatchError};

fn root(text: &str) -> Address {
    Address::parse(text).expect("an absolute URL")
}

#[test]
fn new_service_watches_nothing() {
    let fs = NativeFs::new();
    assert_eq!(fs.watched_count(), 0);
    assert!(!fs.is_stopped());
    assert!(!fs.is_watching(&root("file:///workspace")));
}

#[test]
fn register_asks_for_the_path_of_the_root() {
    let fs = NativeFs::new();
    let call = fs.watch_needed(&root("file:///workspace/project"));
    assert_eq!(call, Some(String::from("/workspace/project")));
}

#[test]
fn register_then_unregister_leaves_the_registry_empty() {
    let mut fs = NativeFs::new();
    let folder = root("file:///workspace/project");
    assert!(fs.watch_needed(&folder).is_some());
    assert_eq!(fs.start_folder_watch(folder.clone(), true), Ok(()));
    assert_eq!(fs.watched_count(), 1);
    assert!(fs.is_watching(&folder));

    // exactly one call lets go of the root
    assert_eq!(fs.unwatch_needed(&folder), Some(String::from("/workspace/project")));
    assert_eq!(fs.stop_folder_watch(&folder, true), Ok(()));
    assert_eq!(fs.watched_count(), 0);
    assert!(!fs.is_watching(&folder));
    assert_eq!(fs.unwatch_needed(&folder), None);
}

#[test]
fn refused_watch_registers_nothing() {
    let mut fs = NativeFs::new();
    let folder = root("file:///does/not/exist");
    assert!(fs.watch_needed(&folder).is_some());
    assert_eq!(fs.start_folder_watch(folder.clone(), false), Err(WatchError::CannotWatch));
    assert_eq!(fs.watched_count(), 0);
    assert!(!fs.is_watching(&folder));
}

#[test]
fn registering_a_watched_root_again_is_a_no_op() {
    let mut fs = NativeFs::new();
    let folder = root("file:///workspace/project");
    assert_eq!(fs.start_folder_watch(folder.clone(), true), Ok(()));
    // the second registration needs no call and keeps one entry
    assert_eq!(fs.watch_needed(&folder), None);
    assert_eq!(fs.start_folder_watch(folder.clone(), false), Ok(()));
    assert_eq!(fs.start_folder_watch(folder.clone(), true), Ok(()));
    assert_eq!(fs.watched_count(), 1);
}

#[test]
fn two_registers_and_one_unregister_end_like_one_of_each() {
    let folder = root("file:///workspace/project");
    let other = root("file:///workspace/other");

    let mut twice = NativeFs::new();
    assert_eq!(twice.start_folder_watch(other.clone(), true), Ok(()));
    assert_eq!(twice.start_folder_watch(folder.clone(), true), Ok(()));
    assert_eq!(twice.start_folder_watch(folder.clone(), true), Ok(()));
    assert_eq!(twice.stop_folder_watch(&folder, true), Ok(()));

    let mut once = NativeFs::new();
    assert_eq!(once.start_folder_watch(other.clone(), true), Ok(()));
    assert_eq!(once.start_folder_watch(folder.clone(), true), Ok(()));
    assert_eq!(once.stop_folder_watch(&folder, true), Ok(()));

    assert_eq!(twice.watched_count(), once.watched_count());
    assert_eq!(twice.watched_count(), 1);
    assert_eq!(twice.is_watching(&folder), once.is_watching(&folder));
    assert!(!twice.is_watching(&folder));
    assert!(twice.is_watching(&other) && once.is_watching(&other));
    assert_eq!(twice.stop_watching_all(), once.stop_watching_all());
}

#[test]
fn unregistering_an_unknown_root_succeeds_without_a_call() {
    let mut fs = NativeFs::new();
    let watched = root("file:///workspace/project");
    let unknown = root("file:///workspace/other");
    assert_eq!(fs.start_folder_watch(watched.clone(), true), Ok(()));
    assert_eq!(fs.unwatch_needed(&unknown), None);
    assert_eq!(fs.stop_folder_watch(&unknown, false), Ok(()));
    assert_eq!(fs.stop_folder_watch(&unknown, true), Ok(()));
    assert_eq!(fs.watched_count(), 1);
    assert!(fs.is_watching(&watched));
}

#[test]
fn refused_unwatch_keeps_the_root() {
    let mut fs = NativeFs::new();
    let folder = root("file:///workspace/project");
    assert_eq!(fs.start_folder_watch(folder.clone(), true), Ok(()));
    assert_eq!(fs.stop_folder_watch(&folder, false), Err(WatchError::CannotUnwatch));
    assert!(fs.is_watching(&folder));
    assert_eq!(fs.watched_count(), 1);
}

#[test]
fn unregister_leaves_the_other_roots_in_their_order() {
    let mut fs = NativeFs::new();
    let a = root("file:///a");
    let b = root("file:///b");
    let c = root("file:///c");
    assert_eq!(fs.start_folder_watch(a.clone(), true), Ok(()));
    assert_eq!(fs.start_folder_watch(b.clone(), true), Ok(()));
    assert_eq!(fs.start_folder_watch(c.clone(), true), Ok(()));
    assert_eq!(fs.stop_folder_watch(&b, true), Ok(()));
    assert_eq!(fs.stop_watching_all(), vec![String::from("/a"), String::from("/c")]);
}

#[test]
fn shutdown_lets_go_of_every_root_oldest_first() {
    let mut fs = NativeFs::new();
    assert_eq!(fs.start_folder_watch(root("file:///first"), true), Ok(()));
    assert_eq!(fs.start_folder_watch(root("file:///second/nested"), true), Ok(()));
    let calls = fs.stop_watching_all();
    assert_eq!(calls, vec![String::from("/first"), String::from("/second/nested")]);
    assert_eq!(fs.watched_count(), 0);
    assert!(fs.is_stopped());
}

#[test]
fn shutdown_without_roots_is_safe() {
    let mut fs = NativeFs::new();
    assert!(fs.stop_watching_all().is_empty());
    assert_eq!(fs.watched_count(), 0);
    assert!(fs.is_stopped());
}

#[test]
fn second_shutdown_is_a_no_op() {
    let mut fs = NativeFs::new();
    assert_eq!(fs.start_folder_watch(root("file:///workspace"), true), Ok(()));
    assert_eq!(fs.stop_watching_all().len(), 1);
    assert!(fs.stop_watching_all().is_empty());
    assert_eq!(fs.watched_count(), 0);
    assert!(fs.is_stopped());
}

#[test]
fn register_after_shutdown_fails_fast() {
    let mut fs = NativeFs::new();
    let folder = root("file:///workspace");
    fs.stop_watching_all();
    assert_eq!(fs.watch_needed(&folder), None);
    assert_eq!(fs.start_folder_watch(folder.clone(), true), Err(WatchError::CannotWatch));
    assert_eq!(fs.start_folder_watch(folder.clone(), false), Err(WatchError::CannotWatch));
    assert_eq!(fs.watched_count(), 0);
    assert!(!fs.is_watching(&folder));
}

#[test]
fn roots_that_differ_only_in_spelling_are_one_root() {
    let mut fs = NativeFs::new();
    assert_eq!(fs.start_folder_watch(root("FILE:///workspace/./project"), true), Ok(()));
    let same = root("file:///workspace/project");
    assert!(fs.is_watching(&same));
    assert_eq!(fs.watch_needed(&same), None);
}
