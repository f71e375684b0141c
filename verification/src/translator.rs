use crate::address::{file_address, file_addresses_of, readings, Address};
use std::path::PathBuf;
use vstd::prelude::*;
use vstd::string::StringExecFns;

verus! {

/// The method name of the notification that reports changes to watched files.
pub const WATCHED_FILES_CHANGED: &'static str = "workspace/didChangeWatchedFiles";

/// What the watcher says happened, without the detail below the top level.
#[derive(Clone, Copy, Debug, PartialEq, Eq, Structural)]
pub enum EventKind {
    /// The watcher could not classify the event.
    Any,
    /// A file was opened, read or closed; nothing changed.
    Access,
    Create,
    Modify,
    Remove,
    /// An event that fits none of the other kinds.
    Other,
}

/// A raw change event: its kind and the paths of the file system that it is about, in the
/// watcher's order.
pub struct Event {
    pub kind: EventKind,
    pub paths: Vec<PathBuf>,
}

pub struct EventView {
    pub kind: EventKind,
    pub paths: Seq<PathBuf>,
}

impl View for Event {
    type V = EventView;

    open spec fn view(&self) -> EventView {
        EventView { kind: self.kind, paths: self.paths@ }
    }
}

/// How one file changed.
#[derive(Clone, Copy, Debug, PartialEq, Eq, Structural)]
pub enum FileChangeType {
    Created,
    Changed,
    Deleted,
}

/// One entry of a notification: the file and how it changed.
pub struct FileEvent {
    pub uri: Address,
    pub typ: FileChangeType,
}

pub struct FileEventView {
    pub uri: Seq<char>,
    pub typ: FileChangeType,
}

impl View for FileEvent {
    type V = FileEventView;

    open spec fn view(&self) -> FileEventView {
        FileEventView { uri: self.uri@, typ: self.typ }
    }
}

/// An outbound notification: the method name and the change entries it carries.
pub struct Notification {
    pub method: String,
    pub changes: Vec<FileEvent>,
}

pub struct NotificationView {
    pub method: Seq<char>,
    pub changes: Seq<FileEventView>,
}

impl View for Notification {
    type V = NotificationView;

    open spec fn view(&self) -> NotificationView {
        NotificationView {
            method: self.method@,
            changes: self.changes@.map_values(|change: FileEvent| change@),
        }
    }
}

/// The change that an event of this kind reports, if it reports one.
pub open spec fn change_type(kind: EventKind) -> Option<FileChangeType> {
    match kind {
        EventKind::Create => Some(FileChangeType::Created),
        EventKind::Modify => Some(FileChangeType::Changed),
        EventKind::Remove => Some(FileChangeType::Deleted),
        EventKind::Any | EventKind::Access | EventKind::Other => None,
    }
}

/// The entry for one path, given the address that the path has or lacks: none where it has
/// none.
pub open spec fn entry_of(uri: Option<Seq<char>>, typ: FileChangeType) -> Option<FileEventView> {
    match uri {
        Some(uri) => Some(FileEventView { uri, typ }),
        None => None,
    }
}

/// The entries for the paths of one event, given the address that each path has or lacks: one
/// for each path that has an address, in the order of the paths.
pub open spec fn entries_of(uris: Seq<Option<Seq<char>>>, typ: FileChangeType) -> Seq<
    FileEventView,
> {
    uris.filter_map(|uri: Option<Seq<char>>| entry_of(uri, typ))
}

/// The notification that an event of a kind becomes, if it becomes one, given the address
/// that each of its paths has or lacks.
pub open spec fn translated(kind: EventKind, uris: Seq<Option<Seq<char>>>) -> Option<
    NotificationView,
> {
    match change_type(kind) {
        Some(typ) => Some(
            NotificationView { method: WATCHED_FILES_CHANGED@, changes: entries_of(uris, typ) },
        ),
        None => None,
    }
}

/// A notification, or none, as contracts see it.
pub open spec fn outcome(res: Option<Notification>) -> Option<NotificationView> {
    match res {
        Some(message) => Some(message@),
        None => None,
    }
}

/// The notification for a list of paths that all changed in one way.
pub open spec fn message_of(paths: Seq<PathBuf>, typ: FileChangeType) -> NotificationView {
    NotificationView {
        method: WATCHED_FILES_CHANGED@,
        changes: entries_of(file_addresses_of(paths), typ),
    }
}

/// The notification that an event becomes, if it becomes one: a function of its kind and of
/// its paths alone.
pub open spec fn translation(event: EventView) -> Option<NotificationView> {
    translated(event.kind, file_addresses_of(event.paths))
}

/// Where every path has an address, the entries are as many as the paths, and each entry
/// holds the address of the path in its place and the change asked for.
pub proof fn lemma_entries_of_addresses(uris: Seq<Option<Seq<char>>>, typ: FileChangeType)
    requires
        forall|i: int| 0 <= i < uris.len() ==> (#[trigger] uris[i]) is Some,
    ensures
        entries_of(uris, typ).len() == uris.len(),
        forall|i: int|
            0 <= i < uris.len() ==> (#[trigger] entries_of(uris, typ)[i]) == (FileEventView {
                uri: uris[i]->0,
                typ,
            }),
    decreases uris.len(),
{
    if uris.len() > 0 {
        lemma_entries_of_addresses(uris.drop_last(), typ);
    }
}

/// Whatever address the paths have or lack, there are no more entries than paths, and every
/// entry holds the change asked for and the address of one of the paths.
pub proof fn lemma_entries_bound(uris: Seq<Option<Seq<char>>>, typ: FileChangeType)
    ensures
        entries_of(uris, typ).len() <= uris.len(),
        forall|i: int|
            0 <= i < entries_of(uris, typ).len() ==> {
                &&& (#[trigger] entries_of(uris, typ)[i]).typ == typ
                &&& uris.contains(Some(entries_of(uris, typ)[i].uri))
            },
    decreases uris.len(),
{
    if uris.len() > 0 {
        let front = uris.drop_last();
        lemma_entries_bound(front, typ);
    }
}

/// An event that reports a creation, a modification or a removal, and whose paths all have an
/// address, becomes exactly one notification; it has one entry for each path, in the order of
/// the paths, and each entry is of the kind of the event and holds the address of its path. An
/// event that reports an access becomes no notification.
pub proof fn lemma_translation(kind: EventKind, uris: Seq<Option<Seq<char>>>)
    requires
        forall|i: int| 0 <= i < uris.len() ==> (#[trigger] uris[i]) is Some,
    ensures
        kind is Access ==> translated(kind, uris) is None,
        (kind is Create || kind is Modify || kind is Remove) ==> {
            &&& translated(kind, uris) matches Some(message)
            &&& message.method == WATCHED_FILES_CHANGED@
            &&& message.changes.len() == uris.len()
            &&& forall|i: int|
                0 <= i < uris.len() ==> {
                    &&& Some((#[trigger] message.changes[i]).typ) == change_type(kind)
                    &&& Some(message.changes[i].uri) == uris[i]
                }
        },
{
    match change_type(kind) {
        Some(typ) => {
            lemma_entries_of_addresses(uris, typ);
        },
        None => {},
    }
}

/// An event whose paths all have an address becomes a notification with exactly one entry for
/// each path, in the order of the paths, where it reports a creation, a modification or a
/// removal. Of an event with paths that have none, the entries are those of the other paths,
/// in their order.
pub proof fn lemma_translation_of_paths(event: EventView)
    ensures
        event.kind is Access ==> translation(event) is None,
        translation(event) matches Some(message) ==> {
            &&& message.changes.len() <= event.paths.len()
            &&& message.changes == entries_of(
                file_addresses_of(event.paths),
                change_type(event.kind)->0,
            )
            &&& (forall|i: int| 0 <= i < event.paths.len() ==> file_address(
                #[trigger] event.paths[i],
            ) is Some) ==> {
                &&& message.changes.len() == event.paths.len()
                &&& forall|i: int|
                    0 <= i < event.paths.len() ==> {
                        &&& Some((#[trigger] message.changes[i]).typ) == change_type(event.kind)
                        &&& Some(message.changes[i].uri) == file_address(event.paths[i])
                    }
            }
        },
{
    let uris = file_addresses_of(event.paths);
    match change_type(event.kind) {
        Some(typ) => {
            lemma_entries_bound(uris, typ);
            if forall|i: int| 0 <= i < event.paths.len() ==> file_address(
                #[trigger] event.paths[i],
            ) is Some {
                lemma_translation(event.kind, uris);
            }
        },
        None => {},
    }
}

/// What an event becomes depends on its kind and on its paths and on nothing else: two events
/// of one kind with the same paths become the same.
pub proof fn lemma_translation_is_a_function(first: EventView, second: EventView)
    requires
        first.kind == second.kind,
        first.paths == second.paths,
    ensures
        translation(first) == translation(second),
{
}

/// Builds the notification for files that all changed in the way `event_type` names, given
/// the address that the path of each has or lacks. A path without an address is left out; the
/// others keep their order.
pub fn message_for(uris: Vec<Option<Address>>, event_type: FileChangeType) -> (res: Notification)
    ensures
        res@ == (NotificationView {
            method: WATCHED_FILES_CHANGED@,
            changes: entries_of(readings(uris@), event_type),
        }),
{
    let ghost read = readings(uris@);
    let ghost entry = |uri: Option<Seq<char>>| entry_of(uri, event_type);
    let mut files: Vec<FileEvent> = Vec::new();
    let mut i: usize = 0;
    while i < uris.len()
        invariant
            i <= uris.len(),
            read == readings(uris@),
            entry == |uri: Option<Seq<char>>| entry_of(uri, event_type),
            files@.map_values(|change: FileEvent| change@) == read.take(i as int).filter_map(entry),
        decreases uris.len() - i,
    {
        proof {
            read.lemma_filter_map_take_succ(entry, i as int);
        }
        match &uris[i] {
            Some(uri) => {
                files.push(FileEvent { uri: uri.clone(), typ: event_type });
            },
            None => {},
        }
        i += 1;
    }
    proof {
        assert(read.take(uris.len() as int) == read);
    }
    Notification { method: WATCHED_FILES_CHANGED.to_string(), changes: files }
}

/// Builds the notification for `paths`, all changed in the way `event_type` names: each path
/// is turned into its address, and a path that has none is left out alone.
pub fn create_message(paths: Vec<PathBuf>, event_type: FileChangeType) -> (res: Option<
    Notification,
>)
    ensures
        res matches Some(message) && message@ == message_of(paths@, event_type),
{
    Some(message_for(Address::from_file_paths(&paths), event_type))
}

/// Translates a raw change event: a create, modify or remove event becomes one notification
/// with an entry for each of its paths that has an address; any other event becomes none.
pub fn file_change(event: Event) -> (res: Option<Notification>)
    ensures
        outcome(res) == translation(event@),
{
    let paths = event.paths;
    match event.kind {
        EventKind::Any => None,
        EventKind::Access => None,
        EventKind::Create => create_message(paths, FileChangeType::Created),
        EventKind::Modify => create_message(paths, FileChangeType::Changed),
        EventKind::Remove => create_message(paths, FileChangeType::Deleted),
        EventKind::Other => None,
    }
}

/// What is to be done with something that the watcher reported.
pub enum Delivery {
    /// Push this notification onto the channel to the host; a failure to do so is logged and
    /// goes no further.
    Send(Notification),
    /// Log this line.
    Log(String),
    /// Nothing.
    Nothing,
}

/// The line that is logged for an error of the watcher.
pub open spec fn watch_error_line(error: Seq<char>) -> Seq<char> {
    "watch error: "@ + error
}

/// Decides what is done with a report of the watcher: an event is translated, and sent where
/// it becomes a notification; an error, given as the watcher describes it, is logged.
pub fn on_watch_result(result: Result<Event, String>) -> (res: Delivery)
    ensures
        match result {
            Ok(event) => match translation(event@) {
                Some(message) => res matches Delivery::Send(sent) && sent@ == message,
                None => res is Nothing,
            },
            Err(error) => res matches Delivery::Log(line) && line@ == watch_error_line(error@),
        },
{
    match result {
        Ok(event) => match file_change(event) {
            Some(message) => Delivery::Send(message),
            None => Delivery::Nothing,
        },
        Err(error) => {
            let mut line = String::from_str("watch error: ");
            line.append(error.as_str());
            Delivery::Log(line)
        },
    }
}

} // verus!
