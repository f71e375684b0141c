use crate::address::{file_address, reading, texts, Address};
use crate::watch::{NativeFs, WatchState};
use regex::Regex;
use std::path::PathBuf;
use vstd::prelude::*;

verus! {

/// Whether `Regex::new` accepts `pattern`.
pub uninterp spec fn regex_compiles(pattern: Seq<char>) -> bool;

/// Whether the regular expression that `Regex::new` builds from `pattern` finds a match
/// anywhere in `haystack`, as `Regex::is_match` tells it.
pub uninterp spec fn regex_matches(pattern: Seq<char>, haystack: Seq<char>) -> bool;

/// Compiles `pattern` with `Regex::new` and asks `Regex::is_match` about `haystack`. Nothing is
/// proved here: the contract only gives names to the two answers of the `regex` crate, `None`
/// standing for a pattern that it refuses.
///
/// Every call compiles the pattern anew: a compiled expression is opaque to the contracts, so
/// none is kept from one call to the next.
#[verifier::external_body]
fn regex_is_match(pattern: &str, haystack: &str) -> (res: Option<bool>)
    ensures
        res is Some <==> regex_compiles(pattern@),
        res matches Some(found) ==> found == regex_matches(pattern@, haystack@),
{
    match Regex::new(pattern) {
        Ok(regex) => Some(regex.is_match(haystack)),
        Err(_) => None,
    }
}

/// One entry of a directory as the scan read it: the base name and the full path.
pub struct DirEntry {
    pub file_name: String,
    pub path: PathBuf,
}

/// One entry of a directory after it was examined: whether its base name matches the
/// pattern, and the address of its path, if the path has one.
pub struct Examined {
    pub matches: bool,
    pub file: Option<Address>,
}

pub struct ExaminedView {
    pub matches: bool,
    pub file: Option<Seq<char>>,
}

impl View for Examined {
    type V = ExaminedView;

    open spec fn view(&self) -> ExaminedView {
        ExaminedView { matches: self.matches, file: reading(self.file) }
    }
}

/// A directory after it was scanned and its entries were examined.
pub enum Scan {
    /// The directory could not be read.
    Unreadable,
    /// The directory could be read, and the file pattern is no regular expression.
    InvalidPattern,
    /// The entries in the order of the scan; `None` stands for an entry that could not be
    /// read.
    Entries(Vec<Option<Examined>>),
}

pub enum ScanView {
    Unreadable,
    InvalidPattern,
    Entries(Seq<Option<ExaminedView>>),
}

/// An examined entry as contracts see it.
pub open spec fn examined(entry: Option<Examined>) -> Option<ExaminedView> {
    match entry {
        Some(entry) => Some(entry@),
        None => None,
    }
}

impl View for Scan {
    type V = ScanView;

    open spec fn view(&self) -> ScanView {
        match self {
            Scan::Unreadable => ScanView::Unreadable,
            Scan::InvalidPattern => ScanView::InvalidPattern,
            Scan::Entries(entries) => ScanView::Entries(
                entries@.map_values(|entry: Option<Examined>| examined(entry)),
            ),
        }
    }
}

/// What examining one scanned entry gives: an entry that could not be read stays so; of
/// another, the base name is held against `pattern`, and the path is turned into its address.
pub open spec fn examination_of(entry: Option<DirEntry>, pattern: Seq<char>) -> Option<
    ExaminedView,
> {
    match entry {
        Some(entry) => Some(
            ExaminedView {
                matches: regex_matches(pattern, entry.file_name@),
                file: file_address(entry.path),
            },
        ),
        None => None,
    }
}

/// What examining a scanned directory gives. The pattern is looked at only where there is a
/// scan to hold it against.
pub open spec fn examination(
    listing: Option<Vec<Option<DirEntry>>>,
    pattern: Seq<char>,
) -> ScanView {
    match listing {
        Some(entries) => if regex_compiles(pattern) {
            ScanView::Entries(
                entries@.map_values(|entry: Option<DirEntry>| examination_of(entry, pattern)),
            )
        } else {
            ScanView::InvalidPattern
        },
        None => ScanView::Unreadable,
    }
}

/// The identifier that one scanned entry contributes under `pattern`: that of its path, where
/// the entry could be read, its base name matches `pattern`, and its path has an address.
pub open spec fn wanted(entry: Option<DirEntry>, pattern: Seq<char>) -> Option<Seq<char>> {
    match entry {
        Some(entry) => if regex_matches(pattern, entry.file_name@) {
            file_address(entry.path)
        } else {
            None
        },
        None => None,
    }
}

/// The identifiers of the files of a scanned directory whose base names match `pattern`, in
/// the order of the scan. A directory that could not be read has none.
pub open spec fn files_in(listing: Option<Vec<Option<DirEntry>>>, pattern: Seq<char>) -> Seq<
    Seq<char>,
> {
    match listing {
        Some(entries) => entries@.filter_map(|entry: Option<DirEntry>| wanted(entry, pattern)),
        None => Seq::empty(),
    }
}

/// The identifier that one examined entry contributes: that of its path, where the entry could
/// be read, its base name matches, and its path has an address.
pub open spec fn chosen(entry: Option<ExaminedView>) -> Option<Seq<char>> {
    match entry {
        Some(entry) => if entry.matches {
            entry.file
        } else {
            None
        },
        None => None,
    }
}

/// The identifiers of the files of an examined directory whose base names match, in the
/// order of the scan. A directory that could not be read has none; under a pattern that is no
/// regular expression there is no answer.
pub open spec fn files_of(scan: ScanView) -> Option<Seq<Seq<char>>> {
    match scan {
        ScanView::Unreadable => Some(Seq::empty()),
        ScanView::InvalidPattern => None,
        ScanView::Entries(entries) => Some(
            entries.filter_map(|entry: Option<ExaminedView>| chosen(entry)),
        ),
    }
}

/// Whether an examined entry could be read and has a base name that matches.
pub open spec fn is_match(entry: Option<ExaminedView>) -> bool {
    entry matches Some(entry) && entry.matches
}

/// Examining a scanned directory under a regular expression and picking the files out of it
/// gives, in the order of the scan, the identifier of every entry that could be read, has a
/// base name that matches, and has a path with an address; and it gives nothing else.
pub proof fn lemma_examined_files(listing: Option<Vec<Option<DirEntry>>>, pattern: Seq<char>)
    requires
        listing is Some ==> regex_compiles(pattern),
    ensures
        files_of(examination(listing, pattern)) == Some(files_in(listing, pattern)),
{
    match listing {
        Some(entries) => {
            lemma_chosen_of_examined(
                entries@,
                |entry: Option<DirEntry>| examination_of(entry, pattern),
                |entry: Option<ExaminedView>| chosen(entry),
                |entry: Option<DirEntry>| wanted(entry, pattern),
            );
        },
        None => {},
    }
}

/// Mapping a list and then picking from it is picking from the list, where the two ways of
/// picking agree on every item.
proof fn lemma_chosen_of_examined(
    entries: Seq<Option<DirEntry>>,
    examine_one: spec_fn(Option<DirEntry>) -> Option<ExaminedView>,
    choose_one: spec_fn(Option<ExaminedView>) -> Option<Seq<char>>,
    select_one: spec_fn(Option<DirEntry>) -> Option<Seq<char>>,
)
    requires
        forall|entry: Option<DirEntry>|
            choose_one(#[trigger] examine_one(entry)) == select_one(entry),
    ensures
        entries.map_values(examine_one).filter_map(choose_one) == entries.filter_map(select_one),
    decreases entries.len(),
{
    if entries.len() > 0 {
        lemma_chosen_of_examined(entries.drop_last(), examine_one, choose_one, select_one);
        assert(entries.map_values(examine_one).drop_last() == entries.drop_last().map_values(
            examine_one,
        ));
    }
}

/// Picking the files out of examined entries gives no more identifiers than there are matches,
/// in the order of the scan. Where the path of every match has an address, it gives exactly
/// one identifier for every entry that could be read and has a base name that matches: that of
/// the entry's path.
pub proof fn lemma_selected_files(entries: Seq<Option<ExaminedView>>)
    ensures
        files_of(ScanView::Entries(entries)) matches Some(files) && files.len()
            <= entries.filter(|entry: Option<ExaminedView>| is_match(entry)).len()
            <= entries.len(),
        (forall|i: int| 0 <= i < entries.len() && is_match(#[trigger] entries[i])
            ==> entries[i]->0.file is Some) ==> files_of(ScanView::Entries(entries)) == Some(
            entries.filter(|entry: Option<ExaminedView>| is_match(entry)).map_values(
                |entry: Option<ExaminedView>| entry->0.file->0,
            ),
        ),
    decreases entries.len(),
{
    reveal(Seq::filter);
    if entries.len() > 0 {
        lemma_selected_files(entries.drop_last());
    }
}

/// Examines a scanned directory: holds the base name of every entry against `file_pattern`
/// and turns its path into an address.
///
/// `listing` is what reading the directory gave: `None` where it could not be read at all, and
/// `None` in place of each entry that could not be read.
pub fn examine(listing: Option<Vec<Option<DirEntry>>>, file_pattern: &str) -> (scan: Scan)
    ensures
        scan@ == examination(listing, file_pattern@),
{
    let entries = match listing {
        Some(entries) => entries,
        None => {
            return Scan::Unreadable;
        },
    };
    if regex_is_match(file_pattern, "").is_none() {
        return Scan::InvalidPattern;
    }
    let ghost all = entries@.map_values(
        |entry: Option<DirEntry>| examination_of(entry, file_pattern@),
    );
    let mut output: Vec<Option<Examined>> = Vec::new();
    let mut i: usize = 0;
    while i < entries.len()
        invariant
            i <= entries.len(),
            regex_compiles(file_pattern@),
            all == entries@.map_values(
                |entry: Option<DirEntry>| examination_of(entry, file_pattern@),
            ),
            output@.map_values(|entry: Option<Examined>| examined(entry)) == all.take(i as int),
        decreases entries.len() - i,
    {
        let entry = match &entries[i] {
            Some(entry) => Some(
                Examined {
                    matches: regex_is_match(file_pattern, entry.file_name.as_str()) == Some(true),
                    file: Address::from_file_path(&entry.path),
                },
            ),
            None => None,
        };
        proof {
            assert(output@.push(entry).map_values(|entry: Option<Examined>| examined(entry))
                == output@.map_values(|entry: Option<Examined>| examined(entry)).push(
                examined(entry),
            ));
        }
        output.push(entry);
        i += 1;
    }
    proof {
        assert(all.take(entries.len() as int) == all);
    }
    Scan::Entries(output)
}

/// Picks the files whose base names match out of an examined directory. Entries that could
/// not be read, and entries whose path has no address, are passed over. `None` stands for a
/// pattern that is no regular expression.
pub fn select_files(scan: &Scan) -> (res: Option<Vec<Address>>)
    ensures
        res is Some <==> files_of(scan@) is Some,
        res matches Some(files) ==> files_of(scan@) == Some(texts(files@)),
{
    let entries = match scan {
        Scan::Unreadable => {
            return Some(Vec::new());
        },
        Scan::InvalidPattern => {
            return None;
        },
        Scan::Entries(entries) => entries,
    };
    let ghost all = entries@.map_values(|entry: Option<Examined>| examined(entry));
    let ghost choose_one = |entry: Option<ExaminedView>| chosen(entry);
    let mut output: Vec<Address> = Vec::new();
    let mut i: usize = 0;
    while i < entries.len()
        invariant
            i <= entries.len(),
            all == entries@.map_values(|entry: Option<Examined>| examined(entry)),
            choose_one == |entry: Option<ExaminedView>| chosen(entry),
            texts(output@) == all.take(i as int).filter_map(choose_one),
        decreases entries.len() - i,
    {
        proof {
            all.lemma_filter_map_take_succ(choose_one, i as int);
        }
        match &entries[i] {
            Some(entry) => {
                if entry.matches {
                    match &entry.file {
                        Some(file) => {
                            output.push(file.clone());
                        },
                        None => {},
                    }
                }
            },
            None => {},
        }
        i += 1;
    }
    proof {
        assert(all.take(entries.len() as int) == all);
    }
    Some(output)
}

/// The files of a scanned directory whose base names match `file_pattern`, which has to be a
/// regular expression where the directory could be read. A directory that could not be read
/// has no files.
pub fn enumerate_folder(listing: Option<Vec<Option<DirEntry>>>, file_pattern: &str) -> (res: Vec<
    Address,
>)
    requires
        listing is Some ==> regex_compiles(file_pattern@),
    ensures
        texts(res@) == files_in(listing, file_pattern@),
{
    let scan = examine(listing, file_pattern);
    proof {
        lemma_examined_files(listing, file_pattern@);
    }
    match select_files(&scan) {
        Some(files) => files,
        None => Vec::new(),
    }
}

/// As [`enumerate_folder`], for any pattern: `None` where the directory could be read and
/// `file_pattern` is no regular expression.
pub fn try_enumerate_folder(listing: Option<Vec<Option<DirEntry>>>, file_pattern: &str) -> (res:
    Option<Vec<Address>>)
    ensures
        res is Some <==> (listing is None || regex_compiles(file_pattern@)),
        res matches Some(files) ==> texts(files@) == files_in(listing, file_pattern@),
{
    if listing.is_some() && regex_is_match(file_pattern, "").is_none() {
        None
    } else {
        Some(enumerate_folder(listing, file_pattern))
    }
}

/// Why the files of a folder were not enumerated.
#[derive(Clone, Copy, Debug, PartialEq, Eq, Structural)]
pub enum EnumerateError {
    /// The folder is not watched: the watcher refused it, or the service has been shut down.
    CannotWatch,
    /// The folder could be read, and the file pattern is no regular expression.
    InvalidPattern,
}

/// What enumerating a folder gives: the folder is registered first, and nothing is
/// enumerated where that fails; then the files are picked out of the examined folder.
pub open spec fn enumeration(
    state: WatchState,
    folder: Seq<char>,
    accepted: bool,
    scan: ScanView,
) -> Result<Seq<Seq<char>>, EnumerateError> {
    if state.register_result(folder, accepted) is Err {
        Err(EnumerateError::CannotWatch)
    } else {
        match files_of(scan) {
            Some(files) => Ok(files),
            None => Err(EnumerateError::InvalidPattern),
        }
    }
}

/// What came of an enumeration, as contracts see it.
pub open spec fn enumerated(res: Result<Vec<Address>, EnumerateError>) -> Result<
    Seq<Seq<char>>,
    EnumerateError,
> {
    match res {
        Ok(files) => Ok(texts(files@)),
        Err(error) => Err(error),
    }
}

impl NativeFs {
    /// Enumerates the files of `folder_uri` whose base names match the file pattern, and
    /// registers the folder, so that it is watched from then on.
    ///
    /// The outside work comes first and is handed in: `accepted` tells whether the watcher took
    /// the path that [`watch_needed`](NativeFs::watch_needed) gave, and is not looked at where
    /// no call was needed; `scan` is the folder as it was read and [examined](examine) after
    /// that.
    pub fn enumerate_folder(&mut self, folder_uri: Address, accepted: bool, scan: &Scan) -> (res:
        Result<Vec<Address>, EnumerateError>)
        ensures
            final(self)@ == old(self)@.register(folder_uri@, accepted),
            final(self)@.wf(),
            enumerated(res) == enumeration(old(self)@, folder_uri@, accepted, scan@),
    {
        if self.start_folder_watch(folder_uri, accepted).is_err() {
            return Err(EnumerateError::CannotWatch);
        }
        match select_files(scan) {
            Some(files) => Ok(files),
            None => Err(EnumerateError::InvalidPattern),
        }
    }
}

} // verus!
