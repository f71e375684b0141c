use std::path::PathBuf;
use url::Url;
use vstd::prelude::*;

verus! {

/// A path of the file system, as the standard library holds it. Contracts see nothing inside
/// it: a path is carried from where it was found to where it is used.
#[verifier::external_type_specification]
#[verifier::external_body]
pub struct ExPathBuf(PathBuf);

/// The serialization of the URL that `Url::parse` reads out of `input`, or `None` where it
/// refuses the text.
pub uninterp spec fn url_parse(input: Seq<char>) -> Option<Seq<char>>;

/// The path component, as `Url::path` returns it, of the URL whose serialization is
/// `serialization`. The serialization stands for the URL: a `Url` is equal to, ordered and hashed
/// like its serialization, and its components are parts of it.
pub uninterp spec fn url_path(serialization: Seq<char>) -> Seq<char>;

/// Calls `Url::parse` on `input` and reads the parsed value out through `Url::as_str` and
/// `Url::path`. Nothing is proved here: the contract only gives names to the serialization and
/// to the path that the `url` crate computed, and says that parsing failed exactly when no
/// serialization exists.
#[verifier::external_body]
fn parse_url(input: &str) -> (res: Option<(String, String)>)
    ensures
        res is Some <==> url_parse(input@) is Some,
        res matches Some(parts) ==> url_parse(input@) == Some(parts.0@) && parts.1@ == url_path(
            parts.0@,
        ),
{
    match Url::parse(input) {
        Ok(url) => Some((url.as_str().to_string(), url.path().to_string())),
        Err(_) => None,
    }
}

/// Whether a text begins like the serialization of a URL of the `file` scheme.
pub open spec fn is_file_url(text: Seq<char>) -> bool {
    text.len() >= 7 && text.subrange(0, 7) == "file://"@
}

/// The serialization of the URL that `Url::from_file_path` gives for `path`, or `None` where
/// it gives none: the path has to be absolute, as the platform that the library is built for
/// understands it.
pub uninterp spec fn file_address(path: PathBuf) -> Option<Seq<char>>;

/// The address that each path of a list has or lacks, in its place.
pub open spec fn file_addresses_of(paths: Seq<PathBuf>) -> Seq<Option<Seq<char>>> {
    paths.map_values(|path: PathBuf| file_address(path))
}

/// Calls `Url::from_file_path` on `path` and reads the URL out through `Url::as_str` and
/// `Url::path`. Nothing is proved here: the contract gives the serialization a name, says that
/// there is none exactly where the call failed, and says of a URL that came back what the
/// source shows of it: its serialization begins with `file://`, and the second text is its
/// path.
#[verifier::external_body]
fn file_url(path: &PathBuf) -> (res: Option<(String, String)>)
    ensures
        res is Some <==> file_address(*path) is Some,
        res matches Some(parts) ==> file_address(*path) == Some(parts.0@) && is_file_url(parts.0@)
            && parts.1@ == url_path(parts.0@),
{
    match Url::from_file_path(path) {
        Ok(url) => Some((url.as_str().to_string(), url.path().to_string())),
        Err(_) => None,
    }
}

/// A scheme-qualified absolute address of a file or a directory.
///
/// Two addresses are the same address when their texts are equal; the path is a function of
/// the text.
pub struct Address {
    text: String,
    path: String,
}

impl View for Address {
    type V = Seq<char>;

    closed spec fn view(&self) -> Seq<char> {
        self.text@
    }
}

impl Address {
    #[verifier::type_invariant]
    spec fn path_belongs_to_text(self) -> bool {
        self.path@ == url_path(self.text@)
    }

    /// Reads an address out of `input`; `None` where `input` is not an absolute URL.
    pub fn parse(input: &str) -> (res: Option<Address>)
        ensures
            reading(res) == url_parse(input@),
    {
        match parse_url(input) {
            Some((text, path)) => Some(Address { text, path }),
            None => None,
        }
    }

    /// The address of a path of the file system, in the `file` scheme; `None` where the path
    /// has none, as a path that is not absolute.
    pub fn from_file_path(path: &PathBuf) -> (res: Option<Address>)
        ensures
            reading(res) == file_address(*path),
            res matches Some(address) ==> is_file_url(address@),
    {
        match file_url(path) {
            Some((text, path)) => Some(Address { text, path }),
            None => None,
        }
    }

    /// The address of every path of a list, each in its place.
    pub fn from_file_paths(paths: &Vec<PathBuf>) -> (res: Vec<Option<Address>>)
        ensures
            readings(res@) == file_addresses_of(paths@),
    {
        let mut output: Vec<Option<Address>> = Vec::new();
        let mut i: usize = 0;
        while i < paths.len()
            invariant
                i <= paths.len(),
                readings(output@) == file_addresses_of(paths@.take(i as int)),
            decreases paths.len() - i,
        {
            let address = Address::from_file_path(&paths[i]);
            proof {
                assert(paths@.take(i + 1) == paths@.take(i as int).push(paths@[i as int]));
                assert(file_addresses_of(paths@.take(i as int).push(paths@[i as int]))
                    == file_addresses_of(paths@.take(i as int)).push(file_address(paths@[i as int])));
            }
            output.push(address);
            i += 1;
        }
        output
    }

    /// The whole address as text.
    pub fn as_str(&self) -> (text: &str)
        ensures
            text@ == self@,
    {
        self.text.as_str()
    }

    /// The path component of the address.
    pub fn path(&self) -> (path: &str)
        ensures
            path@ == url_path(self@),
    {
        proof {
            use_type_invariant(self);
        }
        self.path.as_str()
    }

    /// Whether `self` and `other` are the same address.
    pub fn same_as(&self, other: &Address) -> (res: bool)
        ensures
            res == (self@ == other@),
    {
        self.text == other.text
    }
}

/// An address that may be lacking, as contracts see it: the text of the address, or nothing.
pub open spec fn reading(address: Option<Address>) -> Option<Seq<char>> {
    match address {
        Some(address) => Some(address@),
        None => None,
    }
}

/// A list of addresses that may be lacking, as contracts see it.
pub open spec fn readings(addresses: Seq<Option<Address>>) -> Seq<Option<Seq<char>>> {
    addresses.map_values(|address: Option<Address>| reading(address))
}

/// The texts of a list of addresses, in its order.
pub open spec fn texts(addresses: Seq<Address>) -> Seq<Seq<char>> {
    addresses.map_values(|address: Address| address@)
}

impl Clone for Address {
    fn clone(&self) -> (res: Address)
        ensures
            res@ == self@,
    {
        proof {
            use_type_invariant(self);
        }
        Address { text: self.text.clone(), path: self.path.clone() }
    }
}

} // verus!
