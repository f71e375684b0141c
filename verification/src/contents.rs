use vstd::prelude::*;
use vstd::utf8::{decode_utf8, valid_utf8};

verus! {

/// Calls `String::from_utf8`. The contract says what the documentation of the standard library
/// says: the bytes become a string exactly when they are valid UTF-8, and the string then holds
/// the characters that the bytes encode.
#[verifier::external_body]
fn string_from_utf8(bytes: Vec<u8>) -> (res: Option<String>)
    ensures
        res is Some <==> valid_utf8(bytes@),
        res matches Some(text) ==> text@ == decode_utf8(bytes@),
{
    String::from_utf8(bytes).ok()
}

/// The text of a file, given what reading it gave: absent where the file could not be read, and
/// where what was read is not text.
pub open spec fn contents_of(read: Option<Seq<u8>>) -> Option<Seq<char>> {
    match read {
        Some(bytes) => if valid_utf8(bytes) {
            Some(decode_utf8(bytes))
        } else {
            None
        },
        None => None,
    }
}

/// What was read of a file, as a sequence of bytes.
pub open spec fn bytes_read(read: Option<Vec<u8>>) -> Option<Seq<u8>> {
    match read {
        Some(bytes) => Some(bytes@),
        None => None,
    }
}

/// Turns the outcome of reading a whole file into its text. `read` is `None` where the read
/// failed, for whatever reason; the result is then absent, as it is for bytes that are not valid
/// UTF-8.
pub fn file_contents(read: Option<Vec<u8>>) -> (res: Option<String>)
    ensures
        res is Some <==> contents_of(bytes_read(read)) is Some,
        res matches Some(text) ==> contents_of(bytes_read(read)) == Some(text@),
{
    match read {
        Some(data) => string_from_utf8(data),
        None => None,
    }
}

} // verus!
