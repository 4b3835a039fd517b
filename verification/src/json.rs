//! The JSON text of a string, written and read by `serde_json`.
//!
//! Nothing here is proved: the two functions call `serde_json`, and their
//! contracts state what its source shows of the calls.

use vstd::prelude::*;

verus! {

/// The error of `serde_json`. It is carried from the reader to the function
/// that turns it into an error of the device manager, and never looked into.
#[verifier::external_type_specification]
#[verifier::external_body]
pub struct ExJsonError(serde_json::Error);

/// The JSON text that `serde_json::to_vec` writes for a string.
pub uninterp spec fn json_string_text(text: Seq<char>) -> Seq<u8>;

/// The string that `serde_json::from_slice` reads from a JSON text, where it
/// reads one.
pub uninterp spec fn json_string_value(bytes: Seq<u8>) -> Option<Seq<char>>;

/// Calls `serde_json::to_vec` on a string.
///
/// The call depends on the string alone, so its result has a name. Two more
/// facts are claimed of it. It succeeds: `serde_json` fails to write only
/// where a `Serialize` impl fails or a map has a key that is no string, and
/// a string is written by escaping into a vector. And the text reads back as
/// the string: the writer escapes the quote, the backslash and the control
/// characters, and the reader undoes exactly these escapes.
#[verifier::external_body]
pub(crate) fn write_json_string(text: &str) -> (res: Result<Vec<u8>, serde_json::Error>)
    ensures
        res is Ok,
        res matches Ok(bytes) ==> bytes@ == json_string_text(text@),
        res matches Ok(bytes) ==> json_string_value(bytes@) == Some(text@),
{
    serde_json::to_vec(text)
}

/// Calls `serde_json::from_slice` to read a string.
///
/// The call depends on the bytes alone, so its result has a name: the string
/// where the bytes are the JSON text of one string, nothing where they are
/// not. Nothing is claimed of the error.
#[verifier::external_body]
pub(crate) fn read_json_string(bytes: &[u8]) -> (res: Result<String, serde_json::Error>)
    ensures
        res matches Ok(text) ==> json_string_value(bytes@) == Some(text@),
        res is Err ==> json_string_value(bytes@) is None,
{
    serde_json::from_slice::<String>(bytes)
}

} // verus!
