//! Lenient decoding of the C string arguments the ABI hands a shim: a null
//! pointer is a valid "no value", distinct from an empty string, and bytes
//! that are not valid UTF-8 surface as a typed error, never as a crash.

use vstd::prelude::*;

use vstd::utf8::decode_utf8;
use vstd::utf8::valid_utf8;

use crate::error::AdbcError;
use crate::error::AdbcStatusCode;

verus! {

/// The adapter's typed error for a C string argument whose bytes are not
/// valid UTF-8. Declares `InvalidArguments` and the SQL state for a character
/// outside the supported repertoire.
pub struct Utf8EncodingError;

impl AdbcError for Utf8EncodingError {
    open spec fn message_spec(&self) -> Seq<char> {
        "Invalid UTF-8 in a string argument."@
    }

    open spec fn sqlstate_spec(&self) -> Seq<i8> {
        seq![2i8, 2i8, 0i8, 2i8, 1i8]
    }

    open spec fn status_code_spec(&self) -> AdbcStatusCode {
        AdbcStatusCode::InvalidArguments
    }

    fn message(&self) -> (r: String) {
        "Invalid UTF-8 in a string argument.".to_owned()
    }

    fn sqlstate(&self) -> (r: [i8; 5]) {
        [2, 2, 0, 2, 1]
    }

    fn status_code(&self) -> (r: AdbcStatusCode) {
        AdbcStatusCode::InvalidArguments
    }
}

/// Relies on str::from_utf8 (with str::to_owned copying the result out):
/// succeeds on exactly the byte sequences that are valid UTF-8, and decodes
/// them.
#[verifier::external_body]
fn utf8_to_string(bytes: &Vec<u8>) -> (r: Option<String>)
    ensures
        r is Some <==> valid_utf8(bytes@),
        r matches Some(s) ==> s@ == decode_utf8(bytes@),
{
    std::str::from_utf8(bytes).ok().map(|s| s.to_owned())
}

/// Decodes an optional C string argument, given as the bytes the pointer
/// addresses (up to its terminator) or as nothing for a null pointer.
pub fn get_maybe_str(input: Option<Vec<u8>>) -> (r: Result<Option<String>, Utf8EncodingError>)
    ensures
        input is None ==> (r matches Ok(v) && v is None),
        input matches Some(b) ==> {
            &&& valid_utf8(b@) ==> (r matches Ok(v) && v matches Some(s) && s@ == decode_utf8(b@))
            &&& !valid_utf8(b@) ==> r is Err
        },
{
    match input {
        None => Ok(None),
        Some(bytes) => match utf8_to_string(&bytes) {
            Some(s) => Ok(Some(s)),
            None => Err(Utf8EncodingError),
        },
    }
}

/// Whether every entry of a list of C strings is valid UTF-8.
pub open spec fn all_valid_utf8(list: Seq<Vec<u8>>) -> bool {
    forall|i: int| 0 <= i < list.len() ==> valid_utf8(#[trigger] list[i]@)
}

/// Decodes the ABI's null-terminated array of C strings, given as the list of
/// entries before the terminator, or as nothing for a null array pointer. A
/// null array decodes to the empty list, the "unfiltered" value.
pub fn decode_str_list(input: Option<Vec<Vec<u8>>>) -> (r: Result<Vec<String>, Utf8EncodingError>)
    ensures
        input is None ==> (r matches Ok(v) && v@.len() == 0),
        input matches Some(list) ==> {
            &&& all_valid_utf8(list@) ==> (r matches Ok(v) && v@.len() == list@.len() && (forall|
                i: int,
            |
                0 <= i < list@.len() ==> #[trigger] v@[i]@ == decode_utf8(list@[i]@)))
            &&& !all_valid_utf8(list@) ==> r is Err
        },
{
    match input {
        None => Ok(Vec::new()),
        Some(list) => {
            let mut out: Vec<String> = Vec::new();
            let mut i: usize = 0;
            while i < list.len()
                invariant
                    input == Some(list),
                    i <= list@.len(),
                    out@.len() == i,
                    forall|j: int|
                        0 <= j < i ==> valid_utf8(#[trigger] list@[j]@) && out@[j]@ == decode_utf8(
                            list@[j]@,
                        ),
                decreases list@.len() - i,
            {
                match utf8_to_string(&list[i]) {
                    Some(s) => out.push(s),
                    None => {
                        return Err(Utf8EncodingError);
                    },
                }
                i = i + 1;
            }
            Ok(out)
        },
    }
}

} // verus!
