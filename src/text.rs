use vstd::prelude::*;
use vstd::utf8::{decode_utf8, valid_utf8};

use crate::error::ReadLineError;

verus! {

/// Relies on `String::from_utf8`: it accepts the bytes exactly when they are
/// valid UTF-8, and the string it then returns holds the characters those
/// bytes encode, with nothing replaced.
#[verifier::external_body]
fn string_from_utf8(bytes: Vec<u8>) -> (r: Option<String>)
    ensures
        r is Some <==> valid_utf8(bytes@),
        r is Some ==> r->Some_0@ == decode_utf8(bytes@),
{
    String::from_utf8(bytes).ok()
}

/// What reading `bytes` as text yields: the characters they encode, or an
/// encoding failure when they are not valid UTF-8.
pub open spec fn decoded<E>(bytes: Seq<u8>) -> Result<Seq<char>, ReadLineError<E>> {
    if valid_utf8(bytes) {
        Ok(decode_utf8(bytes))
    } else {
        Err(ReadLineError::Encoding)
    }
}

/// A result seen through the characters of its string.
pub open spec fn text_of<E>(r: Result<String, ReadLineError<E>>) -> Result<
    Seq<char>,
    ReadLineError<E>,
> {
    match r {
        Ok(s) => Ok(s@),
        Err(e) => Err(e),
    }
}

/// Turns the complete contents of a source into text.
pub fn decode_text<E>(bytes: Vec<u8>) -> (r: Result<String, ReadLineError<E>>)
    ensures
        text_of(r) == decoded::<E>(bytes@),
{
    match string_from_utf8(bytes) {
        Some(s) => Ok(s),
        None => Err(ReadLineError::Encoding),
    }
}

} // verus!
