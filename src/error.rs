use vstd::prelude::*;

verus! {

/// Why reading a source as text failed.
#[derive(Debug, PartialEq, Eq)]
pub enum ReadLineError<E> {
    /// The source itself failed; its error is passed on unchanged.
    Source(E),
    /// The source ended normally, but its bytes are not valid UTF-8.
    Encoding,
}

} // verus!
