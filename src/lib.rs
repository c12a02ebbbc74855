//! Reading everything a byte source still holds into a fresh `String`.
//!
//! The source is driven from outside: each read hands the library a
//! [`Chunk`](drain::Chunk) (some bytes, end-of-stream, or the source's own
//! error), and a [`TextDrain`](drain::TextDrain) decides after each one
//! whether to go on or what to return. Text is returned only when the whole
//! source has been read and its bytes are valid UTF-8; a failure never
//! carries a partly filled buffer.

pub mod drain;
pub mod error;
pub mod laws;
pub mod text;

pub use drain::{drain_chunks, Chunk, Step, TextDrain};
pub use error::ReadLineError;
pub use text::decode_text;
