use vstd::prelude::*;
use vstd::utf8::{decode_utf8, valid_utf8};

use crate::drain::{read_outcome, reads_taken, source_bytes, source_failure, Chunk};
use crate::error::ReadLineError;

verus! {

/// A source that gives `n` data reads and then reaches its end is read in
/// exactly those `n + 1` reads, and on valid UTF-8 its text is exactly the
/// decoding of all its bytes.
pub proof fn law_valid_text_is_read_whole<E>(reads: Seq<Chunk<E>>, n: int)
    requires
        0 <= n < reads.len(),
        forall|i: int| 0 <= i < n ==> #[trigger] reads[i] is Data,
        reads[n] is End,
        valid_utf8(source_bytes(reads)),
    ensures
        read_outcome(reads) == Ok::<Seq<char>, ReadLineError<E>>(decode_utf8(source_bytes(reads))),
        reads_taken(reads) == n + 1,
{
    lemma_ends_normally(reads, n);
}

/// A source that is at its end from the start reads as empty text, after
/// at most one read.
pub proof fn law_immediate_end_is_empty<E>(reads: Seq<Chunk<E>>)
    requires
        reads.len() == 0 || reads[0] is End,
    ensures
        read_outcome(reads) == Ok::<Seq<char>, ReadLineError<E>>(Seq::empty()),
        reads_taken(reads) <= 1,
{
    assert(valid_utf8(Seq::<u8>::empty()));
}

/// A source that reaches its end with bytes that are not valid UTF-8 gives
/// an encoding failure, never text.
pub proof fn law_invalid_text_fails<E>(reads: Seq<Chunk<E>>)
    requires
        source_failure(reads) is None,
        !valid_utf8(source_bytes(reads)),
    ensures
        read_outcome(reads) == Err::<Seq<char>, ReadLineError<E>>(ReadLineError::Encoding),
{
}

/// A source that fails after `n` data reads gives that failure, whatever
/// bytes came before it, and is read no further.
pub proof fn law_failure_is_passed_on<E>(reads: Seq<Chunk<E>>, n: int)
    requires
        0 <= n < reads.len(),
        forall|i: int| 0 <= i < n ==> #[trigger] reads[i] is Data,
        reads[n] is Failed,
    ensures
        read_outcome(reads) == Err::<Seq<char>, ReadLineError<E>>(
            ReadLineError::Source(reads[n]->Failed_0),
        ),
        reads_taken(reads) == n + 1,
    decreases n,
{
    if n > 0 {
        law_failure_is_passed_on(reads.drop_first(), n - 1);
    }
}

/// Two sources that end normally with the same bytes read as the same text,
/// however their bytes were split into reads.
pub proof fn law_same_bytes_same_text<E>(a: Seq<Chunk<E>>, b: Seq<Chunk<E>>)
    requires
        source_failure(a) is None,
        source_failure(b) is None,
        source_bytes(a) == source_bytes(b),
    ensures
        read_outcome(a) == read_outcome(b),
{
}

/// `n` data reads followed by end-of-stream: no failure, `n + 1` reads.
proof fn lemma_ends_normally<E>(reads: Seq<Chunk<E>>, n: int)
    requires
        0 <= n < reads.len(),
        forall|i: int| 0 <= i < n ==> #[trigger] reads[i] is Data,
        reads[n] is End,
    ensures
        source_failure(reads) is None,
        reads_taken(reads) == n + 1,
    decreases n,
{
    if n > 0 {
        assert forall|i: int| 0 <= i < n - 1 implies #[trigger] reads.drop_first()[i] is Data by {
            assert(reads[i + 1] is Data);
        }
        lemma_ends_normally(reads.drop_first(), n - 1);
    }
}

} // verus!
