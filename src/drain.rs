use vstd::prelude::*;

use crate::error::ReadLineError;
use crate::text::{decode_text, decoded, text_of};

verus! {

/// What one read of a source produced.
#[derive(Debug)]
pub enum Chunk<E> {
    /// Some bytes; an empty one is allowed and changes nothing.
    Data(Vec<u8>),
    /// The source has nothing more to give.
    End,
    /// The source failed with this error.
    Failed(E),
}

/// The bytes a read contributes to the text.
pub open spec fn chunk_bytes<E>(c: Chunk<E>) -> Seq<u8> {
    match c {
        Chunk::Data(d) => d@,
        _ => Seq::empty(),
    }
}

/// The bytes of the data reads that come before the first end-of-stream or
/// failure; a sequence of reads that runs out is at its end.
pub open spec fn source_bytes<E>(reads: Seq<Chunk<E>>) -> Seq<u8>
    decreases reads.len(),
{
    if reads.len() > 0 && reads[0] is Data {
        chunk_bytes(reads[0]) + source_bytes(reads.drop_first())
    } else {
        Seq::empty()
    }
}

/// The error of the source, when it fails before it reaches its end.
pub open spec fn source_failure<E>(reads: Seq<Chunk<E>>) -> Option<E>
    decreases reads.len(),
{
    if reads.len() == 0 {
        None
    } else {
        match reads[0] {
            Chunk::Data(_) => source_failure(reads.drop_first()),
            Chunk::End => None,
            Chunk::Failed(e) => Some(e),
        }
    }
}

/// How many reads draining the source takes: the data reads up to and
/// including the first end-of-stream or failure, or all of them.
pub open spec fn reads_taken<E>(reads: Seq<Chunk<E>>) -> nat
    decreases reads.len(),
{
    if reads.len() == 0 {
        0
    } else if reads[0] is Data {
        1 + reads_taken(reads.drop_first())
    } else {
        1
    }
}

/// What draining the source yields: its own error if it fails, else its
/// bytes read as text.
pub open spec fn read_outcome<E>(reads: Seq<Chunk<E>>) -> Result<Seq<char>, ReadLineError<E>> {
    match source_failure(reads) {
        Some(e) => Err(ReadLineError::Source(e)),
        None => decoded(source_bytes(reads)),
    }
}

/// The bytes received so far from a source that is being read to its end.
#[derive(Debug)]
pub struct TextDrain {
    bytes: Vec<u8>,
}

impl View for TextDrain {
    type V = Seq<u8>;

    closed spec fn view(&self) -> Seq<u8> {
        self.bytes@
    }
}

/// Where a drain stands after one more read.
#[derive(Debug)]
pub enum Step<E> {
    /// More reads are needed; the drain now holds every byte received.
    Pending(TextDrain),
    /// The source is done with: this is the result to hand back.
    Done(Result<String, ReadLineError<E>>),
}

impl TextDrain {
    /// A drain that has received nothing yet.
    pub fn new() -> (d: TextDrain)
        ensures
            d@ == Seq::<u8>::empty(),
    {
        TextDrain { bytes: Vec::new() }
    }

    /// How many bytes have been received so far.
    pub fn received(&self) -> (n: usize)
        ensures
            n == self@.len(),
    {
        self.bytes.len()
    }

    /// Ends the drain at end-of-stream: everything received, read as text.
    pub fn finish<E>(self) -> (r: Result<String, ReadLineError<E>>)
        ensures
            text_of(r) == decoded::<E>(self@),
    {
        decode_text(self.bytes)
    }

    /// Takes in one read. Bytes are kept and more reads asked for; at
    /// end-of-stream everything received is decoded; a failure of the
    /// source ends the drain with that error, and the bytes are dropped.
    pub fn step<E>(self, chunk: Chunk<E>) -> (r: Step<E>)
        ensures
            match chunk {
                Chunk::Data(d) => r is Pending && r->Pending_0@ == self@ + d@,
                Chunk::End => r is Done && text_of(r->Done_0) == decoded::<E>(self@),
                Chunk::Failed(e) => r is Done && r->Done_0 == Err::<String, ReadLineError<E>>(
                    ReadLineError::Source(e),
                ),
            },
    {
        let mut bytes = self.bytes;
        match chunk {
            Chunk::Data(mut d) => {
                bytes.append(&mut d);
                Step::Pending(TextDrain { bytes })
            },
            Chunk::End => Step::Done(TextDrain { bytes }.finish()),
            Chunk::Failed(e) => Step::Done(Err(ReadLineError::Source(e))),
        }
    }
}

/// Reads `source` from its front until end-of-stream or a failure, and
/// returns the text it held. The reads after the one that ended the drain
/// stay in `source`.
pub fn drain_chunks<E>(source: &mut Vec<Chunk<E>>) -> (r: Result<String, ReadLineError<E>>)
    ensures
        text_of(r) == read_outcome(old(source)@),
        final(source)@ == old(source)@.skip(reads_taken(old(source)@) as int),
{
    let ghost start = source@;
    let ghost mut taken: int = 0;
    let mut drain = TextDrain::new();
    loop
        invariant
            start == old(source)@,
            0 <= taken <= start.len(),
            source@ == start.skip(taken),
            source_bytes(start) == drain@ + source_bytes(source@),
            source_failure(start) == source_failure(source@),
            reads_taken(start) == taken + reads_taken(source@),
        decreases source@.len(),
    {
        if source.len() == 0 {
            assert(drain@ + source_bytes(source@) =~= drain@);
            return drain.finish();
        }
        let ghost rest = source@;
        let chunk = source.remove(0);
        assert(source@ =~= start.skip(taken + 1));
        assert(rest.drop_first() =~= source@);
        proof {
            if chunk is Data {
                assert(drain@ + (chunk_bytes(chunk) + source_bytes(source@)) =~= (drain@
                    + chunk_bytes(chunk)) + source_bytes(source@));
            } else {
                assert(drain@ + source_bytes(rest) =~= drain@);
            }
            taken = taken + 1;
        }
        match drain.step(chunk) {
            Step::Pending(next) => {
                drain = next;
            },
            Step::Done(r) => {
                return r;
            },
        }
    }
}

} // verus!
