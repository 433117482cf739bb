//! Draining the read side of a channel into one buffer.
//!
//! The reader is a state machine: the driver pulls from the real handle
//! and hands each item over.

use crate::error::{TransportError, TransportResult};
use vstd::prelude::*;

verus! {

/// The chunks of a channel laid end to end, first chunk first.
pub open spec fn concat_chunks(chunks: Seq<Seq<u8>>) -> Seq<u8>
    decreases chunks.len(),
{
    if chunks.len() == 0 {
        Seq::empty()
    } else {
        concat_chunks(chunks.drop_last()) + chunks.last()
    }
}

/// What draining yields when the chunks arrive split in two runs.
pub proof fn lemma_concat_chunks_split(head: Seq<Seq<u8>>, tail: Seq<Seq<u8>>)
    ensures
        concat_chunks(head + tail) == concat_chunks(head) + concat_chunks(tail),
    decreases tail.len(),
{
    if tail.len() == 0 {
        assert(head + tail == head);
    } else {
        lemma_concat_chunks_split(head, tail.drop_last());
        assert((head + tail).drop_last() == head + tail.drop_last());
        assert((head + tail).last() == tail.last());
    }
}

/// Draining a single chunk yields that chunk, with nothing added.
pub proof fn lemma_concat_chunks_single(chunk: Seq<u8>)
    ensures
        concat_chunks(seq![chunk]) == chunk,
{
    assert(seq![chunk].drop_last() == Seq::<Seq<u8>>::empty());
    assert(concat_chunks(seq![chunk].drop_last()) == Seq::<u8>::empty());
}

/// The sum of the lengths of the chunks.
pub open spec fn total_len(chunks: Seq<Seq<u8>>) -> nat
    decreases chunks.len(),
{
    if chunks.len() == 0 {
        0
    } else {
        total_len(chunks.drop_last()) + chunks.last().len()
    }
}

/// Draining neither drops nor duplicates a byte: the drained length is
/// the sum of the chunk lengths.
pub proof fn lemma_concat_chunks_len(chunks: Seq<Seq<u8>>)
    ensures
        concat_chunks(chunks).len() == total_len(chunks),
    decreases chunks.len(),
{
    if chunks.len() > 0 {
        lemma_concat_chunks_len(chunks.drop_last());
    }
}

/// The read side of a channel being drained: the bytes received so far.
#[derive(Debug)]
pub struct ReadToEnd {
    buf: Vec<u8>,
}

/// What the driver of a drain does next.
#[derive(Debug)]
pub enum ReadStep {
    /// Pull the next chunk and hand it to the reader.
    Pull(ReadToEnd),
    /// The channel is closed: these are its bytes.
    Done(Vec<u8>),
    /// The transport failed: the drain ends with this error, and the bytes
    /// received before it are not given.
    Failed(TransportError),
}

impl View for ReadToEnd {
    type V = Seq<u8>;

    closed spec fn view(&self) -> Seq<u8> {
        self.buf@
    }
}

impl ReadToEnd {
    /// A reader that has received nothing.
    pub fn new() -> (reader: Self)
        ensures
            reader@ == Seq::<u8>::empty(),
    {
        ReadToEnd { buf: Vec::new() }
    }

    /// Appends one chunk, in arrival order.
    pub fn on_chunk(&mut self, chunk: &[u8])
        ensures
            final(self)@ == old(self)@ + chunk@,
    {
        self.buf.extend_from_slice(chunk);
        assert(self.buf@ =~= old(self).buf@ + chunk@);
    }

    /// Ends the drain and gives the bytes received.
    pub fn finish(self) -> (bytes: Vec<u8>)
        ensures
            bytes@ == self@,
    {
        self.buf
    }

    /// Takes what the read handle yielded: a chunk, the end of the
    /// channel, or a failure of the transport.
    pub fn on_item(self, item: TransportResult<Option<Vec<u8>>>) -> (step: ReadStep)
        ensures
            match item {
                Ok(Some(chunk)) => step matches ReadStep::Pull(reader) && reader@ == self@
                    + chunk@,
                Ok(None) => step matches ReadStep::Done(bytes) && bytes@ == self@,
                Err(e) => step == ReadStep::Failed(e),
            },
    {
        let mut reader = self;
        match item {
            Ok(Some(chunk)) => {
                reader.on_chunk(chunk.as_slice());
                ReadStep::Pull(reader)
            },
            Ok(None) => ReadStep::Done(reader.finish()),
            Err(e) => ReadStep::Failed(e),
        }
    }
}

/// What a drain returns for the chunks that arrived and the way the
/// channel ended: all the bytes in order after a close, the error alone
/// after a failure.
pub open spec fn drain_outcome(chunks: Seq<Seq<u8>>, end: TransportResult<()>) -> Result<
    Seq<u8>,
    TransportError,
> {
    match end {
        Ok(_) => Ok(concat_chunks(chunks)),
        Err(e) => Err(e),
    }
}

/// The bytes of a result, as a sequence.
pub open spec fn bytes_view(result: TransportResult<Vec<u8>>) -> Result<Seq<u8>, TransportError> {
    match result {
        Ok(bytes) => Ok(bytes@),
        Err(e) => Err(e),
    }
}

/// Reads a channel to its end into a single byte vector, from the chunks
/// that arrived and the way the channel ended.
pub fn read_to_end(chunks: &Vec<Vec<u8>>, end: TransportResult<()>) -> (result: TransportResult<
    Vec<u8>,
>)
    ensures
        bytes_view(result) == drain_outcome(chunks.deep_view(), end),
{
    let mut reader = ReadToEnd::new();
    let mut i: usize = 0;
    while i < chunks.len()
        invariant
            i <= chunks.len(),
            reader@ == concat_chunks(chunks.deep_view().take(i as int)),
        decreases chunks.len() - i,
    {
        reader.on_chunk(chunks[i].as_slice());
        proof {
            let all = chunks.deep_view();
            assert(all.take(i + 1).drop_last() == all.take(i as int));
            assert(all.take(i + 1).last() == chunks[i as int]@);
        }
        i += 1;
    }
    proof {
        let all = chunks.deep_view();
        assert(all.take(i as int) == all);
    }
    match end {
        Ok(_) => Ok(reader.finish()),
        Err(e) => Err(e),
    }
}

} // verus!
