//! Splitting of a byte stream into lines. The stream arrives in chunks of
//! any size; every byte of it ends up in exactly one line, and what is left
//! when the stream ends is handed out as a last line without terminator.

use vstd::prelude::*;

verus! {

/// The byte that ends a line.
pub const LINE_FEED: u8 = 0x0A;

/// Whether some bytes hold no line terminator.
pub open spec fn unterminated(bytes: Seq<u8>) -> bool {
    forall|i: int| 0 <= i < bytes.len() ==> #[trigger] bytes[i] != LINE_FEED
}

/// Whether some bytes are one whole line: they end with the terminator and
/// hold no other.
pub open spec fn is_line(bytes: Seq<u8>) -> bool {
    bytes.len() > 0 && bytes.last() == LINE_FEED && unterminated(bytes.drop_last())
}

/// The bytes of a sequence of lines, one after the other.
pub open spec fn joined(lines: Seq<Seq<u8>>) -> Seq<u8>
    decreases lines.len(),
{
    if lines.len() == 0 {
        Seq::empty()
    } else {
        joined(lines.drop_last()) + lines.last()
    }
}

/// The contents of a list of byte strings.
pub open spec fn contents_of(lines: Seq<Vec<u8>>) -> Seq<Seq<u8>> {
    Seq::new(lines.len(), |i: int| lines[i]@)
}

/// The whole lines in some bytes, and the bytes after the last of them.
pub open spec fn split_chunk(bytes: Seq<u8>) -> (Seq<Seq<u8>>, Seq<u8>)
    decreases bytes.len(),
{
    if bytes.len() == 0 {
        (Seq::empty(), Seq::empty())
    } else {
        let (lines, rest) = split_chunk(bytes.drop_last());
        if bytes.last() == LINE_FEED {
            (lines.push(rest.push(LINE_FEED)), Seq::empty())
        } else {
            (lines, rest.push(bytes.last()))
        }
    }
}

/// The lines that a stream is split into when it arrives in the given
/// chunks, and the bytes that are pending when the last chunk is in. The
/// stream starts with `pending` already read.
pub open spec fn split_stream(pending: Seq<u8>, chunks: Seq<Seq<u8>>) -> (Seq<Seq<u8>>, Seq<u8>)
    decreases chunks.len(),
{
    if chunks.len() == 0 {
        (Seq::empty(), pending)
    } else {
        let (lines, rest) = split_stream(pending, chunks.drop_last());
        let (more, left) = split_chunk(rest + chunks.last());
        (lines + more, left)
    }
}

/// The splitter of one stream. It holds the bytes that were read after the
/// last line terminator.
pub struct LineSplitter {
    pending: Vec<u8>,
}

impl LineSplitter {
    #[verifier::type_invariant]
    spec fn terminator_free(self) -> bool {
        unterminated(self.pending@)
    }

    /// The bytes of the line that is not finished yet.
    pub closed spec fn pending(self) -> Seq<u8> {
        self.pending@
    }

    /// A splitter at the start of a stream.
    pub fn new() -> (splitter: LineSplitter)
        ensures
            splitter.pending() == Seq::<u8>::empty(),
    {
        LineSplitter { pending: Vec::new() }
    }

    /// Takes in the next chunk of the stream and hands out the lines that
    /// it completes, terminators included. No byte is lost: the lines and
    /// what stays pending are, together, what was pending before and the
    /// chunk.
    pub fn push(&mut self, chunk: &[u8]) -> (lines: Vec<Vec<u8>>)
        ensures
            (contents_of(lines@), final(self).pending()) == split_chunk(
                old(self).pending() + chunk@,
            ),
            joined(contents_of(lines@)) + final(self).pending() == old(self).pending() + chunk@,
            forall|i: int| 0 <= i < lines@.len() ==> is_line(#[trigger] lines@[i]@),
            unterminated(final(self).pending()),
    {
        proof {
            use_type_invariant(&*self);
            lemma_unterminated_stays_pending(self.pending@);
        }
        let mut lines: Vec<Vec<u8>> = Vec::new();
        let mut current: Vec<u8> = Vec::new();
        std::mem::swap(&mut current, &mut self.pending);
        assert(contents_of(lines@) =~= Seq::<Seq<u8>>::empty());
        assert(old(self).pending() + chunk@.take(0) =~= old(self).pending());
        let mut i: usize = 0;
        while i < chunk.len()
            invariant
                i <= chunk@.len(),
                self.pending@ == Seq::<u8>::empty(),
                split_chunk(old(self).pending() + chunk@.take(i as int)) == (
                    contents_of(lines@),
                    current@,
                ),
            decreases chunk@.len() - i,
        {
            let byte = chunk[i];
            let ghost earlier = contents_of(lines@);
            let ghost data = old(self).pending() + chunk@.take(i as int);
            proof {
                let next = old(self).pending() + chunk@.take(i + 1);
                assert(next.drop_last() =~= data);
                assert(next.last() == byte);
            }
            current.push(byte);
            if byte == LINE_FEED {
                let ghost line = current@;
                let mut done: Vec<u8> = Vec::new();
                std::mem::swap(&mut done, &mut current);
                lines.push(done);
                assert(contents_of(lines@) =~= earlier.push(line));
            }
            i = i + 1;
        }
        assert(chunk@.take(i as int) =~= chunk@);
        proof {
            lemma_split_chunk(old(self).pending() + chunk@);
            assert forall|k: int| 0 <= k < lines@.len() implies is_line(#[trigger] lines@[k]@) by {
                assert(contents_of(lines@)[k] == lines@[k]@);
            }
        }
        self.pending = current;
        lines
    }

    /// Ends the stream. A last line that the stream left without a
    /// terminator is handed out, so that it is not dropped; where nothing is
    /// pending there is no such line.
    pub fn finish(&mut self) -> (last: Option<Vec<u8>>)
        ensures
            final(self).pending() == Seq::<u8>::empty(),
            old(self).pending().len() == 0 ==> last is None,
            old(self).pending().len() > 0 ==> last is Some && last->0@ == old(self).pending(),
    {
        let mut rest: Vec<u8> = Vec::new();
        std::mem::swap(&mut rest, &mut self.pending);
        if rest.len() == 0 {
            None
        } else {
            Some(rest)
        }
    }
}

/// Bytes without a terminator hold no whole line: all of them stay pending.
pub proof fn lemma_unterminated_stays_pending(bytes: Seq<u8>)
    requires
        unterminated(bytes),
    ensures
        split_chunk(bytes) == (Seq::<Seq<u8>>::empty(), bytes),
    decreases bytes.len(),
{
    if bytes.len() == 0 {
        assert(bytes =~= Seq::<u8>::empty());
    } else {
        lemma_unterminated_stays_pending(bytes.drop_last());
        assert(bytes.drop_last().push(bytes.last()) =~= bytes);
    }
}

/// The bytes of two sequences of lines, one after the other, are the bytes
/// of the first and then the bytes of the second.
pub proof fn lemma_joined_concat(first: Seq<Seq<u8>>, second: Seq<Seq<u8>>)
    ensures
        joined(first + second) == joined(first) + joined(second),
    decreases second.len(),
{
    if second.len() == 0 {
        assert(first + second =~= first);
        assert(joined(first) + joined(second) =~= joined(first));
    } else {
        assert((first + second).drop_last() =~= first + second.drop_last());
        assert((first + second).last() == second.last());
        lemma_joined_concat(first, second.drop_last());
        assert(joined(first + second) =~= joined(first) + joined(second));
    }
}

/// Splitting some bytes loses none of them, hands out whole lines only,
/// and leaves no terminator pending.
pub proof fn lemma_split_chunk(bytes: Seq<u8>)
    ensures
        joined(split_chunk(bytes).0) + split_chunk(bytes).1 == bytes,
        unterminated(split_chunk(bytes).1),
        forall|i: int|
            0 <= i < split_chunk(bytes).0.len() ==> is_line(#[trigger] split_chunk(bytes).0[i]),
    decreases bytes.len(),
{
    if bytes.len() == 0 {
        assert(joined(split_chunk(bytes).0) + split_chunk(bytes).1 =~= bytes);
    } else {
        let (lines, rest) = split_chunk(bytes.drop_last());
        lemma_split_chunk(bytes.drop_last());
        if bytes.last() == LINE_FEED {
            let line = rest.push(LINE_FEED);
            assert(line.drop_last() =~= rest);
            assert(lines.push(line).drop_last() =~= lines);
            assert(joined(lines.push(line)) + Seq::<u8>::empty() =~= bytes) by {
                assert(joined(lines) + rest =~= bytes.drop_last());
                assert(bytes =~= bytes.drop_last().push(LINE_FEED));
            }
        } else {
            assert(joined(lines) + rest.push(bytes.last()) =~= bytes) by {
                assert(joined(lines) + rest =~= bytes.drop_last());
                assert(bytes =~= bytes.drop_last().push(bytes.last()));
            }
        }
    }
}

/// Line splitting never drops a byte, however the stream is cut into
/// chunks: the lines handed out, followed by what is pending at the end,
/// are the stream. What is pending at the end is what a last line without
/// terminator consists of.
pub proof fn law_stream_is_kept_whole(pending: Seq<u8>, chunks: Seq<Seq<u8>>)
    ensures
        joined(split_stream(pending, chunks).0) + split_stream(pending, chunks).1 == pending
            + joined(chunks),
        forall|i: int|
            0 <= i < split_stream(pending, chunks).0.len() ==> is_line(
                #[trigger] split_stream(pending, chunks).0[i],
            ),
    decreases chunks.len(),
{
    if chunks.len() == 0 {
        assert(joined(split_stream(pending, chunks).0) + split_stream(pending, chunks).1
            =~= pending + joined(chunks));
    } else {
        let (lines, rest) = split_stream(pending, chunks.drop_last());
        let (more, left) = split_chunk(rest + chunks.last());
        law_stream_is_kept_whole(pending, chunks.drop_last());
        lemma_split_chunk(rest + chunks.last());
        lemma_joined_concat(lines, more);
        assert(joined(lines + more) + left =~= pending + joined(chunks)) by {
            assert(joined(lines) + rest == pending + joined(chunks.drop_last()));
            assert(joined(more) + left == rest + chunks.last());
            assert(joined(lines + more) + left =~= joined(lines) + (joined(more) + left));
            assert(joined(lines) + (rest + chunks.last()) =~= (joined(lines) + rest)
                + chunks.last());
        }
    }
}

} // verus!
