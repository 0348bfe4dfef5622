use vstd::prelude::*;

verus! {

/// The size of the buffer that a stream is read through (8 KiB). A read
/// that fills less than this much ends a message.
pub const BUFFER: usize = 8 * 1024;

/// What a stream reader does after one read.
#[derive(Debug, Clone, Copy, PartialEq, Eq, Structural)]
pub enum ReadAction {
    /// Read again: the message may go on.
    Continue,
    /// The peer has closed its side: shut the stream down, flush it, and
    /// hand back what was gathered.
    Shutdown,
    /// Hand back what was gathered.
    Finish,
}

/// The next action and the gathered bytes after one read, given the bytes
/// gathered before it and the read's outcome (`None` for a failed read,
/// else the bytes it delivered).
pub open spec fn read_outcome(before: Seq<u8>, chunk: Option<Seq<u8>>) -> (Seq<u8>, ReadAction) {
    match chunk {
        None => (before, ReadAction::Finish),
        Some(c) => if c.len() == 0 {
            (before, ReadAction::Shutdown)
        } else if c.len() < BUFFER {
            (before + c, ReadAction::Finish)
        } else {
            (before + c, ReadAction::Continue)
        },
    }
}

/// One step of gathering a message from a stream: `data` holds the bytes
/// gathered so far, `chunk` the outcome of the latest read (`None` where it
/// failed). Appends what the read delivered and says what to do next.
pub fn read_step(data: &mut Vec<u8>, chunk: Option<&[u8]>) -> (action: ReadAction)
    requires
        chunk matches Some(c) ==> old(data)@.len() + c@.len() <= usize::MAX,
    ensures
        (final(data)@, action) == read_outcome(
            old(data)@,
            match chunk {
                Some(c) => Some(c@),
                None => None,
            },
        ),
{
    match chunk {
        None => ReadAction::Finish,
        Some(c) => {
            if c.len() == 0 {
                ReadAction::Shutdown
            } else {
                data.extend_from_slice(c);
                if c.len() < BUFFER {
                    ReadAction::Finish
                } else {
                    ReadAction::Continue
                }
            }
        },
    }
}

/// Reading never drops or reorders bytes: what was gathered before a read
/// stays, at the front, and is followed by exactly the bytes the read
/// delivered.
pub proof fn lemma_read_keeps_order(before: Seq<u8>, chunk: Option<Seq<u8>>)
    ensures
        read_outcome(before, chunk).0 == before + match chunk {
            Some(c) => c,
            None => Seq::<u8>::empty(),
        },
{
    assert(before + Seq::<u8>::empty() =~= before);
    if let Some(c) = chunk {
        if c.len() == 0 {
            assert(before + c =~= before);
        }
    }
}

/// A message goes on only after a read that filled the whole buffer; a
/// failed, empty or short read ends it.
pub proof fn lemma_continue_only_after_full_read(before: Seq<u8>, chunk: Option<Seq<u8>>)
    ensures
        read_outcome(before, chunk).1 == ReadAction::Continue <==> (chunk matches Some(c) && c.len()
            >= BUFFER),
{
}

/// The bytes that a read delivered: none for a failed read.
pub open spec fn delivered(chunk: Option<Seq<u8>>) -> Seq<u8> {
    match chunk {
        Some(c) => c,
        None => Seq::<u8>::empty(),
    }
}

/// The bytes of the reads, one after the other.
pub open spec fn joined(reads: Seq<Option<Seq<u8>>>) -> Seq<u8>
    decreases reads.len(),
{
    if reads.len() == 0 {
        Seq::<u8>::empty()
    } else {
        delivered(reads[0]) + joined(reads.drop_first())
    }
}

/// A read that filled the whole buffer.
pub open spec fn is_full_read(chunk: Option<Seq<u8>>) -> bool {
    chunk matches Some(c) && c.len() >= BUFFER
}

/// What gathering a message gives when `read_step` meets the outcomes of
/// `reads` in turn, starting from `before`: the gathered bytes and the
/// action at which gathering stops (`Continue` if the reads run out first).
pub open spec fn gather(before: Seq<u8>, reads: Seq<Option<Seq<u8>>>) -> (Seq<u8>, ReadAction)
    decreases reads.len(),
{
    if reads.len() == 0 {
        (before, ReadAction::Continue)
    } else {
        let (after, action) = read_outcome(before, reads[0]);
        if action == ReadAction::Continue {
            gather(after, reads.drop_first())
        } else {
            (after, action)
        }
    }
}

/// A message is the bytes of all its reads, in order, up to and including
/// the first read that did not fill the buffer (a failed, empty or short
/// one); gathering then stops, with a shutdown where that read was empty and
/// a finish otherwise.
pub proof fn lemma_message_is_its_reads(before: Seq<u8>, reads: Seq<Option<Seq<u8>>>, k: int)
    requires
        0 <= k < reads.len(),
        forall|i: int| 0 <= i < k ==> is_full_read(#[trigger] reads[i]),
        !is_full_read(reads[k]),
    ensures
        gather(before, reads).0 == before + joined(reads.take(k + 1)),
        gather(before, reads).1 == (if reads[k] matches Some(c) && c.len() == 0 {
            ReadAction::Shutdown
        } else {
            ReadAction::Finish
        }),
    decreases k,
{
    let first = reads[0];
    let prefix = reads.take(k + 1);
    assert(prefix[0] == first);
    lemma_read_keeps_order(before, first);
    lemma_continue_only_after_full_read(before, first);
    if k == 0 {
        assert(prefix.drop_first() =~= Seq::<Option<Seq<u8>>>::empty());
        assert(joined(prefix.drop_first()) == Seq::<u8>::empty());
        assert(delivered(first) + Seq::<u8>::empty() =~= delivered(first));
    } else {
        let rest = reads.drop_first();
        assert(is_full_read(reads[0]));
        assert forall|i: int| 0 <= i < k - 1 implies is_full_read(#[trigger] rest[i]) by {
            assert(rest[i] == reads[i + 1]);
        }
        assert(rest[k - 1] == reads[k]);
        let after = read_outcome(before, first).0;
        lemma_message_is_its_reads(after, rest, k - 1);
        assert(prefix.drop_first() =~= rest.take(k));
        assert(after == before + delivered(first));
        assert((before + delivered(first)) + joined(rest.take(k)) =~= before + (delivered(first)
            + joined(rest.take(k))));
    }
}

} // verus!
