use vstd::prelude::*;

verus! {

/// The way a chunk travels through the session.
#[derive(Clone, Copy, Debug, PartialEq, Eq, Structural)]
pub enum Direction {
    /// From the external input to the child.
    Input,
    /// From the child to the external output.
    Output,
}

/// One chunk handed to the transform, tagged with the way it travels.
///
/// The slice is the engine's scratch space for the duration of one call; the
/// transform may rewrite it in place.
pub enum Event<'a> {
    /// Bytes read from the external input, on their way to the child.
    Input(&'a mut [u8]),
    /// Bytes read from the child's terminal, on their way to the external output.
    Output(&'a mut [u8]),
}

/// The event that hands `s` to the transform as a chunk travelling in
/// direction `d`.
pub fn event_for<'a>(d: Direction, s: &'a mut [u8]) -> (e: Event<'a>)
    ensures
        (d == Direction::Input) == (e is Input),
        match e {
            Event::Input(b) => b@ == old(s)@,
            Event::Output(b) => b@ == old(s)@,
        },
{
    match d {
        Direction::Input => Event::Input(s),
        Direction::Output => Event::Output(s),
    }
}

/// The caller's hook on every chunk.
///
/// `None` drops the chunk; `Some(bytes)` forwards exactly `bytes`, which may be
/// the chunk itself, rewritten or narrowed, or other memory of the same lifetime.
/// The hook runs on the forwarding thread and must not block.
pub trait EventHandler {
    fn handle<'a>(&mut self, event: Event<'a>) -> Option<&'a [u8]>;
}

/// What one read produced and what the transform made of it.
pub struct ChunkRecord {
    pub direction: Direction,
    /// The bytes as they were read, before the transform saw them.
    pub read: Seq<u8>,
    /// The transform's answer: the bytes to forward, or `None` to drop the chunk.
    pub forwarded: Option<Seq<u8>>,
}

/// The bytes a record contributes to the stream owed to its destination.
pub open spec fn forwarded_part(r: ChunkRecord) -> Seq<u8> {
    match r.forwarded {
        Some(b) => b,
        None => Seq::empty(),
    }
}

/// Everything the transform chose to forward in direction `d`, chunk by chunk,
/// in read order.
pub open spec fn forwarded_bytes(trace: Seq<ChunkRecord>, d: Direction) -> Seq<u8>
    decreases trace.len(),
{
    if trace.len() == 0 {
        Seq::empty()
    } else {
        let last = trace.last();
        forwarded_bytes(trace.drop_last(), d) + if last.direction == d {
            forwarded_part(last)
        } else {
            Seq::empty()
        }
    }
}

/// Everything read in direction `d`, chunk by chunk, in read order.
pub open spec fn read_bytes(trace: Seq<ChunkRecord>, d: Direction) -> Seq<u8>
    decreases trace.len(),
{
    if trace.len() == 0 {
        Seq::empty()
    } else {
        let last = trace.last();
        read_bytes(trace.drop_last(), d) + if last.direction == d {
            last.read
        } else {
            Seq::empty()
        }
    }
}

/// The transform passed every chunk of direction `d` through unchanged.
pub open spec fn passes_through(trace: Seq<ChunkRecord>, d: Direction) -> bool {
    forall|i: int|
        0 <= i < trace.len() && (#[trigger] trace[i]).direction == d ==> trace[i].forwarded
            == Some(trace[i].read)
}

/// The transform dropped every chunk of direction `d`.
pub open spec fn drops_all(trace: Seq<ChunkRecord>, d: Direction) -> bool {
    forall|i: int|
        0 <= i < trace.len() && (#[trigger] trace[i]).direction == d ==> trace[i].forwarded
            is None
}

/// A transform that passes a direction through forwards exactly what was read
/// in that direction.
pub proof fn lemma_pass_through_forwards_what_was_read(trace: Seq<ChunkRecord>, d: Direction)
    requires
        passes_through(trace, d),
    ensures
        forwarded_bytes(trace, d) == read_bytes(trace, d),
    decreases trace.len(),
{
    if trace.len() > 0 {
        let prefix = trace.drop_last();
        assert forall|i: int| 0 <= i < prefix.len() && (#[trigger] prefix[i]).direction == d implies
            prefix[i].forwarded == Some(prefix[i].read) by {
            assert(prefix[i] == trace[i]);
        }
        lemma_pass_through_forwards_what_was_read(prefix, d);
        assert(trace[trace.len() - 1] == trace.last());
    }
}

/// A transform that drops every chunk of a direction forwards nothing in it.
pub proof fn lemma_dropping_forwards_nothing(trace: Seq<ChunkRecord>, d: Direction)
    requires
        drops_all(trace, d),
    ensures
        forwarded_bytes(trace, d) == Seq::<u8>::empty(),
    decreases trace.len(),
{
    if trace.len() > 0 {
        let prefix = trace.drop_last();
        assert forall|i: int| 0 <= i < prefix.len() && (#[trigger] prefix[i]).direction == d implies
            prefix[i].forwarded is None by {
            assert(prefix[i] == trace[i]);
        }
        lemma_dropping_forwards_nothing(prefix, d);
        assert(trace[trace.len() - 1] == trace.last());
        assert(forwarded_bytes(trace, d) =~= Seq::<u8>::empty());
    }
}

/// Appending a record extends the forwarded stream of its direction by the
/// record's forwarded bytes, and leaves the other direction as it was.
pub proof fn lemma_forwarded_push(trace: Seq<ChunkRecord>, r: ChunkRecord, d: Direction)
    ensures
        forwarded_bytes(trace.push(r), d) == forwarded_bytes(trace, d) + if r.direction == d {
            forwarded_part(r)
        } else {
            Seq::empty()
        },
{
    assert(trace.push(r).drop_last() =~= trace);
}

} // verus!
