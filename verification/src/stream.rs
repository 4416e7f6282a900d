use vstd::prelude::*;

verus! {

/// Most consecutive empty observations a reader tolerates before it treats
/// the stream as complete: a defence against a peer that stopped sending but
/// never closed the socket.
pub const EMPTY_LIMIT: u64 = 5;

/// Whether a byte sequence is valid UTF-8 text; the (unstated) condition
/// under which `core::str::from_utf8` succeeds.
pub uninterp spec fn is_utf8(bytes: Seq<u8>) -> bool;

/// Relies on core::str::from_utf8: whether it succeeds depends on the bytes
/// alone.
#[verifier::external_body]
fn utf8_ok(bytes: &Vec<u8>) -> (r: bool)
    ensures
        r == is_utf8(bytes@),
{
    core::str::from_utf8(bytes.as_slice()).is_ok()
}

/// One outcome of a transport read on an inbound connection.
pub enum ReadEvent {
    /// The read returned these bytes (possibly none) and the connection
    /// stayed open.
    Data(Vec<u8>),
    /// The read returned zero bytes because the peer closed the connection.
    Closed,
    /// The read itself failed.
    Failed,
}

/// The bytes a read carried; none unless it returned data.
pub open spec fn event_bytes(ev: ReadEvent) -> Seq<u8> {
    match ev {
        ReadEvent::Data(b) => b@,
        ReadEvent::Closed => Seq::empty(),
        ReadEvent::Failed => Seq::empty(),
    }
}

/// An empty observation: a read whose bytes decode to empty text or do not
/// decode at all. A failed read carries no text and counts the same way; the
/// peer's close is not an observation but an immediate completion signal.
pub open spec fn spec_empty_observation(ev: ReadEvent) -> bool {
    match ev {
        ReadEvent::Data(b) => b@.len() == 0 || !is_utf8(b@),
        ReadEvent::Closed => false,
        ReadEvent::Failed => true,
    }
}

/// A read whose bytes are handed to the consumer: non-empty, decodable text.
pub open spec fn spec_delivers(ev: ReadEvent) -> bool {
    ev matches ReadEvent::Data(b) && b@.len() > 0 && is_utf8(b@)
}

/// The consecutive-empty count after one read, given the count before it:
/// an empty observation raises it, a delivered read resets it, the peer's
/// close leaves it alone (the stream is over anyway).
pub open spec fn spec_next_count(c: int, ev: ReadEvent) -> int {
    if spec_empty_observation(ev) {
        c + 1
    } else if spec_delivers(ev) {
        0
    } else {
        c
    }
}

/// Whether one read completes the stream, given the consecutive-empty count
/// before it: the peer closed, or the count runs past the limit.
pub open spec fn spec_completes(c: int, ev: ReadEvent) -> bool {
    ev is Closed || spec_next_count(c, ev) > EMPTY_LIMIT
}

/// What a reader does with one read.
pub enum StepOutcome {
    /// The read held non-empty decodable text: hand these bytes to the
    /// consumer at once.
    Deliver(Vec<u8>),
    /// An empty observation within the limit: keep reading.
    Continue,
    /// The stream is complete.
    Complete,
}

/// Progress of one inbound stream under the consumption protocol.
pub struct StreamReader {
    /// Consecutive empty observations since the last delivered read.
    pub empty_count: u64,
}

impl StreamReader {
    /// A reader that has not yet run past the empty-observation limit.
    pub open spec fn wf(self) -> bool {
        self.empty_count <= EMPTY_LIMIT
    }

    /// A fresh reader for a newly accepted connection.
    pub fn new() -> (r: StreamReader)
        ensures
            r.empty_count == 0,
            r.wf(),
    {
        StreamReader { empty_count: 0 }
    }

    /// Consume one read outcome: deliver its text, count an empty
    /// observation, or declare the stream complete.
    pub fn step(&mut self, ev: ReadEvent) -> (out: StepOutcome)
        requires
            old(self).wf(),
        ensures
            final(self).empty_count as int == spec_next_count(
                old(self).empty_count as int,
                ev,
            ),
            out is Complete <==> spec_completes(old(self).empty_count as int, ev),
            out is Deliver <==> spec_delivers(ev),
            out matches StepOutcome::Deliver(b) ==> b@ == event_bytes(ev),
            !spec_completes(old(self).empty_count as int, ev) ==> final(self).wf(),
    {
        match ev {
            ReadEvent::Closed => StepOutcome::Complete,
            ReadEvent::Failed => {
                self.empty_count = self.empty_count + 1;
                if self.empty_count > EMPTY_LIMIT {
                    StepOutcome::Complete
                } else {
                    StepOutcome::Continue
                }
            },
            ReadEvent::Data(b) => {
                if b.len() == 0 || !utf8_ok(&b) {
                    self.empty_count = self.empty_count + 1;
                    if self.empty_count > EMPTY_LIMIT {
                        StepOutcome::Complete
                    } else {
                        StepOutcome::Continue
                    }
                } else {
                    self.empty_count = 0;
                    StepOutcome::Deliver(b)
                }
            },
        }
    }
}

/// The consecutive-empty count after a sequence of reads, starting from
/// count `c`, ignoring completion.
pub open spec fn count_after(c: int, evs: Seq<ReadEvent>) -> int
    decreases evs.len(),
{
    if evs.len() == 0 {
        c
    } else {
        count_after(spec_next_count(c, evs[0]), evs.drop_first())
    }
}

/// Whether some read of `evs`, taken in order from count `c`, completes the
/// stream.
pub open spec fn completes_within(c: int, evs: Seq<ReadEvent>) -> bool
    decreases evs.len(),
{
    if evs.len() == 0 {
        false
    } else {
        spec_completes(c, evs[0]) || completes_within(
            spec_next_count(c, evs[0]),
            evs.drop_first(),
        )
    }
}

/// The payloads the protocol delivers for `evs`, taken in order from count
/// `c`, stopping at the read that completes the stream.
pub open spec fn deliveries(c: int, evs: Seq<ReadEvent>) -> Seq<Seq<u8>>
    decreases evs.len(),
{
    if evs.len() == 0 {
        Seq::empty()
    } else if spec_completes(c, evs[0]) {
        Seq::empty()
    } else if spec_delivers(evs[0]) {
        seq![event_bytes(evs[0])] + deliveries(spec_next_count(c, evs[0]), evs.drop_first())
    } else {
        deliveries(spec_next_count(c, evs[0]), evs.drop_first())
    }
}

/// The bytes each read of `evs` carried, in order.
pub open spec fn payloads(evs: Seq<ReadEvent>) -> Seq<Seq<u8>> {
    evs.map_values(|ev: ReadEvent| event_bytes(ev))
}

/// The chunks of `chunks` laid end to end.
pub open spec fn joined(chunks: Seq<Seq<u8>>) -> Seq<u8>
    decreases chunks.len(),
{
    if chunks.len() == 0 {
        Seq::empty()
    } else {
        chunks[0] + joined(chunks.drop_first())
    }
}

/// Everything the protocol delivers for `evs` from count `c`, laid end to
/// end: what a reader that concatenates its deliveries accumulates.
pub open spec fn accumulated(c: int, evs: Seq<ReadEvent>) -> Seq<u8> {
    joined(deliveries(c, evs))
}

/// A true zero-byte read (the peer closed) completes the stream at once,
/// whatever the consecutive-empty count stands at.
pub proof fn lemma_close_completes_immediately(c: int)
    ensures
        spec_completes(c, ReadEvent::Closed),
        completes_within(c, seq![ReadEvent::Closed]),
{
}

/// A run of nothing but empty observations that stays within the limit
/// leaves the stream open, delivers nothing, and raises the count by the
/// length of the run.
pub proof fn lemma_empty_run_stays_open(c: int, evs: Seq<ReadEvent>)
    requires
        0 <= c,
        forall|i: int| 0 <= i < evs.len() ==> spec_empty_observation(#[trigger] evs[i]),
        c + evs.len() <= EMPTY_LIMIT,
    ensures
        !completes_within(c, evs),
        count_after(c, evs) == c + evs.len(),
        deliveries(c, evs) =~= Seq::<Seq<u8>>::empty(),
    decreases evs.len(),
{
    if evs.len() > 0 {
        lemma_empty_run_stays_open(c + 1, evs.drop_first());
    }
}

/// Consecutive empty observations past the limit force completion even
/// though the peer never closes.
pub proof fn lemma_empty_overrun_completes(c: int, evs: Seq<ReadEvent>)
    requires
        0 <= c <= EMPTY_LIMIT,
        forall|i: int| 0 <= i < evs.len() ==> spec_empty_observation(#[trigger] evs[i]),
        c + evs.len() > EMPTY_LIMIT,
    ensures
        completes_within(c, evs),
    decreases evs.len(),
{
    if c + 1 <= EMPTY_LIMIT {
        lemma_empty_overrun_completes(c + 1, evs.drop_first());
    }
}

/// A run of empty observations within the limit followed by one read of
/// non-empty decodable text leaves the stream open, resets the count to
/// zero, and delivers exactly that read's bytes.
pub proof fn lemma_delivery_resets(c: int, evs: Seq<ReadEvent>)
    requires
        0 <= c,
        evs.len() >= 1,
        forall|i: int| 0 <= i < evs.len() - 1 ==> spec_empty_observation(#[trigger] evs[i]),
        spec_delivers(evs[evs.len() - 1]),
        c + evs.len() - 1 <= EMPTY_LIMIT,
    ensures
        !completes_within(c, evs),
        count_after(c, evs) == 0,
        deliveries(c, evs) =~= seq![event_bytes(evs[evs.len() - 1])],
    decreases evs.len(),
{
    let rest = evs.drop_first();
    if evs.len() == 1 {
        assert(!spec_completes(c, evs[0]));
        assert(count_after(0, rest) == 0);
        assert(!completes_within(0, rest));
        assert(deliveries(0, rest) =~= Seq::<Seq<u8>>::empty());
        assert(deliveries(c, evs) =~= seq![event_bytes(evs[0])] + deliveries(0, rest));
    } else {
        assert(spec_empty_observation(evs[0]));
        assert(rest[rest.len() - 1] == evs[evs.len() - 1]);
        assert forall|i: int| 0 <= i < rest.len() - 1 implies spec_empty_observation(
            #[trigger] rest[i],
        ) by {
            assert(rest[i] == evs[i + 1]);
        }
        lemma_delivery_resets(c + 1, rest);
        assert(!spec_completes(c, evs[0]));
        assert(deliveries(c, evs) =~= deliveries(c + 1, rest));
    }
}

/// Reads that each carry non-empty decodable text are delivered one for
/// one, in order, with none dropped, duplicated or reordered, from any
/// starting count.
pub proof fn lemma_ordered_delivery(c: int, evs: Seq<ReadEvent>)
    requires
        forall|i: int| 0 <= i < evs.len() ==> spec_delivers(#[trigger] evs[i]),
    ensures
        !completes_within(c, evs),
        deliveries(c, evs) =~= payloads(evs),
        evs.len() > 0 ==> count_after(c, evs) == 0,
    decreases evs.len(),
{
    if evs.len() > 0 {
        lemma_ordered_delivery(0, evs.drop_first());
        assert(payloads(evs) =~= seq![event_bytes(evs[0])] + payloads(evs.drop_first()));
        if evs.drop_first().len() == 0 {
            assert(count_after(0, evs.drop_first()) == 0);
        }
    }
}

} // verus!
