use vstd::prelude::*;
use crate::stream::ReadEvent;
use crate::stream::accumulated;
use crate::stream::deliveries;
use crate::stream::event_bytes;
use crate::stream::joined;
use crate::stream::payloads;
use crate::stream::spec_delivers;

verus! {

/// The reads that carry chunk `c` alone: one delivered read of `c`
/// followed by the peer's close when `c` is non-empty; the bare close when
/// `c` is empty, since nothing was ever written.
pub open spec fn single_chunk_response(reads: Seq<ReadEvent>, c: Seq<u8>) -> bool {
    if c.len() == 0 {
        reads.len() == 1 && reads[0] is Closed
    } else {
        &&& reads.len() == 2
        &&& spec_delivers(reads[0])
        &&& event_bytes(reads[0]) == c
        &&& reads[1] is Closed
    }
}

/// The close after reads that all deliver only ends the stream: exactly
/// those reads' bytes are delivered, in order.
pub proof fn lemma_deliveries_until_close(c: int, evs: Seq<ReadEvent>)
    requires
        forall|i: int| 0 <= i < evs.len() ==> spec_delivers(#[trigger] evs[i]),
    ensures
        deliveries(c, evs.push(ReadEvent::Closed)) =~= payloads(evs),
    decreases evs.len(),
{
    let whole = evs.push(ReadEvent::Closed);
    if evs.len() == 0 {
        assert(whole[0] is Closed);
    } else {
        assert(whole[0] == evs[0]);
        assert(whole.drop_first() =~= evs.drop_first().push(ReadEvent::Closed));
        lemma_deliveries_until_close(0, evs.drop_first());
        assert(payloads(evs) =~= seq![event_bytes(evs[0])] + payloads(evs.drop_first()));
    }
}

/// Echo round trip. However the transport fragments the prompt into
/// delivered reads, the prompt the inference node accumulates before the
/// close is exactly the bytes that were sent; and when the collaborator
/// echoes that prompt back as a single chunk, the capture node delivers
/// exactly those bytes to keystroke injection, in at most one call — one
/// call when the prompt is non-empty, none when it is empty.
pub proof fn lemma_echo_round_trip(prompt_reads: Seq<ReadEvent>, response_reads: Seq<ReadEvent>)
    requires
        forall|i: int| 0 <= i < prompt_reads.len() ==> spec_delivers(
            #[trigger] prompt_reads[i],
        ),
        single_chunk_response(
            response_reads,
            accumulated(0, prompt_reads.push(ReadEvent::Closed)),
        ),
    ensures
        accumulated(0, prompt_reads.push(ReadEvent::Closed)) == joined(payloads(prompt_reads)),
        deliveries(0, response_reads).len() <= 1,
        joined(deliveries(0, response_reads)) == joined(payloads(prompt_reads)),
{
    lemma_deliveries_until_close(0, prompt_reads);
    let sent = joined(payloads(prompt_reads));
    assert(accumulated(0, prompt_reads.push(ReadEvent::Closed)) == sent);
    if sent.len() == 0 {
        assert(deliveries(0, response_reads) =~= Seq::<Seq<u8>>::empty());
        assert(joined(deliveries(0, response_reads)) =~= sent);
    } else {
        let rest = response_reads.drop_first();
        assert(rest.len() == 1 && rest[0] is Closed);
        assert(deliveries(0, rest) =~= Seq::<Seq<u8>>::empty());
        assert(deliveries(0, response_reads) =~= seq![sent]);
        assert(joined(seq![sent]) == sent + joined(seq![sent].drop_first()));
        assert(joined(seq![sent].drop_first()) =~= Seq::<u8>::empty());
        assert(joined(deliveries(0, response_reads)) =~= sent);
    }
}

} // verus!
