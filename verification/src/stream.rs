//! Assembly of a chunked byte stream into one response body.
//!
//! The transport hands the library the observed stream as a sequence of
//! events: a chunk of bytes, or a transport failure with its message. Draining
//! compares each chunk against the sentinel that marks end-of-stream, appends
//! every other chunk to a growing buffer, and stops at the first failure,
//! discarding the buffer.

use vstd::prelude::*;

verus! {

/// One observation made on the byte stream of a streamed response.
#[derive(Debug)]
pub enum StreamEvent {
    /// A chunk of body bytes arrived.
    Chunk(Vec<u8>),
    /// The transport failed with the given message; no further chunk arrived
    /// on this read.
    Failed(String),
}

/// The sentinel chunk that the service sends to mark the end of a stream.
pub open spec fn sentinel() -> Seq<u8> {
    seq![91u8, 68u8, 79u8, 78u8, 69u8, 93u8]
}

/// What draining the given events yields: the concatenation of every
/// non-sentinel chunk, or the message of the first failure.
pub open spec fn drain_buffer(events: Seq<StreamEvent>) -> Result<Seq<u8>, Seq<char>>
    decreases events.len(),
{
    if events.len() == 0 {
        Ok(Seq::<u8>::empty())
    } else {
        match events[0] {
            StreamEvent::Failed(m) => Err(m@),
            StreamEvent::Chunk(b) => match drain_buffer(events.drop_first()) {
                Err(m) => Err(m),
                Ok(rest) => Ok(
                    if b@ == sentinel() {
                        rest
                    } else {
                        b@ + rest
                    },
                ),
            },
        }
    }
}

/// The events left unread after one drain: none when the stream ran to its
/// end, and everything after the first failure otherwise.
pub open spec fn drain_rest(events: Seq<StreamEvent>) -> Seq<StreamEvent>
    decreases events.len(),
{
    if events.len() == 0 {
        Seq::<StreamEvent>::empty()
    } else {
        match events[0] {
            StreamEvent::Failed(_) => events.drop_first(),
            StreamEvent::Chunk(_) => drain_rest(events.drop_first()),
        }
    }
}

/// A fully drained stream yields the empty buffer — "no response" — and stays
/// drained, so this and every later read answer "no response" again.
pub proof fn lemma_drained_stream_stays_empty(events: Seq<StreamEvent>)
    requires
        events.len() == 0,
    ensures
        drain_buffer(events) == Ok::<Seq<u8>, Seq<char>>(Seq::<u8>::empty()),
        drain_rest(events) == events,
{
    assert(drain_rest(events) =~= events);
}

/// A stream whose every chunk is the sentinel — in particular a sentinel-only
/// or an empty stream — yields the empty buffer: "no response", not an error.
pub proof fn lemma_sentinel_only_stream_yields_nothing(events: Seq<StreamEvent>)
    requires
        forall|i: int|
            0 <= i < events.len() ==> ((#[trigger] events[i]) matches StreamEvent::Chunk(b) && b@
                == sentinel()),
    ensures
        drain_buffer(events) == Ok::<Seq<u8>, Seq<char>>(Seq::<u8>::empty()),
    decreases events.len(),
{
    if events.len() > 0 {
        assert(events[0] matches StreamEvent::Chunk(b) && b@ == sentinel());
        assert(forall|i: int|
            0 <= i < events.drop_first().len() ==> #[trigger] events.drop_first()[i] == events[i
                + 1]);
        lemma_sentinel_only_stream_yields_nothing(events.drop_first());
    }
}

fn is_sentinel(chunk: &Vec<u8>) -> (r: bool)
    ensures
        r == (chunk@ == sentinel()),
{
    let r = chunk.len() == 6 && chunk[0] == 91 && chunk[1] == 68 && chunk[2] == 79 && chunk[3]
        == 78 && chunk[4] == 69 && chunk[5] == 93;
    proof {
        if r {
            assert(chunk@ =~= sentinel());
        } else {
            assert(chunk@ != sentinel());
        }
    }
    r
}

/// Drain the events from position `start` on: gather every non-sentinel chunk
/// until the stream's end, or stop at the first failure. Returns the gathered
/// buffer or the failure's message, together with the position of the first
/// unread event.
pub(crate) fn drain(events: &Vec<StreamEvent>, start: usize) -> (r: (Result<Vec<u8>, String>, usize))
    requires
        start <= events@.len(),
    ensures
        start <= r.1 <= events@.len(),
        events@.skip(r.1 as int) == drain_rest(events@.skip(start as int)),
        r.0 matches Ok(buf) ==> drain_buffer(events@.skip(start as int)) == Ok::<_, Seq<char>>(
            buf@,
        ),
        r.0 matches Err(m) ==> drain_buffer(events@.skip(start as int)) == Err::<Seq<u8>, _>(m@),
{
    let ghost all = events@.skip(start as int);
    let mut buf: Vec<u8> = Vec::new();
    let mut i: usize = start;
    while i < events.len()
        invariant
            start <= i <= events@.len(),
            drain_rest(all) == drain_rest(events@.skip(i as int)),
            all == events@.skip(start as int),
            drain_buffer(events@.skip(i as int)) matches Ok(rest) ==> drain_buffer(all)
                == Ok::<_, Seq<char>>(buf@ + rest),
            drain_buffer(events@.skip(i as int)) matches Err(m) ==> drain_buffer(all)
                == Err::<Seq<u8>, _>(m),
        decreases events@.len() - i,
    {
        proof {
            assert(events@.skip(i as int).drop_first() =~= events@.skip(i as int + 1));
            assert(events@.skip(i as int)[0] == events@[i as int]);
        }
        match &events[i] {
            StreamEvent::Failed(m) => {
                return (Err(m.clone()), i + 1);
            },
            StreamEvent::Chunk(chunk) => {
                if !is_sentinel(chunk) {
                    let mut j: usize = 0;
                    let ghost prior = buf@;
                    while j < chunk.len()
                        invariant
                            0 <= j <= chunk@.len(),
                            buf@ == prior + chunk@.take(j as int),
                        decreases chunk@.len() - j,
                    {
                        buf.push(chunk[j]);
                        proof {
                            assert(prior + chunk@.take(j as int) + seq![chunk@[j as int]] =~= prior
                                + chunk@.take(j as int + 1));
                        }
                        j += 1;
                    }
                    proof {
                        assert(chunk@.take(chunk@.len() as int) =~= chunk@);
                    }
                }
                i += 1;
                proof {
                    if drain_buffer(events@.skip(i as int)) is Ok {
                        assert(buf@ + drain_buffer(events@.skip(i as int))->Ok_0 =~= drain_buffer(
                            all,
                        )->Ok_0);
                    }
                }
            },
        }
    }
    proof {
        assert(events@.skip(i as int) =~= Seq::<StreamEvent>::empty());
        assert(buf@ + Seq::<u8>::empty() =~= buf@);
    }
    (Ok(buf), i)
}

} // verus!
