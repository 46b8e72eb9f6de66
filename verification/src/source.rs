//! The source adapter: turns a host-side pull producer into a push source
//! feeding a `ChunkChannel`.
//!
//! A host producer is seen here as the sequence of its pull outcomes: each
//! pull yields an item, reports exhaustion, or raises. The adapter forwards
//! every item pulled before the first non-item outcome, then pushes the
//! matching terminal signal; a consumer that disappears stops the adapter
//! silently. The unverified shell performs the actual pulls on a dedicated
//! worker thread and hands each outcome to `adapter_step`.

use vstd::prelude::*;

use crate::channel::{ChunkChannel, RecvOutcome, SendOutcome, Terminal};
use crate::chunk::{chunk_bytes, chunks_view, lemma_chunks_view_drop_first, lemma_chunks_view_push};

verus! {

/// One pull from the host producer.
pub enum HostPull {
    /// The producer yielded one chunk.
    Item(bytes::Bytes),
    /// The producer is exhausted.
    Done,
    /// Pulling raised this error.
    Raise(String),
}

/// What the adapter does with one pull outcome.
pub enum PumpAction {
    /// Push this chunk into the channel, then pull again.
    Forward(bytes::Bytes),
    /// Push the end signal and stop.
    Finish,
    /// Push this failure and stop.
    Fail(String),
}

pub open spec fn spec_adapter_step(p: HostPull) -> PumpAction {
    match p {
        HostPull::Item(c) => PumpAction::Forward(c),
        HostPull::Done => PumpAction::Finish,
        HostPull::Raise(m) => PumpAction::Fail(m),
    }
}

/// The chunk contents the adapter forwards for these pulls: every item
/// pulled before the first exhaustion or error, in pull order.
pub open spec fn pulled_chunks(pulls: Seq<HostPull>) -> Seq<Seq<u8>>
    decreases pulls.len(),
{
    if pulls.len() == 0 {
        Seq::empty()
    } else {
        match pulls[0] {
            HostPull::Item(c) => seq![chunk_bytes(c)] + pulled_chunks(pulls.drop_first()),
            _ => Seq::empty(),
        }
    }
}

/// The terminal signal the adapter pushes for these pulls: the error of
/// the first raising pull, else a plain end.
pub open spec fn pulled_terminal(pulls: Seq<HostPull>) -> Terminal
    decreases pulls.len(),
{
    if pulls.len() == 0 {
        Terminal::Finished
    } else {
        match pulls[0] {
            HostPull::Item(_) => pulled_terminal(pulls.drop_first()),
            HostPull::Done => Terminal::Finished,
            HostPull::Raise(m) => Terminal::Failed(m),
        }
    }
}

/// Decide what to do with one pull outcome.
pub fn adapter_step(p: HostPull) -> (a: PumpAction)
    ensures
        a == spec_adapter_step(p),
{
    match p {
        HostPull::Item(c) => PumpAction::Forward(c),
        HostPull::Done => PumpAction::Finish,
        HostPull::Raise(m) => PumpAction::Fail(m),
    }
}

/// Run the whole adapter over a materialized producer: the transcript of
/// chunks it forwards, in order, and the terminal signal it ends with.
pub fn adapter_transcript(pulls: Vec<HostPull>) -> (r: (Vec<bytes::Bytes>, Terminal))
    ensures
        chunks_view(r.0@) == pulled_chunks(pulls@),
        r.1 == pulled_terminal(pulls@),
{
    let mut rest = pulls;
    let mut out: Vec<bytes::Bytes> = Vec::new();
    loop
        invariant
            chunks_view(out@) + pulled_chunks(rest@) == pulled_chunks(pulls@),
            pulled_terminal(rest@) == pulled_terminal(pulls@),
        decreases rest@.len(),
    {
        if rest.len() == 0 {
            proof {
                assert(chunks_view(out@) =~~= pulled_chunks(pulls@));
            }
            return (out, Terminal::Finished);
        }
        let ghost prev = rest@;
        let p = rest.remove(0);
        proof {
            assert(rest@ =~= prev.drop_first());
        }
        match adapter_step(p) {
            PumpAction::Forward(c) => {
                proof {
                    lemma_chunks_view_push(out@, c);
                    assert(chunks_view(out@).push(chunk_bytes(c)) + pulled_chunks(rest@)
                        =~~= chunks_view(out@) + pulled_chunks(prev));
                }
                out.push(c);
            },
            PumpAction::Finish => {
                proof {
                    assert(chunks_view(out@) =~~= pulled_chunks(pulls@));
                }
                return (out, Terminal::Finished);
            },
            PumpAction::Fail(m) => {
                proof {
                    assert(chunks_view(out@) =~~= pulled_chunks(pulls@));
                }
                return (out, Terminal::Failed(m));
            },
        }
    }
}

/// Push every forwarded chunk through a bounded channel and drain it from
/// the consumer side: what comes out is exactly what the producer pulled,
/// in order, ending with the producer's own terminal signal. The producer
/// retries a full channel only after the consumer frees a slot, so the
/// conduit's bound never reorders, drops or duplicates a chunk.
pub fn bridge_transfer(pulls: Vec<HostPull>, capacity: usize) -> (r: (Vec<bytes::Bytes>, Terminal))
    requires
        1 <= capacity <= 10,
    ensures
        chunks_view(r.0@) == pulled_chunks(pulls@),
        r.1 == pulled_terminal(pulls@),
{
    let mut chan = ChunkChannel::new(capacity);
    let mut rest = pulls;
    let mut out: Vec<bytes::Bytes> = Vec::new();
    loop
        invariant_except_break
            chan.wf(),
            chan.receiver_live,
            chan.terminal is None,
            !chan.reserved,
            chunks_view(out@) + chan.queued() + pulled_chunks(rest@) == pulled_chunks(pulls@),
            pulled_terminal(rest@) == pulled_terminal(pulls@),
        ensures
            chan.wf(),
            chan.terminal == Some(pulled_terminal(pulls@)),
            chunks_view(out@) + chan.queued() == pulled_chunks(pulls@),
        decreases rest@.len(),
    {
        if rest.len() == 0 {
            proof {
                assert(chunks_view(out@) + chan.queued() =~~= pulled_chunks(pulls@));
            }
            chan.push_end();
            break;
        }
        let ghost prev = rest@;
        let p = rest.remove(0);
        proof {
            assert(rest@ =~= prev.drop_first());
        }
        match adapter_step(p) {
            PumpAction::Forward(c) => {
                proof {
                    assert(chunks_view(out@) + chan.queued().push(chunk_bytes(c))
                        + pulled_chunks(rest@) =~~= chunks_view(out@) + chan.queued() + (seq![
                        chunk_bytes(c),
                    ] + pulled_chunks(rest@)));
                }
                let mut item = c;
                loop
                    invariant_except_break
                        chan.wf(),
                        chan.receiver_live,
                        chan.terminal is None,
                        !chan.reserved,
                        chunks_view(out@) + chan.queued().push(chunk_bytes(item))
                            + pulled_chunks(rest@) == pulled_chunks(pulls@),
                        pulled_terminal(rest@) == pulled_terminal(pulls@),
                    ensures
                        chan.wf(),
                        chan.receiver_live,
                        chan.terminal is None,
                        !chan.reserved,
                        chunks_view(out@) + chan.queued() + pulled_chunks(rest@) == pulled_chunks(
                            pulls@,
                        ),
                        pulled_terminal(rest@) == pulled_terminal(pulls@),
                    decreases chan.queue@.len(),
                {
                    let ghost pre_chan = chan;
                    let ghost pre_item = item;
                    match chan.try_send(item) {
                        SendOutcome::Sent => {
                            proof {
                                lemma_chunks_view_push(pre_chan.queue@, pre_item);
                            }
                            break;
                        },
                        SendOutcome::Full(back) => {
                            item = back;
                            let got = chan.recv();
                            match got {
                                RecvOutcome::Chunk(g) => {
                                    proof {
                                        lemma_chunks_view_drop_first(pre_chan.queue@);
                                        lemma_chunks_view_push(out@, g);
                                        assert(chunks_view(out@).push(chunk_bytes(g))
                                            + chan.queued().push(chunk_bytes(item))
                                            + pulled_chunks(rest@) =~~= chunks_view(out@)
                                            + pre_chan.queued().push(chunk_bytes(item))
                                            + pulled_chunks(rest@));
                                    }
                                    out.push(g);
                                },
                                _ => {
                                    proof {
                                        assert(false);
                                    }
                                },
                            }
                        },
                        SendOutcome::Disconnected => {
                            proof {
                                assert(false);
                            }
                            break;
                        },
                    }
                }
            },
            PumpAction::Finish => {
                proof {
                    assert(chunks_view(out@) + chan.queued() =~~= pulled_chunks(pulls@));
                }
                chan.push_end();
                break;
            },
            PumpAction::Fail(m) => {
                proof {
                    assert(chunks_view(out@) + chan.queued() =~~= pulled_chunks(pulls@));
                }
                chan.push_failure(m);
                break;
            },
        }
    }
    // The producer is done; the consumer drains what is queued and then
    // observes the terminal signal.
    loop
        invariant
            chan.wf(),
            chan.terminal == Some(pulled_terminal(pulls@)),
            chunks_view(out@) + chan.queued() == pulled_chunks(pulls@),
        decreases chan.queue@.len(),
    {
        let ghost pre_chan = chan;
        match chan.recv() {
            RecvOutcome::Chunk(g) => {
                proof {
                    lemma_chunks_view_drop_first(pre_chan.queue@);
                    lemma_chunks_view_push(out@, g);
                    assert(chunks_view(out@).push(chunk_bytes(g)) + chan.queued() =~~= chunks_view(
                        out@,
                    ) + pre_chan.queued());
                }
                out.push(g);
            },
            RecvOutcome::Ended => {
                proof {
                    assert(chunks_view(out@) =~~= pulled_chunks(pulls@));
                }
                return (out, Terminal::Finished);
            },
            RecvOutcome::Failed(m) => {
                proof {
                    assert(chunks_view(out@) =~~= pulled_chunks(pulls@));
                }
                return (out, Terminal::Failed(m));
            },
            RecvOutcome::WouldBlock => {
                proof {
                    assert(false);
                }
            },
        }
    }
}

} // verus!
