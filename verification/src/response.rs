//! The response body: owns the incoming frame stream, hands out one chunk
//! per data frame, captures trailing metadata, supports cancellation and
//! serializes concurrent readers.
//!
//! The engine stream is seen here as the frames it will deliver followed
//! by how it ends. The unverified shell pulls each frame from the engine,
//! racing the pull against the cancel signal; every step of that loop is
//! `read_step`, and a whole "next chunk" operation is `chunk`. The model
//! is sequential: one operation is one atomic step of the real body, and
//! the read lock records a read that is still in flight.

use vstd::prelude::*;

use crate::chunk::{chunk_bytes, chunks_view, lemma_chunks_view_push};

verus! {

/// Trailing metadata: header names with their values, in arrival order.
pub struct Trailers {
    pub entries: Vec<(Vec<u8>, Vec<u8>)>,
}

/// One engine-level transport frame.
pub enum FrameEvent {
    /// A frame carrying body bytes.
    Data(bytes::Bytes),
    /// A frame carrying trailing metadata.
    Trailer(Trailers),
    /// A frame of a kind this bridge does not know; skipped.
    Unknown,
}

/// How the engine stream ends after its last frame.
pub enum StreamEnd {
    /// A clean end of stream.
    Eof,
    /// The transport failed with this message.
    Failed(String),
}

/// Everything the engine stream will deliver.
pub struct FrameScript {
    pub frames: Vec<FrameEvent>,
    pub end: StreamEnd,
}

/// What one "next chunk" operation returns to the caller.
pub enum ReadOutcome {
    /// One whole data frame.
    Chunk(bytes::Bytes),
    /// End of the body; repeated thereafter.
    Ended,
    /// The transport failed; delivered once, then reads end cleanly.
    Failed(String),
}

/// What one step of the read loop does.
pub enum ReadStep {
    /// The operation finishes with this outcome.
    Yield(ReadOutcome),
    /// A non-data frame was consumed; pull again.
    Progress,
}

/// What the host-facing iterator raises or returns for an outcome.
pub enum HostSignal {
    /// Hand this chunk to the caller.
    Item(bytes::Bytes),
    /// Signal end of iteration.
    Stop,
    /// Raise this error.
    Raise(String),
}

/// One read over a frame stream: the outcome, the frames left, the end
/// left, and the trailers recorded so far. Data yields; a trailer frame is
/// stored and skipped; an unknown frame is skipped; an exhausted stream
/// yields its end, a failure only once.
pub open spec fn spec_read(frames: Seq<FrameEvent>, end: StreamEnd, tr: Option<Trailers>) -> (
    ReadOutcome,
    Seq<FrameEvent>,
    StreamEnd,
    Option<Trailers>,
)
    decreases frames.len(),
{
    if frames.len() == 0 {
        match end {
            StreamEnd::Eof => (ReadOutcome::Ended, frames, StreamEnd::Eof, tr),
            StreamEnd::Failed(m) => (ReadOutcome::Failed(m), frames, StreamEnd::Eof, tr),
        }
    } else {
        match frames[0] {
            FrameEvent::Data(c) => (ReadOutcome::Chunk(c), frames.drop_first(), end, tr),
            FrameEvent::Trailer(t) => spec_read(frames.drop_first(), end, Some(t)),
            FrameEvent::Unknown => spec_read(frames.drop_first(), end, tr),
        }
    }
}

/// The incoming body with its read lock, cancel flag and trailer slot.
pub struct ResponseBody {
    /// False while the network call has not resolved yet.
    pub filled: bool,
    /// What the engine stream still has to deliver.
    pub script: FrameScript,
    /// Trailing metadata observed while draining.
    pub trailers: Option<Trailers>,
    /// The broadcast cancel flag; sticky once set.
    pub cancelled: bool,
    /// True once the engine body handle was dropped.
    pub released: bool,
    /// True while a read is in flight.
    pub read_lock: bool,
}

impl ResponseBody {
    pub open spec fn wf(self) -> bool {
        &&& !self.filled ==> self.script.frames@.len() == 0 && self.script.end is Eof
        &&& self.released ==> self.cancelled
    }

    /// Everything `close` leaves behind: cancelled, handle dropped, the
    /// stream abandoned; trailers already observed are retained.
    pub open spec fn close_effect(pre: ResponseBody, post: ResponseBody) -> bool {
        &&& post.cancelled
        &&& post.released
        &&& post.script.frames@ == Seq::<FrameEvent>::empty()
        &&& post.script.end is Eof
        &&& post.trailers == pre.trailers
        &&& post.filled == pre.filled
        &&& post.read_lock == pre.read_lock
    }

    /// A body created before the network call resolves.
    pub fn new_pending() -> (b: ResponseBody)
        ensures
            b.wf(),
            !b.filled,
            !b.cancelled,
            !b.released,
            !b.read_lock,
            b.trailers is None,
            b.script.frames@.len() == 0,
    {
        ResponseBody {
            filled: false,
            script: FrameScript { frames: Vec::new(), end: StreamEnd::Eof },
            trailers: None,
            cancelled: false,
            released: false,
            read_lock: false,
        }
    }

    /// The network call resolved: move the engine stream into the slot.
    pub fn fill(&mut self, script: FrameScript)
        requires
            old(self).wf(),
            !old(self).filled,
        ensures
            final(self).wf(),
            final(self).filled,
            !old(self).released ==> final(self).script == script,
            old(self).released ==> final(self).script.frames@ == Seq::<FrameEvent>::empty()
                && final(self).script.end is Eof,
            final(self).trailers == old(self).trailers,
            final(self).cancelled == old(self).cancelled,
            final(self).released == old(self).released,
            final(self).read_lock == old(self).read_lock,
    {
        self.script = script;
        self.filled = true;
        if self.released {
            // Closed while still pending: the handle is already dropped,
            // so the late stream is abandoned unread.
            self.script.frames.clear();
            self.script.end = StreamEnd::Eof;
        }
    }

    /// Try to take the read lock; at most one read is in flight.
    pub fn begin_read(&mut self) -> (ok: bool)
        ensures
            ok == !old(self).read_lock,
            *final(self) == (ResponseBody { read_lock: true, ..*old(self) }),
    {
        let ok = !self.read_lock;
        self.read_lock = true;
        ok
    }

    /// Release the read lock.
    pub fn end_read(&mut self)
        requires
            old(self).read_lock,
        ensures
            *final(self) == (ResponseBody { read_lock: false, ..*old(self) }),
    {
        self.read_lock = false;
    }

    /// One step of the read loop: observe cancellation first, else consume
    /// one frame or the end of the stream.
    pub fn read_step(&mut self) -> (s: ReadStep)
        requires
            old(self).wf(),
            old(self).read_lock,
        ensures
            final(self).wf(),
            final(self).filled == old(self).filled,
            final(self).cancelled == old(self).cancelled,
            final(self).released == old(self).released,
            final(self).read_lock == old(self).read_lock,
            old(self).cancelled ==> s == ReadStep::Yield(ReadOutcome::Ended) && *final(self)
                == *old(self),
            !old(self).cancelled && old(self).script.frames@.len() > 0 ==> (match old(self).script.frames@[0] {
                FrameEvent::Data(c) => s == ReadStep::Yield(ReadOutcome::Chunk(c))
                    && final(self).trailers == old(self).trailers,
                FrameEvent::Trailer(t) => s == ReadStep::Progress
                    && final(self).trailers == Some(t),
                FrameEvent::Unknown => s == ReadStep::Progress
                    && final(self).trailers == old(self).trailers,
            }) && final(self).script.frames@ == old(self).script.frames@.drop_first()
                && final(self).script.end == old(self).script.end,
            !old(self).cancelled && old(self).script.frames@.len() == 0 ==> (
                final(self).script.frames@ == old(self).script.frames@
                && final(self).script.end is Eof
                && final(self).trailers == old(self).trailers
                && (match old(self).script.end {
                    StreamEnd::Eof => s == ReadStep::Yield(ReadOutcome::Ended),
                    StreamEnd::Failed(m) => s == ReadStep::Yield(ReadOutcome::Failed(m)),
                })
            ),
    {
        if self.cancelled {
            ReadStep::Yield(ReadOutcome::Ended)
        } else if self.script.frames.len() > 0 {
            let f = self.script.frames.remove(0);
            match f {
                FrameEvent::Data(c) => ReadStep::Yield(ReadOutcome::Chunk(c)),
                FrameEvent::Trailer(t) => {
                    self.trailers = Some(t);
                    ReadStep::Progress
                },
                FrameEvent::Unknown => ReadStep::Progress,
            }
        } else {
            let mut e = StreamEnd::Eof;
            std::mem::swap(&mut self.script.end, &mut e);
            match e {
                StreamEnd::Eof => ReadStep::Yield(ReadOutcome::Ended),
                StreamEnd::Failed(m) => ReadStep::Yield(ReadOutcome::Failed(m)),
            }
        }
    }

    /// One step of a live read loop, for a stream the engine delivers
    /// frame by frame: decide what one pulled frame means. Cancellation
    /// is observed first, as the real loop races every pull against the
    /// cancel signal.
    pub fn observe_frame(&mut self, f: FrameEvent) -> (s: ReadStep)
        requires
            old(self).wf(),
            old(self).read_lock,
        ensures
            final(self).wf(),
            final(self).filled == old(self).filled,
            final(self).cancelled == old(self).cancelled,
            final(self).released == old(self).released,
            final(self).read_lock == old(self).read_lock,
            final(self).script == old(self).script,
            old(self).cancelled ==> s == ReadStep::Yield(ReadOutcome::Ended) && final(self).trailers
                == old(self).trailers,
            !old(self).cancelled ==> (match f {
                FrameEvent::Data(c) => s == ReadStep::Yield(ReadOutcome::Chunk(c))
                    && final(self).trailers == old(self).trailers,
                FrameEvent::Trailer(t) => s == ReadStep::Progress
                    && final(self).trailers == Some(t),
                FrameEvent::Unknown => s == ReadStep::Progress
                    && final(self).trailers == old(self).trailers,
            }),
    {
        if self.cancelled {
            ReadStep::Yield(ReadOutcome::Ended)
        } else {
            match f {
                FrameEvent::Data(c) => ReadStep::Yield(ReadOutcome::Chunk(c)),
                FrameEvent::Trailer(t) => {
                    self.trailers = Some(t);
                    ReadStep::Progress
                },
                FrameEvent::Unknown => ReadStep::Progress,
            }
        }
    }

    /// The live read loop reached the end of the engine stream: what the
    /// caller is told. A failure surfaces unless the body was cancelled
    /// first.
    pub fn observe_end(&mut self, e: StreamEnd) -> (r: ReadOutcome)
        requires
            old(self).wf(),
            old(self).read_lock,
        ensures
            *final(self) == *old(self),
            old(self).cancelled ==> r == ReadOutcome::Ended,
            !old(self).cancelled ==> r == (match e {
                StreamEnd::Eof => ReadOutcome::Ended,
                StreamEnd::Failed(m) => ReadOutcome::Failed(m),
            }),
    {
        if self.cancelled {
            ReadOutcome::Ended
        } else {
            match e {
                StreamEnd::Eof => ReadOutcome::Ended,
                StreamEnd::Failed(m) => ReadOutcome::Failed(m),
            }
        }
    }

    /// Read the next chunk: take the lock, loop over frames classifying
    /// each as data (yield it), trailer (store, go on) or unknown (skip),
    /// and yield the stream's end when it is exhausted. A cancelled body
    /// yields an end without touching the stream.
    pub fn chunk(&mut self) -> (r: ReadOutcome)
        requires
            old(self).wf(),
            !old(self).read_lock,
            old(self).filled || old(self).cancelled,
        ensures
            final(self).wf(),
            final(self).filled == old(self).filled,
            final(self).cancelled == old(self).cancelled,
            final(self).released == old(self).released,
            !final(self).read_lock,
            old(self).cancelled ==> r == ReadOutcome::Ended
                && final(self).script.frames@ == old(self).script.frames@
                && final(self).script.end == old(self).script.end
                && final(self).trailers == old(self).trailers,
            !old(self).cancelled ==> spec_read(
                old(self).script.frames@,
                old(self).script.end,
                old(self).trailers,
            ) == (r, final(self).script.frames@, final(self).script.end, final(self).trailers),
    {
        let _entered = self.begin_read();
        let ghost orig = *old(self);
        let mut result: ReadOutcome = ReadOutcome::Ended;
        loop
            invariant_except_break
                self.wf(),
                self.read_lock,
                self.filled == orig.filled,
                self.cancelled == orig.cancelled,
                self.released == orig.released,
                orig.cancelled ==> self.script.frames@ == orig.script.frames@ && self.script.end
                    == orig.script.end && self.trailers == orig.trailers,
                !orig.cancelled ==> spec_read(self.script.frames@, self.script.end, self.trailers)
                    == spec_read(orig.script.frames@, orig.script.end, orig.trailers),
            ensures
                self.wf(),
                self.read_lock,
                self.filled == orig.filled,
                self.cancelled == orig.cancelled,
                self.released == orig.released,
                orig.cancelled ==> result == ReadOutcome::Ended && self.script.frames@
                    == orig.script.frames@ && self.script.end == orig.script.end && self.trailers
                    == orig.trailers,
                !orig.cancelled ==> spec_read(orig.script.frames@, orig.script.end, orig.trailers)
                    == (result, self.script.frames@, self.script.end, self.trailers),
            decreases self.script.frames@.len(),
        {
            let ghost pre = *self;
            match self.read_step() {
                ReadStep::Yield(o) => {
                    proof {
                        if !orig.cancelled {
                            assert(spec_read(pre.script.frames@, pre.script.end, pre.trailers) == (
                                o,
                                self.script.frames@,
                                self.script.end,
                                self.trailers,
                            ));
                        }
                    }
                    result = o;
                    break;
                },
                ReadStep::Progress => {
                },
            }
        }
        self.end_read();
        result
    }

    /// Read the whole remaining body: every data chunk in order, and the
    /// terminal outcome after them. This is the full-response path, which
    /// drains the stream to its end before handing the response over.
    pub fn drain_all(&mut self) -> (r: (Vec<bytes::Bytes>, ReadOutcome))
        requires
            old(self).wf(),
            !old(self).read_lock,
            old(self).filled || old(self).cancelled,
        ensures
            final(self).wf(),
            !final(self).read_lock,
            final(self).filled == old(self).filled,
            final(self).cancelled == old(self).cancelled,
            old(self).cancelled ==> r.0@.len() == 0 && r.1 == ReadOutcome::Ended,
            !old(self).cancelled ==> ({
                let d = spec_drain(old(self).script.frames@, old(self).trailers);
                &&& chunks_view(r.0@) == d.0
                &&& final(self).trailers == d.1
                &&& final(self).script.frames@.len() == 0
                &&& r.1 == (match old(self).script.end {
                    StreamEnd::Eof => ReadOutcome::Ended,
                    StreamEnd::Failed(m) => ReadOutcome::Failed(m),
                })
            }),
    {
        let ghost orig = *old(self);
        let mut out: Vec<bytes::Bytes> = Vec::new();
        let mut result: ReadOutcome = ReadOutcome::Ended;
        loop
            invariant_except_break
                self.wf(),
                !self.read_lock,
                self.filled == orig.filled,
                self.cancelled == orig.cancelled,
                self.filled || self.cancelled,
                orig.cancelled ==> out@.len() == 0 && self.script.frames@ == orig.script.frames@
                    && self.script.end == orig.script.end && self.trailers == orig.trailers,
                !orig.cancelled ==> chunks_view(out@) + spec_drain(
                    self.script.frames@,
                    self.trailers,
                ).0 == spec_drain(orig.script.frames@, orig.trailers).0 && spec_drain(
                    self.script.frames@,
                    self.trailers,
                ).1 == spec_drain(orig.script.frames@, orig.trailers).1 && self.script.end
                    == orig.script.end,
            ensures
                self.wf(),
                !self.read_lock,
                self.filled == orig.filled,
                self.cancelled == orig.cancelled,
                orig.cancelled ==> out@.len() == 0 && result == ReadOutcome::Ended,
                !orig.cancelled ==> ({
                    let d = spec_drain(orig.script.frames@, orig.trailers);
                    &&& chunks_view(out@) == d.0
                    &&& self.trailers == d.1
                    &&& self.script.frames@.len() == 0
                    &&& result == (match orig.script.end {
                        StreamEnd::Eof => ReadOutcome::Ended,
                        StreamEnd::Failed(m) => ReadOutcome::Failed(m),
                    })
                }),
            decreases self.script.frames@.len(),
        {
            let ghost pre = *self;
            let o = self.chunk();
            proof {
                if !orig.cancelled {
                    lemma_read_peels_drain(pre.script.frames@, pre.script.end, pre.trailers);
                    lemma_read_consumes(pre.script.frames@, pre.script.end, pre.trailers);
                    lemma_read_terminal(pre.script.frames@, pre.script.end, pre.trailers);
                }
            }
            match o {
                ReadOutcome::Chunk(c) => {
                    proof {
                        lemma_chunks_view_push(out@, c);
                        assert(chunks_view(out@).push(chunk_bytes(c)) + spec_drain(
                            self.script.frames@,
                            self.trailers,
                        ).0 =~~= chunks_view(out@) + (seq![chunk_bytes(c)] + spec_drain(
                            self.script.frames@,
                            self.trailers,
                        ).0));
                    }
                    out.push(c);
                },
                ReadOutcome::Ended => {
                    proof {
                        if !orig.cancelled {
                            assert(chunks_view(out@) =~~= spec_drain(
                                orig.script.frames@,
                                orig.trailers,
                            ).0);
                        }
                    }
                    result = ReadOutcome::Ended;
                    break;
                },
                ReadOutcome::Failed(m) => {
                    proof {
                        assert(chunks_view(out@) =~~= spec_drain(
                            orig.script.frames@,
                            orig.trailers,
                        ).0);
                    }
                    result = ReadOutcome::Failed(m);
                    break;
                },
            }
        }
        (out, result)
    }

    /// Cancel and release: set the cancel flag, then — holding the read
    /// lock free — drop the engine body handle, releasing any pooled
    /// connection resource. Trailers already observed are retained.
    pub fn close(&mut self)
        requires
            old(self).wf(),
            !old(self).read_lock,
        ensures
            final(self).wf(),
            ResponseBody::close_effect(*old(self), *final(self)),
    {
        self.cancelled = true;
        self.released = true;
        self.script.frames.clear();
        self.script.end = StreamEnd::Eof;
    }

    /// The non-blocking close: always set the cancel flag; drop the handle
    /// only if no read is in flight, and report whether that completed.
    pub fn try_close(&mut self) -> (done: bool)
        requires
            old(self).wf(),
        ensures
            final(self).wf(),
            final(self).cancelled,
            done == !old(self).read_lock,
            old(self).read_lock ==> *final(self) == (ResponseBody {
                cancelled: true,
                ..*old(self)
            }),
            !old(self).read_lock ==> ResponseBody::close_effect(*old(self), *final(self)),
    {
        self.cancelled = true;
        if self.read_lock {
            false
        } else {
            self.released = true;
            self.script.frames.clear();
            self.script.end = StreamEnd::Eof;
            true
        }
    }

    /// The trailing metadata, or nothing if none was observed: either the
    /// body has not reached its end, none exist, or it closed before the
    /// trailer frame arrived.
    pub fn trailers(&self) -> (r: Option<&Trailers>)
        ensures
            match r {
                Some(t) => self.trailers == Some(*t),
                None => self.trailers is None,
            },
    {
        self.trailers.as_ref()
    }
}

/// Map a read outcome to what the host-facing iterator does: a chunk is
/// handed over, an end stops the iteration, a failure is raised.
pub fn outcome_signal(o: ReadOutcome) -> (s: HostSignal)
    ensures
        s == (match o {
            ReadOutcome::Chunk(c) => HostSignal::Item(c),
            ReadOutcome::Ended => HostSignal::Stop,
            ReadOutcome::Failed(m) => HostSignal::Raise(m),
        }),
{
    match o {
        ReadOutcome::Chunk(c) => HostSignal::Item(c),
        ReadOutcome::Ended => HostSignal::Stop,
        ReadOutcome::Failed(m) => HostSignal::Raise(m),
    }
}

/// The body is handed to exactly one content iterator; afterwards the
/// slot only says it was shared.
pub enum ContentState {
    /// The body has not been handed out yet.
    Fresh(ResponseBody),
    /// A content iterator already owns the body.
    Shared,
}

/// Take the body out of the slot; only the first take gets it.
pub fn take_content(state: &mut ContentState) -> (r: Option<ResponseBody>)
    ensures
        *final(state) is Shared,
        match *old(state) {
            ContentState::Fresh(b) => r == Some(b),
            ContentState::Shared => r is None,
        },
{
    let mut taken = ContentState::Shared;
    std::mem::swap(state, &mut taken);
    match taken {
        ContentState::Fresh(b) => Some(b),
        ContentState::Shared => None,
    }
}

// ---------------------------------------------------------------------
// Laws of the read loop.
// ---------------------------------------------------------------------

/// A closed body only ever reads "ended": once the cancel flag is set,
/// the read loop yields an end immediately and never a failure, and the
/// stream is not touched.
pub proof fn lemma_closed_reads_end(s: ResponseBody)
    requires
        s.cancelled,
    ensures
        forall|post: ResponseBody, r: ReadOutcome|
            chunk_transition(s, post, r) ==> r == ReadOutcome::Ended && post.script.frames@
                == s.script.frames@ && post.trailers == s.trailers,
{
}

/// The relation `chunk` establishes between the body before a read, the
/// body after it, and the outcome.
pub open spec fn chunk_transition(pre: ResponseBody, post: ResponseBody, r: ReadOutcome) -> bool {
    if pre.cancelled {
        r == ReadOutcome::Ended && post.script.frames@ == pre.script.frames@ && post.script.end
            == pre.script.end && post.trailers == pre.trailers
    } else {
        spec_read(pre.script.frames@, pre.script.end, pre.trailers) == (
            r,
            post.script.frames@,
            post.script.end,
            post.trailers,
        )
    }
}

/// Closing twice changes nothing the second time: `close` is idempotent,
/// and a second close observes the same closed state.
pub proof fn lemma_close_idempotent(a: ResponseBody, b: ResponseBody, c: ResponseBody)
    requires
        ResponseBody::close_effect(a, b),
        ResponseBody::close_effect(b, c),
    ensures
        c.cancelled == b.cancelled,
        c.released == b.released,
        c.script.frames@ == b.script.frames@,
        c.script.end == b.script.end,
        c.trailers == b.trailers,
        c.filled == b.filled,
        c.read_lock == b.read_lock,
{
}

/// While data frames remain ahead of the trailer frame, each read yields
/// exactly the next data frame, whole, and the trailers stay unobserved.
pub proof fn lemma_data_prefix_read(front: Seq<FrameEvent>, t: Trailers)
    requires
        front.len() > 0,
        forall|i: int| 0 <= i < front.len() ==> front[i] is Data,
    ensures
        front[0] matches FrameEvent::Data(c) ==> spec_read(
            front + seq![FrameEvent::Trailer(t)],
            StreamEnd::Eof,
            None,
        ) == (
            ReadOutcome::Chunk(c),
            front.drop_first() + seq![FrameEvent::Trailer(t)],
            StreamEnd::Eof,
            Option::<Trailers>::None,
        ),
{
    let frames = front + seq![FrameEvent::Trailer(t)];
    assert(frames[0] == front[0]);
    assert(frames.drop_first() =~= front.drop_first() + seq![FrameEvent::Trailer(t)]);
}

/// Once only the trailer frame remains, the next read yields the end of
/// the body and the trailers become available, exactly then.
pub proof fn lemma_trailer_then_end_read(t: Trailers)
    ensures
        spec_read(seq![FrameEvent::Trailer(t)], StreamEnd::Eof, None) == (
            ReadOutcome::Ended,
            Seq::<FrameEvent>::empty(),
            StreamEnd::Eof,
            Some(t),
        ),
{
    let frames = seq![FrameEvent::Trailer(t)];
    assert(frames.drop_first() =~= Seq::<FrameEvent>::empty());
    assert(spec_read(frames.drop_first(), StreamEnd::Eof, Some(t)) == (
        ReadOutcome::Ended,
        frames.drop_first(),
        StreamEnd::Eof,
        Some(t),
    ));
}

/// The contents of a data frame; an empty sequence for any other frame.
pub open spec fn frame_data(f: FrameEvent) -> Seq<u8> {
    match f {
        FrameEvent::Data(c) => chunk_bytes(c),
        _ => Seq::empty(),
    }
}

/// Draining a frame stream to its end: every data frame's contents in
/// order, and the trailers standing when the end is reached — the last
/// trailer frame of the stream, or what was already recorded.
pub open spec fn spec_drain(frames: Seq<FrameEvent>, tr: Option<Trailers>) -> (
    Seq<Seq<u8>>,
    Option<Trailers>,
)
    decreases frames.len(),
{
    if frames.len() == 0 {
        (Seq::empty(), tr)
    } else {
        match frames[0] {
            FrameEvent::Data(c) => {
                let rest = spec_drain(frames.drop_first(), tr);
                (seq![chunk_bytes(c)] + rest.0, rest.1)
            },
            FrameEvent::Trailer(t) => spec_drain(frames.drop_first(), Some(t)),
            FrameEvent::Unknown => spec_drain(frames.drop_first(), tr),
        }
    }
}

/// Each read peels exactly the first element of the drain: a yielded
/// chunk is the drain's head and the rest of the drain survives the read
/// unchanged, a yielded end means nothing is left and the trailers stand
/// exactly as the drain says. Repeated reads therefore deliver the whole
/// drain, in order, once.
pub proof fn lemma_read_peels_drain(frames: Seq<FrameEvent>, end: StreamEnd, tr: Option<Trailers>)
    ensures
        ({
            let (o, fr2, end2, tr2) = spec_read(frames, end, tr);
            match o {
                ReadOutcome::Chunk(c) => spec_drain(frames, tr).0 == seq![chunk_bytes(c)]
                    + spec_drain(fr2, tr2).0 && spec_drain(frames, tr).1 == spec_drain(fr2, tr2).1,
                ReadOutcome::Ended => spec_drain(frames, tr).0 == Seq::<Seq<u8>>::empty()
                    && spec_drain(frames, tr).1 == tr2,
                ReadOutcome::Failed(m) => spec_drain(frames, tr).0 == Seq::<Seq<u8>>::empty()
                    && spec_drain(frames, tr).1 == tr2,
            }
        }),
    decreases frames.len(),
{
    if frames.len() > 0 {
        match frames[0] {
            FrameEvent::Data(c) => {
                assert(spec_drain(frames, tr).0 =~~= seq![chunk_bytes(c)] + spec_drain(
                    frames.drop_first(),
                    tr,
                ).0);
            },
            FrameEvent::Trailer(t) => {
                lemma_read_peels_drain(frames.drop_first(), end, Some(t));
            },
            FrameEvent::Unknown => {
                lemma_read_peels_drain(frames.drop_first(), end, tr);
            },
        }
    }
}

/// A stream of data frames followed by one trailer frame drains to
/// exactly those data frames' contents, in order, with the trailers
/// available exactly when the end is reached.
pub proof fn lemma_drain_data_then_trailer(front: Seq<FrameEvent>, t: Trailers)
    requires
        forall|i: int| 0 <= i < front.len() ==> front[i] is Data,
    ensures
        spec_drain(front + seq![FrameEvent::Trailer(t)], None).0 == front.map_values(
            |f: FrameEvent| frame_data(f),
        ),
        spec_drain(front + seq![FrameEvent::Trailer(t)], None).1 == Some(t),
    decreases front.len(),
{
    let frames = front + seq![FrameEvent::Trailer(t)];
    if front.len() == 0 {
        assert(frames[0] == FrameEvent::Trailer(t));
        assert(frames.drop_first() =~= Seq::<FrameEvent>::empty());
        assert(spec_drain(frames.drop_first(), Some(t)) == (Seq::<Seq<u8>>::empty(), Some(t)));
        assert(front.map_values(|f: FrameEvent| frame_data(f)) =~~= Seq::<Seq<u8>>::empty());
    } else {
        lemma_drain_data_then_trailer(front.drop_first(), t);
        assert(frames.drop_first() =~= front.drop_first() + seq![FrameEvent::Trailer(t)]);
        assert(frames[0] == front[0]);
        assert(front[0] is Data);
        assert(spec_drain(frames, None).0 =~~= seq![frame_data(front[0])] + spec_drain(
            frames.drop_first(),
            None,
        ).0);
        assert(front.map_values(|f: FrameEvent| frame_data(f)) =~~= seq![frame_data(front[0])]
            + front.drop_first().map_values(|f: FrameEvent| frame_data(f)));
    }
}

/// A read consumes frames: it never grows the stream, and a yielded chunk
/// consumed at least its own frame.
pub proof fn lemma_read_consumes(frames: Seq<FrameEvent>, end: StreamEnd, tr: Option<Trailers>)
    ensures
        spec_read(frames, end, tr).1.len() <= frames.len(),
        spec_read(frames, end, tr).0 is Chunk ==> spec_read(frames, end, tr).1.len()
            < frames.len(),
    decreases frames.len(),
{
    if frames.len() > 0 {
        match frames[0] {
            FrameEvent::Data(_) => {
            },
            FrameEvent::Trailer(t) => {
                lemma_read_consumes(frames.drop_first(), end, Some(t));
            },
            FrameEvent::Unknown => {
                lemma_read_consumes(frames.drop_first(), end, tr);
            },
        }
    }
}

/// How a read ends: an end outcome only comes from an exhausted stream,
/// with nothing left behind, and reflects the stream's own end exactly.
pub proof fn lemma_read_terminal(frames: Seq<FrameEvent>, end: StreamEnd, tr: Option<Trailers>)
    ensures
        ({
            let (o, fr2, end2, tr2) = spec_read(frames, end, tr);
            &&& (o is Ended ==> fr2.len() == 0 && end is Eof && end2 is Eof)
            &&& (match o {
                ReadOutcome::Failed(m) => fr2.len() == 0 && end == StreamEnd::Failed(m) && end2
                    is Eof,
                _ => true,
            })
            &&& (o is Chunk ==> end2 == end)
        }),
    decreases frames.len(),
{
    if frames.len() > 0 {
        match frames[0] {
            FrameEvent::Data(_) => {
            },
            FrameEvent::Trailer(t) => {
                lemma_read_terminal(frames.drop_first(), end, Some(t));
            },
            FrameEvent::Unknown => {
                lemma_read_terminal(frames.drop_first(), end, tr);
            },
        }
    }
}

/// A read never splits or merges frames: whatever chunk a read yields is
/// the whole content of one data frame of the stream.
pub proof fn lemma_reads_whole_frames(frames: Seq<FrameEvent>, end: StreamEnd, tr: Option<Trailers>)
    ensures
        spec_read(frames, end, tr).0 matches ReadOutcome::Chunk(c) ==> exists|i: int|
            0 <= i < frames.len() && frames[i] == FrameEvent::Data(c),
    decreases frames.len(),
{
    if frames.len() > 0 {
        match frames[0] {
            FrameEvent::Data(c) => {
                assert(frames[0] == FrameEvent::Data(c));
            },
            FrameEvent::Trailer(t) => {
                lemma_reads_whole_frames(frames.drop_first(), end, Some(t));
                assert forall|c: bytes::Bytes|
                    spec_read(frames, end, tr).0 == ReadOutcome::Chunk(c) implies exists|i: int|
                    0 <= i < frames.len() && frames[i] == FrameEvent::Data(c) by {
                    let j = choose|j: int|
                        0 <= j < frames.drop_first().len() && frames.drop_first()[j]
                            == FrameEvent::Data(c);
                    assert(frames[j + 1] == FrameEvent::Data(c));
                }
            },
            FrameEvent::Unknown => {
                lemma_reads_whole_frames(frames.drop_first(), end, tr);
                assert forall|c: bytes::Bytes|
                    spec_read(frames, end, tr).0 == ReadOutcome::Chunk(c) implies exists|i: int|
                    0 <= i < frames.len() && frames[i] == FrameEvent::Data(c) by {
                    let j = choose|j: int|
                        0 <= j < frames.drop_first().len() && frames.drop_first()[j]
                            == FrameEvent::Data(c);
                    assert(frames[j + 1] == FrameEvent::Data(c));
                }
            },
        }
    }
}

} // verus!
