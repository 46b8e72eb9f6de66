//! The bounded conduit that moves chunks and one end-of-stream signal from
//! the host-side producer to the engine-facing consumer.
//!
//! The model is sequential: each operation is one atomic step of the real
//! conduit, and an outcome such as `Busy` or `WouldBlock` stands for the
//! step on which the real caller would suspend. Chunks travel in producer
//! order; the terminal signal is observed only after every queued chunk.

use vstd::prelude::*;

use crate::chunk::chunks_view;

verus! {

/// How a finished producer left the stream.
pub enum Terminal {
    /// The producer ran out of items.
    Finished,
    /// The producer stopped on an error.
    Failed(String),
}

/// Result of a non-blocking send.
pub enum SendOutcome {
    /// The chunk was queued.
    Sent,
    /// No slot is free; the chunk comes back so the producer can retry
    /// once a permit is granted.
    Full(bytes::Bytes),
    /// The consumer is gone; the chunk is discarded silently.
    Disconnected,
}

/// Result of asking for a send permit.
pub enum ReserveOutcome {
    /// A slot is reserved; `commit_send` will accept one chunk.
    Granted,
    /// Every slot is taken; the real producer suspends here.
    Busy,
    /// The consumer is gone.
    Disconnected,
}

/// Result of a receive.
pub enum RecvOutcome {
    /// The oldest queued chunk.
    Chunk(bytes::Bytes),
    /// The producer finished; nothing more will arrive.
    Ended,
    /// The producer stopped on this error; delivered once.
    Failed(String),
    /// Nothing queued yet and the producer is still running; the real
    /// consumer suspends here.
    WouldBlock,
}

/// Bounded chunk conduit between one producer and one consumer.
pub struct ChunkChannel {
    /// Queued chunks, oldest first.
    pub queue: Vec<bytes::Bytes>,
    /// Slot count, fixed at creation.
    pub capacity: usize,
    /// Set once the producer has pushed its end or error signal.
    pub terminal: Option<Terminal>,
    /// False once the consumer dropped its end.
    pub receiver_live: bool,
    /// True while the producer holds a send permit.
    pub reserved: bool,
}

impl ChunkChannel {
    /// The queued chunk contents, oldest first.
    pub open spec fn queued(self) -> Seq<Seq<u8>> {
        chunks_view(self.queue@)
    }

    /// Slots in use, counting a held permit.
    pub open spec fn slots_taken(self) -> int {
        self.queue@.len() + if self.reserved {
            1int
        } else {
            0int
        }
    }

    pub open spec fn wf(self) -> bool {
        &&& 1 <= self.capacity <= 10
        &&& self.slots_taken() <= self.capacity
        &&& self.terminal is Some ==> !self.reserved
    }

    /// A fresh conduit with `capacity` slots.
    pub fn new(capacity: usize) -> (c: ChunkChannel)
        requires
            1 <= capacity <= 10,
        ensures
            c.wf(),
            c.queue@.len() == 0,
            c.capacity == capacity,
            c.terminal is None,
            c.receiver_live,
            !c.reserved,
    {
        ChunkChannel { queue: Vec::new(), capacity, terminal: None, receiver_live: true, reserved: false }
    }

    /// Queue one chunk if a slot is free and the consumer is still there.
    pub fn try_send(&mut self, c: bytes::Bytes) -> (r: SendOutcome)
        requires
            old(self).wf(),
            old(self).terminal is None,
        ensures
            final(self).wf(),
            final(self).capacity == old(self).capacity,
            final(self).terminal == old(self).terminal,
            final(self).receiver_live == old(self).receiver_live,
            final(self).reserved == old(self).reserved,
            !old(self).receiver_live ==> r is Disconnected && final(self).queue@ == old(self).queue@,
            old(self).receiver_live && old(self).slots_taken() == old(self).capacity ==> r
                == SendOutcome::Full(c) && final(self).queue@ == old(self).queue@,
            old(self).receiver_live && old(self).slots_taken() < old(self).capacity ==> r
                is Sent && final(self).queue@ == old(self).queue@.push(c),
    {
        if !self.receiver_live {
            SendOutcome::Disconnected
        } else if self.queue.len() + if self.reserved { 1 } else { 0 } == self.capacity {
            SendOutcome::Full(c)
        } else {
            self.queue.push(c);
            SendOutcome::Sent
        }
    }

    /// Reserve one slot ahead of sending; the capacity-one backpressure
    /// protocol reserves before the slot frees and commits on grant.
    pub fn try_reserve(&mut self) -> (r: ReserveOutcome)
        requires
            old(self).wf(),
            !old(self).reserved,
            old(self).terminal is None,
        ensures
            final(self).wf(),
            final(self).capacity == old(self).capacity,
            final(self).terminal == old(self).terminal,
            final(self).receiver_live == old(self).receiver_live,
            final(self).queue@ == old(self).queue@,
            !old(self).receiver_live ==> r is Disconnected && !final(self).reserved,
            old(self).receiver_live && old(self).queue@.len() == old(self).capacity ==> r
                is Busy && !final(self).reserved,
            old(self).receiver_live && old(self).queue@.len() < old(self).capacity ==> r
                is Granted && final(self).reserved,
    {
        if !self.receiver_live {
            ReserveOutcome::Disconnected
        } else if self.queue.len() == self.capacity {
            ReserveOutcome::Busy
        } else {
            self.reserved = true;
            ReserveOutcome::Granted
        }
    }

    /// Send on a held permit. The reserved slot guarantees room; if the
    /// consumer left meanwhile the chunk is dropped silently.
    pub fn commit_send(&mut self, c: bytes::Bytes)
        requires
            old(self).wf(),
            old(self).reserved,
        ensures
            final(self).wf(),
            final(self).capacity == old(self).capacity,
            final(self).terminal == old(self).terminal,
            final(self).receiver_live == old(self).receiver_live,
            !final(self).reserved,
            old(self).receiver_live ==> final(self).queue@ == old(self).queue@.push(c),
            !old(self).receiver_live ==> final(self).queue@ == old(self).queue@,
    {
        self.reserved = false;
        if self.receiver_live {
            self.queue.push(c);
        }
    }

    /// The producer is done: everything queued stays deliverable, and the
    /// consumer sees the end after draining it.
    pub fn push_end(&mut self)
        requires
            old(self).wf(),
            old(self).terminal is None,
            !old(self).reserved,
        ensures
            final(self).wf(),
            *final(self) == (ChunkChannel { terminal: Some(Terminal::Finished), ..*old(self) }),
    {
        self.terminal = Some(Terminal::Finished);
    }

    /// The producer stopped on an error; the consumer sees it after
    /// draining the queue.
    pub fn push_failure(&mut self, message: String)
        requires
            old(self).wf(),
            old(self).terminal is None,
            !old(self).reserved,
        ensures
            final(self).wf(),
            *final(self) == (ChunkChannel { terminal: Some(Terminal::Failed(message)), ..*old(self) }),
    {
        self.terminal = Some(Terminal::Failed(message));
    }

    /// Take the oldest chunk, or observe the terminal signal once the
    /// queue is drained. A failure is delivered once; reads after it see
    /// a plain end.
    pub fn recv(&mut self) -> (r: RecvOutcome)
        requires
            old(self).wf(),
        ensures
            final(self).wf(),
            final(self).capacity == old(self).capacity,
            final(self).receiver_live == old(self).receiver_live,
            final(self).reserved == old(self).reserved,
            old(self).queue@.len() > 0 ==> r == RecvOutcome::Chunk(old(self).queue@[0])
                && final(self).queue@ == old(self).queue@.drop_first()
                && final(self).terminal == old(self).terminal,
            old(self).queue@.len() == 0 ==> final(self).queue@ == old(self).queue@,
            old(self).queue@.len() == 0 && old(self).terminal is None ==> r is WouldBlock
                && final(self).terminal == old(self).terminal,
            old(self).queue@.len() == 0 && old(self).terminal == Some(Terminal::Finished) ==> r
                == RecvOutcome::Ended && final(self).terminal == old(self).terminal,
            old(self).queue@.len() == 0 ==> (match old(self).terminal {
                Some(Terminal::Failed(m)) => r == RecvOutcome::Failed(m) && final(self).terminal
                    == Some(Terminal::Finished),
                _ => true,
            }),
    {
        if self.queue.len() > 0 {
            let c = self.queue.remove(0);
            proof {
                assert(self.queue@ =~= old(self).queue@.drop_first());
            }
            RecvOutcome::Chunk(c)
        } else {
            match self.terminal.take() {
                None => RecvOutcome::WouldBlock,
                Some(Terminal::Finished) => {
                    self.terminal = Some(Terminal::Finished);
                    RecvOutcome::Ended
                },
                Some(Terminal::Failed(m)) => {
                    self.terminal = Some(Terminal::Finished);
                    RecvOutcome::Failed(m)
                },
            }
        }
    }

    /// The consumer dropped its end; later sends stop silently.
    pub fn drop_receiver(&mut self)
        requires
            old(self).wf(),
        ensures
            final(self).wf(),
            *final(self) == (ChunkChannel { receiver_live: false, ..*old(self) }),
    {
        self.receiver_live = false;
    }
}

} // verus!
