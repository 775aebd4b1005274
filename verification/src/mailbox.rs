//! The bounded mailbox connecting the producer actor to the consumer actor.
//!
//! A mailbox is a strict FIFO queue of up to [`MESSAGE_STREAM_SIZE`] chunks
//! with exactly one producer and one consumer. The queue itself is an
//! `embassy_sync` channel; this module wraps its non-blocking operations in
//! a verified interface. The blocking `send`/`receive` of the original
//! channel suspend the calling task until the operation can complete; here
//! the same backpressure appears as the `Err`/`None` outcome of [`Mailbox::send`]
//! and [`Mailbox::receive`], on which the surrounding scheduler suspends the
//! task and retries. A full mailbox never drops a message: the rejected
//! chunk is handed back to the sender unchanged.

use embassy_sync::blocking_mutex::raw::NoopRawMutex;
use embassy_sync::channel::Channel;
use embassy_sync::channel::TrySendError;

use crate::chunk::Chunk;
use vstd::prelude::*;

verus! {

/// Fixed capacity of every mailbox: at most this many pending messages.
pub const MESSAGE_STREAM_SIZE: usize = 16;

/// The pending chunks of `c`'s queue, front (oldest) first, each as its
/// byte sequence.
pub uninterp spec fn channel_contents(c: ChunkChannel) -> Seq<Seq<u8>>;

/// A channel of chunks with capacity [`MESSAGE_STREAM_SIZE`], held opaquely:
/// its queue is reached only through the trusted operations below, which
/// describe it via [`channel_contents`].
#[verifier::external_body]
pub struct ChunkChannel {
    ch: Channel<NoopRawMutex, Chunk, MESSAGE_STREAM_SIZE>,
}

/// Relies on `embassy_sync::channel::Channel::new`: a new channel holds no
/// messages.
#[verifier::external_body]
fn channel_new() -> (c: ChunkChannel)
    ensures
        channel_contents(c) == Seq::<Seq<u8>>::empty(),
{
    ChunkChannel { ch: Channel::new() }
}

/// Relies on `embassy_sync::channel::Channel::try_send`: when the queue is
/// full the message comes back in `TrySendError::Full` and the queue is
/// unchanged; otherwise the message is appended at the back.
#[verifier::external_body]
fn channel_try_send(c: &mut ChunkChannel, m: Chunk) -> (r: Result<(), Chunk>)
    ensures
        channel_contents(*old(c)).len() >= MESSAGE_STREAM_SIZE ==> {
            &&& r == Err::<(), Chunk>(m)
            &&& channel_contents(*final(c)) == channel_contents(*old(c))
        },
        channel_contents(*old(c)).len() < MESSAGE_STREAM_SIZE ==> {
            &&& r == Ok::<(), Chunk>(())
            &&& channel_contents(*final(c)) == channel_contents(*old(c)).push(m@)
        },
{
    match c.ch.try_send(m) {
        Ok(()) => Ok(()),
        Err(TrySendError::Full(back)) => Err(back),
    }
}

/// Relies on `embassy_sync::channel::Channel::try_receive`: it pops the
/// front (oldest) message of the queue, or reports the queue empty and
/// leaves it unchanged.
#[verifier::external_body]
fn channel_try_receive(c: &mut ChunkChannel) -> (r: Option<Chunk>)
    ensures
        channel_contents(*old(c)).len() == 0 ==> {
            &&& r is None
            &&& channel_contents(*final(c)) == channel_contents(*old(c))
        },
        channel_contents(*old(c)).len() > 0 ==> {
            &&& r is Some
            &&& r.unwrap()@ == channel_contents(*old(c)).first()
            &&& channel_contents(*final(c)) == channel_contents(*old(c)).drop_first()
        },
{
    match c.ch.try_receive() {
        Ok(m) => Some(m),
        Err(_) => None,
    }
}

/// Relies on `embassy_sync::channel::Channel::len`: the number of messages
/// currently queued.
#[verifier::external_body]
fn channel_len(c: &ChunkChannel) -> (n: usize)
    ensures
        n == channel_contents(*c).len(),
{
    c.ch.len()
}

/// One send attempt on the queue `q`: the new queue, and whether the
/// message was accepted. A full queue rejects the message and is unchanged.
pub open spec fn spec_send(q: Seq<Seq<u8>>, x: Seq<u8>) -> (Seq<Seq<u8>>, bool) {
    if q.len() < MESSAGE_STREAM_SIZE {
        (q.push(x), true)
    } else {
        (q, false)
    }
}

/// One receive attempt on the queue `q`: the new queue, and the message
/// delivered, oldest first. An empty queue delivers nothing.
pub open spec fn spec_receive(q: Seq<Seq<u8>>) -> (Seq<Seq<u8>>, Option<Seq<u8>>) {
    if q.len() > 0 {
        (q.drop_first(), Some(q.first()))
    } else {
        (q, None)
    }
}

/// A bounded single-producer/single-consumer FIFO mailbox of chunks.
pub struct Mailbox {
    chan: ChunkChannel,
}

impl View for Mailbox {
    type V = Seq<Seq<u8>>;

    closed spec fn view(&self) -> Seq<Seq<u8>> {
        channel_contents(self.chan)
    }
}

impl Mailbox {
    /// A mailbox is well formed when it is within capacity and every
    /// pending message fits the chunk bound.
    pub open spec fn wf(&self) -> bool {
        &&& self@.len() <= MESSAGE_STREAM_SIZE
        &&& forall|i: int| 0 <= i < self@.len() ==> self@[i].len() <= crate::chunk::UART_READ_CHUNK_SIZE
    }

    /// Creates an empty mailbox.
    pub fn new() -> (m: Mailbox)
        ensures
            m@ == Seq::<Seq<u8>>::empty(),
            m.wf(),
    {
        Mailbox { chan: channel_new() }
    }

    /// Attempts to enqueue `c` at the back of the mailbox. On a full
    /// mailbox the chunk comes back unchanged in `Err`, and the caller's
    /// task is to suspend and retry once a receive has freed a slot: the
    /// message is never dropped.
    pub fn send(&mut self, c: Chunk) -> (r: Result<(), Chunk>)
        requires
            old(self).wf(),
            c.wf(),
        ensures
            final(self).wf(),
            final(self)@ == spec_send(old(self)@, c@).0,
            r is Ok <==> spec_send(old(self)@, c@).1,
            old(self)@.len() < MESSAGE_STREAM_SIZE ==> r == Ok::<(), Chunk>(())
                && final(self)@ == old(self)@.push(c@),
            old(self)@.len() >= MESSAGE_STREAM_SIZE ==> r == Err::<(), Chunk>(c)
                && final(self)@ == old(self)@,
    {
        channel_try_send(&mut self.chan, c)
    }

    /// Attempts to dequeue the oldest pending chunk. On an empty mailbox
    /// nothing is delivered, and the caller's task is to suspend and retry
    /// once a send has queued a message.
    pub fn receive(&mut self) -> (r: Option<Chunk>)
        requires
            old(self).wf(),
        ensures
            final(self).wf(),
            final(self)@ == spec_receive(old(self)@).0,
            old(self)@.len() == 0 ==> r is None && final(self)@ == old(self)@,
            old(self)@.len() > 0 ==> {
                &&& r is Some
                &&& r.unwrap()@ == old(self)@.first()
                &&& r.unwrap().wf()
                &&& final(self)@ == old(self)@.drop_first()
            },
    {
        channel_try_receive(&mut self.chan)
    }

    /// The number of pending messages.
    pub fn len(&self) -> (n: usize)
        ensures
            n == self@.len(),
    {
        channel_len(&self.chan)
    }

    /// Whether the mailbox holds no pending message.
    pub fn is_empty(&self) -> (e: bool)
        ensures
            e <==> self@.len() == 0,
    {
        self.len() == 0
    }

    /// Whether the mailbox is at capacity, so that the next send would
    /// suspend its sender.
    pub fn is_full(&self) -> (f: bool)
        requires
            self.wf(),
        ensures
            f <==> self@.len() >= MESSAGE_STREAM_SIZE,
    {
        self.len() == MESSAGE_STREAM_SIZE
    }
}

/// The queue after the sends of `xs`, oldest first, are attempted in order
/// on the queue `q`.
pub open spec fn send_all(q: Seq<Seq<u8>>, xs: Seq<Seq<u8>>) -> Seq<Seq<u8>>
    decreases xs.len(),
{
    if xs.len() == 0 {
        q
    } else {
        send_all(spec_send(q, xs.first()).0, xs.drop_first())
    }
}

/// Whether every send of `xs`, attempted in order on the queue `q`, is
/// accepted without ever finding the queue full.
pub open spec fn sends_all_accepted(q: Seq<Seq<u8>>, xs: Seq<Seq<u8>>) -> bool
    decreases xs.len(),
{
    if xs.len() == 0 {
        true
    } else {
        spec_send(q, xs.first()).1 && sends_all_accepted(spec_send(q, xs.first()).0, xs.drop_first())
    }
}

/// The messages delivered, in order, by receiving until the queue `q` is
/// empty.
pub open spec fn drain_all(q: Seq<Seq<u8>>) -> Seq<Seq<u8>>
    decreases q.len(),
{
    if q.len() == 0 {
        Seq::<Seq<u8>>::empty()
    } else {
        seq![spec_receive(q).1.unwrap()] + drain_all(spec_receive(q).0)
    }
}

/// Draining a queue delivers exactly its pending messages, front first.
pub proof fn lemma_drain_all(q: Seq<Seq<u8>>)
    ensures
        drain_all(q) == q,
    decreases q.len(),
{
    if q.len() > 0 {
        lemma_drain_all(q.drop_first());
        assert(seq![q.first()] + q.drop_first() =~= q);
    } else {
        assert(drain_all(q) =~= q);
    }
}

/// Sends within spare capacity are all accepted and append in order.
pub proof fn lemma_send_all(q: Seq<Seq<u8>>, xs: Seq<Seq<u8>>)
    requires
        q.len() + xs.len() <= MESSAGE_STREAM_SIZE,
    ensures
        sends_all_accepted(q, xs),
        send_all(q, xs) == q + xs,
    decreases xs.len(),
{
    if xs.len() == 0 {
        assert(q + xs =~= q);
    } else {
        lemma_send_all(q.push(xs.first()), xs.drop_first());
        assert(q.push(xs.first()) + xs.drop_first() =~= q + xs);
    }
}

/// FIFO delivery: any sequence of at most [`MESSAGE_STREAM_SIZE`] sends on
/// an empty mailbox is accepted in full, and receiving them all back
/// delivers exactly the sent messages in send order.
pub proof fn lemma_fifo_order(xs: Seq<Seq<u8>>)
    requires
        xs.len() <= MESSAGE_STREAM_SIZE,
    ensures
        sends_all_accepted(Seq::<Seq<u8>>::empty(), xs),
        send_all(Seq::<Seq<u8>>::empty(), xs) == xs,
        drain_all(send_all(Seq::<Seq<u8>>::empty(), xs)) == xs,
{
    lemma_send_all(Seq::<Seq<u8>>::empty(), xs);
    assert(Seq::<Seq<u8>>::empty() + xs =~= xs);
    lemma_drain_all(xs);
}

/// Bounded capacity: a well-formed mailbox never holds more than
/// [`MESSAGE_STREAM_SIZE`] pending messages; a send on a full mailbox
/// enqueues nothing and is rejected, and the same send is accepted as soon
/// as one receive has freed a slot.
pub proof fn lemma_bounded_capacity(m: Mailbox, x: Seq<u8>)
    requires
        m.wf(),
    ensures
        m@.len() <= MESSAGE_STREAM_SIZE,
        m@.len() == MESSAGE_STREAM_SIZE ==> spec_send(m@, x) == (m@, false),
        m@.len() == MESSAGE_STREAM_SIZE ==> spec_send(spec_receive(m@).0, x).1,
{
}

} // verus!
