//! The assembled pipeline: serial bytes in, socket chunks out.
//!
//! [`Relay`] wires the producer to the consumer exactly as the device
//! does: each successful serial read becomes one chunk, the chunk passes
//! through the bounded mailbox under backpressure, and the sink hands it
//! to the socket writer in arrival order. The relay keeps two ghost
//! histories — the chunks accepted from the serial side and the chunks
//! delivered to the socket side — and its well-formedness pins the whole
//! pipeline between them: everything accepted is delivered exactly once,
//! in order, with chunk boundaries intact, once the queue drains.

use crate::chunk::Chunk;
use crate::mailbox::Mailbox;
use crate::mailbox::MESSAGE_STREAM_SIZE;
use crate::reader::chunk_of_read;
use crate::reader::UartReader;
use vstd::prelude::*;

verus! {

/// The bytes of the chunks of `cs`, concatenated in order.
pub open spec fn concat_chunks(cs: Seq<Seq<u8>>) -> Seq<u8>
    decreases cs.len(),
{
    if cs.len() == 0 {
        Seq::<u8>::empty()
    } else {
        concat_chunks(cs.drop_last()) + cs.last()
    }
}

/// The producer/consumer pipeline from the serial reader to the socket
/// writer, with the bounded mailbox between them.
pub struct Relay {
    reader: UartReader,
    mailbox: Mailbox,
    accepted: Ghost<Seq<Seq<u8>>>,
    delivered: Ghost<Seq<Seq<u8>>>,
}

impl Relay {
    /// The chunks accepted from the serial side so far, in read order.
    pub closed spec fn accepted(&self) -> Seq<Seq<u8>> {
        self.accepted@
    }

    /// The chunks handed to the socket writer so far, in write order.
    pub closed spec fn delivered(&self) -> Seq<Seq<u8>> {
        self.delivered@
    }

    /// The chunks pending in the mailbox, oldest first.
    pub closed spec fn queued(&self) -> Seq<Seq<u8>> {
        self.mailbox@
    }

    /// Whether the producer is suspended on a full mailbox, holding one
    /// accepted but not yet queued chunk.
    pub closed spec fn blocked(&self) -> bool {
        self.reader.blocked()
    }

    /// The chunk the blocked producer still holds, as a sequence: one
    /// entry when blocked, none otherwise.
    pub closed spec fn held(&self) -> Seq<Seq<u8>> {
        match self.reader@ {
            Some(b) => seq![b],
            None => Seq::<Seq<u8>>::empty(),
        }
    }

    /// The pipeline invariant: its parts are well formed, and every
    /// accepted chunk is in exactly one place — delivered, queued, or
    /// held by the blocked producer — in read order.
    pub closed spec fn wf(&self) -> bool {
        &&& self.reader.wf()
        &&& self.mailbox.wf()
        &&& self.accepted@ == self.delivered@ + self.mailbox@ + self.held()
    }

    /// A fresh pipeline: nothing accepted, queued or delivered.
    pub fn new() -> (r: Relay)
        ensures
            r.wf(),
            r.accepted() == Seq::<Seq<u8>>::empty(),
            r.delivered() == Seq::<Seq<u8>>::empty(),
            r.queued() == Seq::<Seq<u8>>::empty(),
            !r.blocked(),
    {
        let r = Relay {
            reader: UartReader::new(),
            mailbox: Mailbox::new(),
            accepted: Ghost(Seq::<Seq<u8>>::empty()),
            delivered: Ghost(Seq::<Seq<u8>>::empty()),
        };
        proof {
            assert(r.accepted@ =~= r.delivered@ + r.mailbox@ + r.held());
        }
        r
    }

    /// Feeds the outcome of one serial read into the pipeline. A failed
    /// read is skipped. A successful read is accepted as one chunk of
    /// exactly its bytes; if the mailbox is full the producer blocks on
    /// it, and nothing is lost.
    pub fn on_read(&mut self, read: Option<&[u8]>) -> (queued: bool)
        requires
            old(self).wf(),
            !old(self).blocked(),
        ensures
            final(self).wf(),
            final(self).delivered() == old(self).delivered(),
            read is None ==> {
                &&& final(self).accepted() == old(self).accepted()
                &&& final(self).queued() == old(self).queued()
                &&& !final(self).blocked()
                &&& !queued
            },
            read is Some ==> {
                &&& final(self).accepted() == old(self).accepted().push(
                    chunk_of_read(read.unwrap()@),
                )
                &&& (queued <==> old(self).queued().len() < MESSAGE_STREAM_SIZE)
                &&& (queued ==> !final(self).blocked() && final(self).queued() == old(
                    self,
                ).queued().push(chunk_of_read(read.unwrap()@)))
                &&& (!queued ==> final(self).blocked() && final(self).queued() == old(
                    self,
                ).queued())
            },
    {
        let queued = self.reader.on_read(&mut self.mailbox, read);
        if read.is_some() {
            proof {
                self.accepted@ = self.accepted@.push(chunk_of_read(read.unwrap()@));
                assert(self.accepted@ =~= self.delivered@ + self.mailbox@ + self.held());
            }
        }
        queued
    }

    /// Retries the blocked producer's send once the consumer may have
    /// freed a slot; the held chunk is queued as soon as there is room.
    pub fn retry_send(&mut self) -> (queued: bool)
        requires
            old(self).wf(),
            old(self).blocked(),
        ensures
            final(self).wf(),
            final(self).accepted() == old(self).accepted(),
            final(self).delivered() == old(self).delivered(),
            queued <==> old(self).queued().len() < MESSAGE_STREAM_SIZE,
            queued ==> !final(self).blocked() && final(self).queued() == old(self).queued() + old(
                self,
            ).held(),
            !queued ==> final(self).blocked() && final(self).queued() == old(self).queued(),
    {
        let queued = self.reader.retry_send(&mut self.mailbox);
        proof {
            assert(self.accepted@ =~= self.delivered@ + self.mailbox@ + self.held());
        }
        queued
    }

    /// Takes the oldest queued chunk for the socket writer, which writes
    /// it in full before the next one is taken: delivery order is arrival
    /// order.
    pub fn next_chunk(&mut self) -> (c: Option<Chunk>)
        requires
            old(self).wf(),
        ensures
            final(self).wf(),
            final(self).accepted() == old(self).accepted(),
            final(self).blocked() == old(self).blocked(),
            old(self).queued().len() == 0 ==> {
                &&& c is None
                &&& final(self).delivered() == old(self).delivered()
                &&& final(self).queued() == old(self).queued()
            },
            old(self).queued().len() > 0 ==> {
                &&& c is Some
                &&& c.unwrap()@ == old(self).queued().first()
                &&& c.unwrap().wf()
                &&& final(self).delivered() == old(self).delivered().push(
                    old(self).queued().first(),
                )
                &&& final(self).queued() == old(self).queued().drop_first()
            },
    {
        let c = self.mailbox.receive();
        if c.is_some() {
            proof {
                self.delivered@ = self.delivered@.push(old(self).mailbox@.first());
            }
        }
        proof {
            if old(self).queued().len() > 0 {
                assert(old(self).delivered@ + old(self).mailbox@ + old(self).held() =~= (old(
                    self,
                ).delivered@.push(old(self).mailbox@.first())) + old(self).mailbox@.drop_first()
                    + old(self).held());
            }
            assert(self.accepted@ =~= self.delivered@ + self.mailbox@ + self.held());
        }
        c
    }
}

/// No message is lost or duplicated under backpressure: at every
/// reachable pipeline state the delivered chunks are exactly the first
/// delivered-many accepted chunks, and once the queue is drained and the
/// producer unblocked, everything accepted has been delivered — each
/// chunk exactly once, in order.
pub proof fn lemma_no_message_loss(r: Relay)
    requires
        r.wf(),
    ensures
        r.delivered().len() <= r.accepted().len(),
        r.delivered() == r.accepted().take(r.delivered().len() as int),
        r.queued().len() == 0 && !r.blocked() ==> r.delivered() == r.accepted(),
{
    assert(r.delivered() =~= r.accepted().take(r.delivered().len() as int));
    if r.queued().len() == 0 && !r.blocked() {
        assert(r.delivered() =~= r.accepted());
    }
}

/// Byte-exact passthrough: once the queue is drained and the producer
/// unblocked, the chunks handed to the socket are the accepted chunks
/// themselves — boundaries preserved, one write per read — and their
/// bytes, concatenated in write order, equal the bytes read,
/// concatenated in read order.
pub proof fn lemma_byte_exact_passthrough(r: Relay)
    requires
        r.wf(),
        r.queued().len() == 0,
        !r.blocked(),
    ensures
        r.delivered() == r.accepted(),
        concat_chunks(r.delivered()) == concat_chunks(r.accepted()),
{
    lemma_no_message_loss(r);
}

} // verus!
