//! The producer actor: serial reads become mailbox messages.
//!
//! [`UartReader`] turns the outcome of each serial read into pipeline
//! progress. A failed read is logged by the surrounding task and skipped —
//! no partial message is emitted and the next read follows immediately. A
//! successful read of `N` bytes becomes exactly one chunk of those `N`
//! bytes (truncated to the fixed chunk size), sent to the sink's mailbox.
//! When the mailbox is full the chunk is not dropped: the reader holds it
//! as pending and the surrounding task suspends reading until
//! [`UartReader::retry_send`] has placed it, which is the pipeline's only
//! flow control.

use crate::chunk::Chunk;
use crate::chunk::UART_READ_CHUNK_SIZE;
use crate::mailbox::Mailbox;
use crate::mailbox::MESSAGE_STREAM_SIZE;
use vstd::math::min;
use vstd::prelude::*;

verus! {

/// The chunk a byte sequence read from the serial peripheral becomes:
/// the first [`UART_READ_CHUNK_SIZE`] bytes of it.
pub open spec fn chunk_of_read(b: Seq<u8>) -> Seq<u8> {
    b.take(min(b.len() as int, UART_READ_CHUNK_SIZE as int))
}

/// The producer actor. Its view is the chunk it still has to place into
/// the mailbox, if the last send found the mailbox full.
pub struct UartReader {
    pending: Option<Chunk>,
}

impl View for UartReader {
    type V = Option<Seq<u8>>;

    closed spec fn view(&self) -> Option<Seq<u8>> {
        match self.pending {
            Some(c) => Some(c@),
            None => None,
        }
    }
}

impl UartReader {
    /// A pending chunk, if any, fits the chunk bound.
    pub open spec fn wf(&self) -> bool {
        self@ is Some ==> self@.unwrap().len() <= UART_READ_CHUNK_SIZE
    }

    /// Whether the reader is suspended on a full mailbox, holding the
    /// chunk it could not place.
    pub open spec fn blocked(&self) -> bool {
        self@ is Some
    }

    /// A fresh reader holds nothing and is ready to read.
    pub fn new() -> (r: UartReader)
        ensures
            r@ is None,
            r.wf(),
    {
        UartReader { pending: None }
    }

    /// Handles the outcome of one serial read. A failed read (`None`)
    /// changes nothing: the iteration is skipped. A successful read
    /// becomes one chunk of exactly its bytes, enqueued if the mailbox
    /// has room and held as pending otherwise.
    pub fn on_read(&mut self, mailbox: &mut Mailbox, read: Option<&[u8]>) -> (queued: bool)
        requires
            !old(self).blocked(),
            old(self).wf(),
            old(mailbox).wf(),
        ensures
            final(self).wf(),
            final(mailbox).wf(),
            read is None ==> {
                &&& !queued
                &&& !final(self).blocked()
                &&& final(mailbox)@ == old(mailbox)@
            },
            read is Some ==> {
                let c = chunk_of_read(read.unwrap()@);
                &&& (old(mailbox)@.len() < MESSAGE_STREAM_SIZE ==> {
                    &&& queued
                    &&& !final(self).blocked()
                    &&& final(mailbox)@ == old(mailbox)@.push(c)
                })
                &&& (old(mailbox)@.len() >= MESSAGE_STREAM_SIZE ==> {
                    &&& !queued
                    &&& final(self)@ == Some(c)
                    &&& final(mailbox)@ == old(mailbox)@
                })
            },
    {
        match read {
            None => false,
            Some(b) => {
                let c = Chunk::from_bytes(b);
                match mailbox.send(c) {
                    Ok(()) => true,
                    Err(back) => {
                        self.pending = Some(back);
                        false
                    },
                }
            },
        }
    }

    /// Retries placing the pending chunk once the consumer may have freed
    /// a slot. The chunk is enqueued as soon as the mailbox has room and
    /// is never dropped.
    pub fn retry_send(&mut self, mailbox: &mut Mailbox) -> (queued: bool)
        requires
            old(self).blocked(),
            old(self).wf(),
            old(mailbox).wf(),
        ensures
            final(self).wf(),
            final(mailbox).wf(),
            old(mailbox)@.len() < MESSAGE_STREAM_SIZE ==> {
                &&& queued
                &&& !final(self).blocked()
                &&& final(mailbox)@ == old(mailbox)@.push(old(self)@.unwrap())
            },
            old(mailbox)@.len() >= MESSAGE_STREAM_SIZE ==> {
                &&& !queued
                &&& final(self)@ == old(self)@
                &&& final(mailbox)@ == old(mailbox)@
            },
    {
        let c = self.pending.take().unwrap();
        match mailbox.send(c) {
            Ok(()) => true,
            Err(back) => {
                self.pending = Some(back);
                false
            },
        }
    }
}

} // verus!
