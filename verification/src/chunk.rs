//! The message unit of the relay pipeline: one bounded chunk of serial bytes.
//!
//! Every serial read produces at most `UART_READ_CHUNK_SIZE` bytes, and each
//! successful read becomes exactly one [`Chunk`]. A chunk is immutable once
//! built, is never split or merged by the pipeline, and its bytes reach the
//! socket exactly as they were read.

use vstd::math::min;
use vstd::prelude::*;

verus! {

/// Upper bound, in bytes, on one serial read and therefore on one chunk.
pub const UART_READ_CHUNK_SIZE: usize = 32;

/// An immutable byte chunk of at most [`UART_READ_CHUNK_SIZE`] bytes,
/// carried as one message from the serial reader to the network sink.
pub struct Chunk {
    bytes: Vec<u8>,
}

impl View for Chunk {
    type V = Seq<u8>;

    closed spec fn view(&self) -> Seq<u8> {
        self.bytes@
    }
}

impl Chunk {
    /// A chunk is well formed when it fits the fixed serial read size.
    pub open spec fn wf(&self) -> bool {
        self@.len() <= UART_READ_CHUNK_SIZE
    }

    /// Builds a chunk from the bytes a serial read delivered, keeping the
    /// first [`UART_READ_CHUNK_SIZE`] bytes and dropping any excess.
    pub fn from_bytes(data: &[u8]) -> (c: Chunk)
        ensures
            c@ == data@.take(min(data@.len() as int, UART_READ_CHUNK_SIZE as int)),
            c.wf(),
    {
        let keep: usize = if data.len() < UART_READ_CHUNK_SIZE {
            data.len()
        } else {
            UART_READ_CHUNK_SIZE
        };
        let mut bytes: Vec<u8> = Vec::new();
        let mut i: usize = 0;
        while i < keep
            invariant
                i <= keep,
                keep <= data@.len(),
                keep <= UART_READ_CHUNK_SIZE,
                keep == min(data@.len() as int, UART_READ_CHUNK_SIZE as int),
                bytes@ == data@.take(i as int),
            decreases keep - i,
        {
            bytes.push(data[i]);
            proof {
                assert(bytes@ =~= data@.take(i + 1 as int));
            }
            i = i + 1;
        }
        proof {
            assert(bytes@ =~= data@.take(keep as int));
        }
        Chunk { bytes }
    }

    /// The number of bytes in the chunk.
    pub fn len(&self) -> (n: usize)
        ensures
            n == self@.len(),
    {
        self.bytes.len()
    }

    /// The bytes the chunk carries, exactly as they were read.
    pub fn bytes(&self) -> (b: &[u8])
        ensures
            b@ == self@,
    {
        self.bytes.as_slice()
    }
}

} // verus!
