//! In-memory readable and writable stream objects.
//!
//! The standard streams of a guest are redirected to these adapters:
//! a read-only source and a write-only sink, each over a plain byte
//! buffer.  The view of a pipe is the byte sequence it holds, so a
//! contract can say exactly what a write made the sink observe.

use vstd::prelude::*;

verus! {

/// A read-only in-memory stream.
pub struct ReadPipe {
    contents: Vec<u8>,
}

impl View for ReadPipe {
    type V = Seq<u8>;

    closed spec fn view(&self) -> Seq<u8> {
        self.contents@
    }
}

impl ReadPipe {
    /// Creates a pipe that will yield exactly `contents`.
    pub fn new(contents: Vec<u8>) -> (r: ReadPipe)
        ensures
            r@ == contents@,
    {
        ReadPipe { contents }
    }

    /// The bytes the pipe holds.
    pub fn contents(&self) -> (r: &Vec<u8>)
        ensures
            r@ == self@,
    {
        &self.contents
    }
}

/// A write-only in-memory sink that records every byte written to it,
/// in order.
pub struct WritePipe {
    contents: Vec<u8>,
}

impl View for WritePipe {
    type V = Seq<u8>;

    closed spec fn view(&self) -> Seq<u8> {
        self.contents@
    }
}

impl WritePipe {
    /// Creates an empty sink.
    pub fn new() -> (r: WritePipe)
        ensures
            r@ == Seq::<u8>::empty(),
    {
        let r = WritePipe { contents: Vec::new() };
        proof {
            assert(r.contents@ =~= Seq::<u8>::empty());
        }
        r
    }

    /// Appends `data` to the sink.
    pub fn write_all(&mut self, data: &[u8])
        ensures
            final(self)@ == old(self)@ + data@,
    {
        let ghost old_contents = self.contents@;
        self.contents.extend_from_slice(data);
        proof {
            assert(self.contents@ =~= old_contents + data@);
        }
    }

    /// The bytes written so far.
    pub fn contents(&self) -> (r: &Vec<u8>)
        ensures
            r@ == self@,
    {
        &self.contents
    }
}

} // verus!
