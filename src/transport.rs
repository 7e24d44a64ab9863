//! Pairing a frame header with the binary payload that follows it.
//!
//! After a header that declares `size`, exactly `size` bytes of the same
//! ordered channel belong to that frame. The caller reads the channel and
//! feeds what arrives; bytes past the payload are left to the caller. When
//! the channel closes or the wait runs out, `finish` tells whether the frame
//! is whole; an incomplete frame is dropped and the session goes on.
use vstd::prelude::*;
use crate::camera::CameraFrame;
use crate::packet::ProtocolError;

verus! {

pub struct FrameAssembly {
    header: CameraFrame,
    data: Vec<u8>,
}

impl FrameAssembly {
    /// No more bytes than the header declares have been taken.
    pub closed spec fn wf(&self) -> bool {
        self.data@.len() <= self.header.size
    }

    /// The header this payload belongs to.
    pub closed spec fn frame(&self) -> CameraFrame {
        self.header
    }

    /// The payload bytes received so far.
    pub closed spec fn received(&self) -> Seq<u8> {
        self.data@
    }

    /// Starts collecting the payload of `header`.
    pub fn new(header: CameraFrame) -> (r: FrameAssembly)
        ensures
            r.wf(),
            r.frame() == header,
            r.received() == Seq::<u8>::empty(),
    {
        FrameAssembly { header, data: Vec::new() }
    }

    pub fn header(&self) -> (r: CameraFrame)
        ensures
            r == self.frame(),
    {
        self.header
    }

    /// Payload bytes still owed.
    pub fn remaining(&self) -> (r: u64)
        requires
            self.wf(),
        ensures
            r as int == self.frame().size - self.received().len(),
    {
        self.header.size - self.data.len() as u64
    }

    pub fn is_complete(&self) -> (r: bool)
        requires
            self.wf(),
        ensures
            r == (self.received().len() == self.frame().size),
    {
        self.data.len() as u64 == self.header.size
    }

    /// Takes from `chunk` as many bytes as the payload still owes, and
    /// returns how many it took.
    pub fn feed(&mut self, chunk: &[u8]) -> (taken: usize)
        requires
            old(self).wf(),
        ensures
            final(self).wf(),
            final(self).frame() == old(self).frame(),
            taken as int == if chunk@.len() < old(self).frame().size - old(self).received().len() {
                chunk@.len() as int
            } else {
                old(self).frame().size - old(self).received().len()
            },
            final(self).received() == old(self).received() + chunk@.subrange(0, taken as int),
    {
        let owed = self.header.size - self.data.len() as u64;
        let taken: usize = if (chunk.len() as u64) < owed {
            chunk.len()
        } else {
            owed as usize
        };
        let ghost before = self.data@;
        let mut i: usize = 0;
        while i < taken
            invariant
                taken <= chunk@.len(),
                i <= taken,
                self.header == old(self).header,
                before == old(self).data@,
                before.len() + taken <= self.header.size,
                self.data@ == before + chunk@.subrange(0, i as int),
            decreases taken - i,
        {
            self.data.push(chunk[i]);
            i = i + 1;
            assert(self.data@ =~= before + chunk@.subrange(0, i as int));
        }
        taken
    }

    /// The header and its whole payload, or `IncompleteFrame` when bytes are
    /// still owed.
    pub fn finish(self) -> (r: Result<(CameraFrame, Vec<u8>), ProtocolError>)
        requires
            self.wf(),
        ensures
            self.received().len() == self.frame().size ==> (r matches Ok((h, d)) && h == self.frame() && d@ == self.received()),
            self.received().len() < self.frame().size ==> r == Err::<(CameraFrame, Vec<u8>), ProtocolError>(ProtocolError::IncompleteFrame),
    {
        if self.data.len() as u64 == self.header.size {
            Ok((self.header, self.data))
        } else {
            Err(ProtocolError::IncompleteFrame)
        }
    }
}

} // verus!
