//! A future that flushes a writer.
use crate::{MultipartWrite, Poll};
use vstd::prelude::*;

verus! {

/// Future for [`MultipartWriteExt::flush`](super::MultipartWriteExt::flush).
pub struct Flush<'a, Wr> {
    writer: &'a mut Wr,
}

impl<'a, Wr> Flush<'a, Wr> {
    /// The writer being flushed.
    pub closed spec fn writer(self) -> Wr {
        *self.writer
    }

    /// Creates the future over `writer`.
    pub fn new(writer: &'a mut Wr) -> (r: Self)
        ensures
            r.writer() == *old(writer),
    {
        Flush { writer }
    }

    /// Polls the writer's `poll_flush` once; the future is done when that
    /// reports ready.
    pub fn poll<Part>(&mut self) -> (r: Poll<Result<(), Wr::Error>>) where Wr: MultipartWrite<Part>
        requires
            old(self).writer().inv(),
        ensures
            final(self).writer().inv(),
            Wr::flush_post(old(self).writer(), final(self).writer(), r),
    {
        self.writer.poll_flush()
    }
}

} // verus!
