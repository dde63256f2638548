//! A future that completes a writer's session.
use crate::{MultipartWrite, Poll};
use vstd::prelude::*;

verus! {

/// Future for [`MultipartWriteExt::complete`](super::MultipartWriteExt::complete).
pub struct Complete<'a, Wr> {
    writer: &'a mut Wr,
    is_terminated: bool,
}

impl<'a, Wr> Complete<'a, Wr> {
    /// The writer being completed.
    pub closed spec fn writer(self) -> Wr {
        *self.writer
    }

    /// The future has resolved.
    pub closed spec fn finished(self) -> bool {
        self.is_terminated
    }

    /// Creates the future over `writer`.
    pub fn new(writer: &'a mut Wr) -> (r: Self)
        ensures
            r.writer() == *old(writer),
            !r.finished(),
    {
        Complete { writer, is_terminated: false }
    }

    /// Returns `true` once the future has resolved.
    pub fn is_terminated(&self) -> (r: bool)
        ensures
            r == self.finished(),
    {
        self.is_terminated
    }

    /// Polls the writer's `poll_complete` once; the future resolves to its
    /// result when that is ready.
    pub fn poll<Part>(&mut self) -> (r: Poll<Result<Wr::Output, Wr::Error>>) where
        Wr: MultipartWrite<Part>,
        requires
            old(self).writer().inv(),
        ensures
            final(self).writer().inv(),
            Wr::complete_post(old(self).writer(), final(self).writer(), r),
            final(self).finished() == (old(self).finished() || r is Ready),
    {
        let out = self.writer.poll_complete();
        if out.is_ready() {
            self.is_terminated = true;
        }
        out
    }
}

} // verus!
