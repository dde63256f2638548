//! A future that hands one part to a writer.
use crate::write::stream_writer::ready_ok;
use crate::{MultipartWrite, Poll};
use vstd::prelude::*;

verus! {

/// Future for [`MultipartWriteExt::feed`](super::MultipartWriteExt::feed).
///
/// It waits until the writer is ready and then sends the part. Unlike a send
/// followed by a flush, it does not flush the writer.
pub struct Feed<'a, Wr, Part> {
    writer: &'a mut Wr,
    buffered: Option<Part>,
}

impl<'a, Wr, Part> Feed<'a, Wr, Part> {
    /// The writer the part goes to.
    pub closed spec fn writer(self) -> Wr {
        *self.writer
    }

    /// The part, until it was sent.
    pub closed spec fn part(self) -> Option<Part> {
        self.buffered
    }

    /// Creates the future that sends `part` to `writer`.
    pub fn new(writer: &'a mut Wr, part: Part) -> (r: Self)
        ensures
            r.writer() == *old(writer),
            r.part() == Some(part),
    {
        Feed { writer, buffered: Some(part) }
    }

    /// Acquires a mutable reference to the writer.
    pub fn writer_pin_mut(&mut self) -> (r: &mut Wr)
        ensures
            *r == old(self).writer(),
            final(self).writer() == *final(r),
            final(self).part() == old(self).part(),
    {
        self.writer
    }

    /// Returns whether the part still waits to be sent.
    pub fn is_part_pending(&self) -> (r: bool)
        ensures
            r == (self.part() is Some),
    {
        self.buffered.is_some()
    }
}

impl<'a, Wr: MultipartWrite<Part>, Part> Feed<'a, Wr, Part> {
    /// Polls the writer for readiness and, once it is ready, sends the part
    /// and resolves to what the send returned.
    pub fn poll(&mut self) -> (r: Poll<Result<Wr::Ret, Wr::Error>>)
        requires
            old(self).writer().inv(),
            old(self).part() is Some,
        ensures
            final(self).writer().inv(),
            final(self).part() is Some ==> {
                &&& final(self).part() == old(self).part()
                &&& {
                    ||| r is Pending && Wr::ready_post(old(self).writer(), final(self).writer(), Poll::Pending)
                    ||| exists|e: Wr::Error|
                        #[trigger] Wr::ready_post(
                            old(self).writer(),
                            final(self).writer(),
                            Poll::Ready(Err(e)),
                        ) && r == Poll::<Result<Wr::Ret, Wr::Error>>::Ready(Err(e))
                }
            },
            final(self).part() is None ==> r is Ready && exists|rr: Poll<Result<(), Wr::Error>>, mid: Wr|
                ready_ok(rr) && #[trigger] Wr::ready_post(old(self).writer(), mid, rr)
                    && #[trigger] Wr::send_post(
                    mid,
                    old(self).part()->0,
                    final(self).writer(),
                    r->Ready_0,
                ),
    {
        let ghost w0 = *self.writer;
        let ready = self.writer.poll_ready();
        let ghost rr = ready;
        let ghost w1 = *self.writer;
        assert(Wr::ready_post(w0, w1, rr));
        match ready {
            Poll::Pending => {
                assert(Wr::ready_post(w0, w1, Poll::Pending));
                assert(self.writer() == w1);
                assert(old(self).writer() == w0);
                Poll::Pending
            },
            Poll::Ready(Err(e)) => {
                assert(Wr::ready_post(w0, w1, Poll::Ready(Err(e))));
                assert(self.writer() == w1);
                assert(old(self).writer() == w0);
                Poll::Ready(Err(e))
            },
            Poll::Ready(Ok(())) => {
                assert(ready_ok(rr));
                match self.buffered.take() {
                    Some(part) => {
                        let ghost p = part;
                        let sr = self.writer.start_send(part);
                        assert(Wr::send_post(w1, p, *self.writer, sr));
                        assert(old(self).writer() == w0);
                        assert(old(self).part()->0 == p);
                        let r = Poll::Ready(sr);
                        assert(r->Ready_0 == sr);
                        assert(Wr::send_post(w1, old(self).part()->0, self.writer(), r->Ready_0));
                        r
                    },
                    None => Poll::Pending,
                }
            },
        }
    }
}

} // verus!
