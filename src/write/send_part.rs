//! A future that sends one part to a writer and flushes it.
use crate::write::stream_writer::ready_ok;
use crate::{MultipartWrite, Poll};
use vstd::prelude::*;

verus! {

/// Future for [`MultipartWriteExt::send_part`](super::MultipartWriteExt::send_part).
///
/// It waits until the writer is ready, sends the part, and then flushes the
/// writer; it resolves to what the send returned.
pub struct SendPart<'a, Wr: MultipartWrite<Part>, Part> {
    writer: &'a mut Wr,
    buffered: Option<Part>,
    output: Option<Wr::Ret>,
}

impl<'a, Wr: MultipartWrite<Part>, Part> SendPart<'a, Wr, Part> {
    /// The writer the part goes to.
    pub closed spec fn writer(self) -> Wr {
        *self.writer
    }

    /// The part, until it was sent.
    pub closed spec fn part(self) -> Option<Part> {
        self.buffered
    }

    /// What the send returned, until the future resolved.
    pub closed spec fn output(self) -> Option<Wr::Ret> {
        self.output
    }

    /// The part waits to be sent, or its send's result waits for the flush,
    /// not both.
    pub closed spec fn wf(self) -> bool {
        !(self.buffered is Some && self.output is Some)
    }

    /// The future has resolved.
    pub open spec fn finished(self) -> bool {
        self.part() is None && self.output() is None
    }

    /// Creates the future that sends `part` to `writer` and flushes it.
    pub fn new(writer: &'a mut Wr, part: Part) -> (r: Self)
        ensures
            r.wf(),
            r.writer() == *old(writer),
            r.part() == Some(part),
            r.output() is None,
    {
        SendPart { writer, buffered: Some(part), output: None }
    }

    /// Sends the part once the writer is ready, then flushes the writer.
    ///
    /// It resolves to what the send returned once the flush succeeded, or to
    /// the first error.
    pub fn poll(&mut self) -> (r: Poll<Result<Wr::Ret, Wr::Error>>)
        requires
            old(self).wf(),
            old(self).writer().inv(),
            !old(self).finished(),
        ensures
            final(self).wf(),
            final(self).writer().inv(),
            r is Pending ==> !final(self).finished() && (Wr::ready_post(
                old(self).writer(),
                final(self).writer(),
                Poll::Pending,
            ) || exists|pre: Wr| #[trigger] Wr::flush_post(pre, final(self).writer(), Poll::Pending)),
            r is Ready && r->Ready_0 is Ok && old(self).part() is Some ==> final(self).finished()
                && exists|rr: Poll<Result<(), Wr::Error>>, m1: Wr, m2: Wr, fr: Poll<Result<(), Wr::Error>>|
                ready_ok(rr) && ready_ok(fr) && #[trigger] Wr::ready_post(old(self).writer(), m1, rr)
                    && #[trigger] Wr::send_post(m1, old(self).part()->0, m2, Ok(r->Ready_0->Ok_0))
                    && #[trigger] Wr::flush_post(m2, final(self).writer(), fr),
            r is Ready && r->Ready_0 is Ok && old(self).part() is None ==> final(self).finished()
                && r->Ready_0->Ok_0 == old(self).output()->0 && exists|
                fr: Poll<Result<(), Wr::Error>>,
            | ready_ok(fr) && #[trigger] Wr::flush_post(old(self).writer(), final(self).writer(), fr),
    {
        let ghost w0 = *self.writer;
        if self.buffered.is_some() {
            let ready = self.writer.poll_ready();
            let ghost rr = ready;
            let ghost w1 = *self.writer;
            assert(Wr::ready_post(w0, w1, rr));
            match ready {
                Poll::Pending => {
                    return Poll::Pending;
                },
                Poll::Ready(Err(e)) => {
                    return Poll::Ready(Err(e));
                },
                Poll::Ready(Ok(())) => {
                    assert(ready_ok(rr));
                },
            }
            match self.buffered.take() {
                Some(part) => {
                    let ghost p = part;
                    let sr = self.writer.start_send(part);
                    let ghost sr_g = sr;
                    assert(Wr::send_post(w1, p, *self.writer, sr_g));
                    match sr {
                        Err(e) => {
                            return Poll::Ready(Err(e));
                        },
                        Ok(ret) => {
                            self.output = Some(ret);
                        },
                    }
                },
                None => {},
            }
        }
        let ghost w2 = *self.writer;
        let flushed = self.writer.poll_flush();
        let ghost fr = flushed;
        assert(Wr::flush_post(w2, *self.writer, fr));
        match flushed {
            Poll::Pending => Poll::Pending,
            Poll::Ready(Err(e)) => Poll::Ready(Err(e)),
            Poll::Ready(Ok(())) => {
                assert(ready_ok(fr));
                match self.output.take() {
                    Some(ret) => Poll::Ready(Ok(ret)),
                    None => Poll::Pending,
                }
            },
        }
    }
}

} // verus!
