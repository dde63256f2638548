//! A writer with a bounded queue of parts in front of it.
use crate::write::stream_writer::ready_ok;
use crate::{FusedMultipartWrite, MultipartWrite, Poll};
use std::collections::VecDeque;
use vstd::prelude::*;

verus! {

/// `s` is what is left of `t` after some items were taken from its front.
pub open spec fn is_suffix_of<T>(s: Seq<T>, t: Seq<T>) -> bool {
    s.len() <= t.len() && s == t.subrange(t.len() - s.len(), t.len() as int)
}

/// A flush of a writer whose queue is empty: the underlying writer is polled
/// for readiness and, when that succeeded, flushed; nothing is sent to it.
pub open spec fn empty_flush_post<Wr: MultipartWrite<Part>, Part>(
    pre: Wr,
    post: Wr,
    r: Poll<Result<(), Wr::Error>>,
) -> bool {
    exists|rr: Poll<Result<(), Wr::Error>>, mid: Wr|
        #[trigger] Wr::ready_post(pre, mid, rr) && if ready_ok(rr) {
            Wr::flush_post(mid, post, r)
        } else {
            post == mid && r == rr
        }
}

/// `MultipartWrite` for [`MultipartWriteExt::buffered`](super::MultipartWriteExt::buffered).
///
/// Parts are queued, up to `capacity` of them, while the underlying writer
/// is not ready, and are sent in order whenever it is. With a capacity of
/// zero every part goes straight to the underlying writer.
pub struct Buffered<Wr, Part> {
    writer: Wr,
    capacity: usize,
    buf: VecDeque<Part>,
}

impl<Wr, Part> Buffered<Wr, Part> {
    /// The wrapped writer.
    pub closed spec fn inner(self) -> Wr {
        self.writer
    }

    /// How many parts may be queued.
    pub closed spec fn capacity(self) -> nat {
        self.capacity as nat
    }

    /// The queued parts, oldest first.
    pub closed spec fn queue(self) -> Seq<Part> {
        self.buf@
    }

    /// Wraps `writer` with a queue of `capacity` parts.
    pub fn new(writer: Wr, capacity: usize) -> (r: Self)
        ensures
            r.inner() == writer,
            r.capacity() == capacity,
            r.queue() == Seq::<Part>::empty(),
    {
        Buffered { writer, capacity, buf: VecDeque::with_capacity(capacity) }
    }

    /// Acquires a reference to the underlying writer.
    pub fn get_ref(&self) -> (r: &Wr)
        ensures
            *r == self.inner(),
    {
        &self.writer
    }

    /// Acquires a mutable reference to the underlying writer.
    ///
    /// It is inadvisable to directly write to the underlying writer.
    pub fn get_mut(&mut self) -> (r: &mut Wr)
        ensures
            *r == old(self).inner(),
            final(self).inner() == *final(r),
            final(self).capacity() == old(self).capacity(),
            final(self).queue() == old(self).queue(),
    {
        &mut self.writer
    }

    /// Acquires a mutable reference to the underlying writer; the same as
    /// [`get_mut`](Self::get_mut), since no writer here needs pinning.
    pub fn get_pin_mut(&mut self) -> (r: &mut Wr)
        ensures
            *r == old(self).inner(),
            final(self).inner() == *final(r),
            final(self).capacity() == old(self).capacity(),
            final(self).queue() == old(self).queue(),
    {
        &mut self.writer
    }
}

impl<Wr: MultipartWrite<Part>, Part> Buffered<Wr, Part> {
    /// Sends queued parts, oldest first, for as long as the writer reports
    /// ready; it is done when the queue is empty.
    fn try_empty_buffer(&mut self) -> (r: Poll<Result<(), Wr::Error>>)
        requires
            old(self).inner().inv(),
        ensures
            final(self).inner().inv(),
            final(self).capacity() == old(self).capacity(),
            is_suffix_of(final(self).queue(), old(self).queue()),
            ready_ok(r) ==> final(self).queue().len() == 0,
            old(self).queue().len() == 0 ==> final(self).queue().len() == 0 && exists|
                rr: Poll<Result<(), Wr::Error>>,
            |
                #[trigger] Wr::ready_post(old(self).inner(), final(self).inner(), rr) && (ready_ok(
                    rr,
                ) <==> ready_ok(r)) && (!ready_ok(rr) ==> r == rr),
    {
        assert(self.buf@ =~= self.buf@.subrange(0, self.buf@.len() as int));
        let ghost w0 = self.writer;
        let first = self.writer.poll_ready();
        let ghost first_g = first;
        assert(Wr::ready_post(old(self).inner(), self.inner(), first_g));
        match first {
            Poll::Pending => {
                assert(first_g is Pending);
                return Poll::Pending;
            },
            Poll::Ready(Err(e)) => {
                assert(first_g == Poll::<Result<(), Wr::Error>>::Ready(Err(e)));
                return Poll::Ready(Err(e));
            },
            Poll::Ready(Ok(())) => {
                assert(ready_ok(first_g));
            },
        }
        let ghost w1 = self.writer;
        while self.buf.len() > 0
            invariant
                old(self).buf@.len() == 0 ==> self.writer == w1 && self.buf@.len() == 0,
                Wr::ready_post(old(self).inner(), w1, first_g),
                ready_ok(first_g),
                self.writer.inv(),
                self.capacity == old(self).capacity,
                is_suffix_of(self.buf@, old(self).buf@),
            decreases self.buf@.len(),
        {
            let ghost before = self.buf@;
            if let Some(part) = self.buf.pop_front() {
                assert(self.buf@ =~= old(self).buf@.subrange(
                    old(self).buf@.len() - self.buf@.len(),
                    old(self).buf@.len() as int,
                ));
                if let Err(e) = self.writer.start_send(part) {
                    return Poll::Ready(Err(e));
                }
                if self.buf.len() > 0 {
                    match self.writer.poll_ready() {
                        Poll::Pending => {
                            return Poll::Pending;
                        },
                        Poll::Ready(Err(e)) => {
                            return Poll::Ready(Err(e));
                        },
                        Poll::Ready(Ok(())) => {},
                    }
                }
            }
        }
        proof {
            if old(self).buf@.len() == 0 {
                assert(self.writer == w1);
                assert(Wr::ready_post(old(self).inner(), self.inner(), first_g));
            }
        }
        Poll::Ready(Ok(()))
    }

    /// Flushing a writer whose queue is empty leaves the queue empty: once
    /// one flush succeeded nothing is queued, and a repeated flush adds no
    /// buffered effect; it only polls the underlying writer for readiness
    /// and flushes it.
    pub proof fn lemma_flush_idempotent(
        pre: Self,
        mid: Self,
        post: Self,
        r1: Poll<Result<(), Wr::Error>>,
        r2: Poll<Result<(), Wr::Error>>,
    )
        requires
            Self::flush_post(pre, mid, r1),
            Self::flush_post(mid, post, r2),
            ready_ok(r1),
        ensures
            mid.queue().len() == 0,
            post.queue().len() == 0,
            post.capacity() == pre.capacity(),
            empty_flush_post(mid.inner(), post.inner(), r2),
    {
    }
}

impl<Wr: MultipartWrite<Part>, Part> MultipartWrite<Part> for Buffered<Wr, Part> {
    type Ret = ();
    type Output = Wr::Output;
    type Error = Wr::Error;

    open spec fn inv(self) -> bool {
        self.inner().inv()
    }

    open spec fn ready_post(pre: Self, post: Self, r: Poll<Result<(), Wr::Error>>) -> bool {
        &&& post.capacity() == pre.capacity()
        &&& if pre.capacity() == 0 {
            post.queue() == pre.queue() && Wr::ready_post(pre.inner(), post.inner(), r)
        } else {
            &&& is_suffix_of(post.queue(), pre.queue())
            &&& match r {
                Poll::Ready(Err(_)) => true,
                Poll::Ready(Ok(_)) => post.queue().len() < pre.capacity(),
                Poll::Pending => post.queue().len() >= pre.capacity(),
            }
        }
    }

    open spec fn send_post(pre: Self, part: Part, post: Self, r: Result<(), Wr::Error>) -> bool {
        &&& post.capacity() == pre.capacity()
        &&& if pre.capacity() == 0 {
            &&& post.queue() == pre.queue()
            &&& exists|ir: Result<Wr::Ret, Wr::Error>|
                #[trigger] Wr::send_post(pre.inner(), part, post.inner(), ir) && match ir {
                    Ok(_) => r is Ok,
                    Err(e) => r == Err::<(), Wr::Error>(e),
                }
        } else {
            post.inner() == pre.inner() && post.queue() == pre.queue().push(part) && r is Ok
        }
    }

    open spec fn flush_post(pre: Self, post: Self, r: Poll<Result<(), Wr::Error>>) -> bool {
        &&& post.capacity() == pre.capacity()
        &&& is_suffix_of(post.queue(), pre.queue())
        &&& ready_ok(r) ==> post.queue().len() == 0 && exists|mid: Wr|
            #[trigger] Wr::flush_post(mid, post.inner(), r)
        &&& pre.queue().len() == 0 ==> empty_flush_post(pre.inner(), post.inner(), r)
    }

    open spec fn complete_post(pre: Self, post: Self, r: Poll<Result<Wr::Output, Wr::Error>>) -> bool {
        &&& post.capacity() == pre.capacity()
        &&& is_suffix_of(post.queue(), pre.queue())
        &&& (r is Ready && r->Ready_0 is Ok) ==> post.queue().len() == 0 && exists|mid: Wr|
            #[trigger] Wr::complete_post(mid, post.inner(), r)
    }

    fn poll_ready(&mut self) -> (r: Poll<Result<(), Wr::Error>>) {
        if self.capacity == 0 {
            return self.writer.poll_ready();
        }
        if let Poll::Ready(Err(e)) = self.try_empty_buffer() {
            return Poll::Ready(Err(e));
        }
        if self.buf.len() >= self.capacity {
            Poll::Pending
        } else {
            Poll::Ready(Ok(()))
        }
    }

    fn start_send(&mut self, part: Part) -> (r: Result<(), Wr::Error>) {
        if self.capacity == 0 {
            let ghost p = part;
            let ir = self.writer.start_send(part);
            assert(Wr::send_post(old(self).inner(), p, self.inner(), ir));
            match ir {
                Ok(_) => Ok(()),
                Err(e) => Err(e),
            }
        } else {
            self.buf.push_back(part);
            Ok(())
        }
    }

    fn poll_flush(&mut self) -> (r: Poll<Result<(), Wr::Error>>) {
        let ghost w0 = self.writer;
        let tr = self.try_empty_buffer();
        let ghost tr_g = tr;
        let ghost mid = self.writer;
        proof {
            if old(self).queue().len() == 0 {
                let rr = choose|rr: Poll<Result<(), Wr::Error>>|
                    #[trigger] Wr::ready_post(w0, mid, rr) && (ready_ok(rr) <==> ready_ok(tr_g))
                        && (!ready_ok(rr) ==> tr_g == rr);
                assert(Wr::ready_post(w0, mid, rr));
            }
        }
        match tr {
            Poll::Pending => Poll::Pending,
            Poll::Ready(Err(e)) => Poll::Ready(Err(e)),
            Poll::Ready(Ok(())) => {
                assert(ready_ok(tr_g));
                let r = self.writer.poll_flush();
                assert(Wr::flush_post(mid, self.inner(), r));
                r
            },
        }
    }

    fn poll_complete(&mut self) -> (r: Poll<Result<Wr::Output, Wr::Error>>) {
        match self.try_empty_buffer() {
            Poll::Pending => Poll::Pending,
            Poll::Ready(Err(e)) => Poll::Ready(Err(e)),
            Poll::Ready(Ok(())) => {
                let ghost mid = self.writer;
                let r = self.writer.poll_complete();
                assert(Wr::complete_post(mid, self.inner(), r));
                r
            },
        }
    }
}

impl<Wr: FusedMultipartWrite<Part>, Part> FusedMultipartWrite<Part> for Buffered<Wr, Part> {
    open spec fn terminated(&self) -> bool {
        self.inner().terminated()
    }

    fn is_terminated(&self) -> (r: bool) {
        self.writer.is_terminated()
    }
}

} // verus!
