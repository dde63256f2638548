//! Building a writer's parts with another writer.
use crate::write::stream_writer::ready_ok;
use crate::{FusedMultipartWrite, MultipartWrite, Poll};
use vstd::prelude::*;
use vstd::std_specs::convert::FromSpec;

verus! {

/// `MultipartWrite` for [`MultipartWriteExt::lift`](super::MultipartWriteExt::lift).
///
/// Parts go to the front writer `U`. Flushing or completing first completes
/// `U` and sends its output as one part to the inner writer.
pub struct Lift<Wr, U, Part> {
    inner: Wr,
    writer: U,
    buffered: Option<Part>,
}

/// `e2` is what `From` makes of `e`, as far as its specification says.
pub open spec fn err_converted<E1, E2: From<E1>>(e: E1, e2: E2) -> bool {
    <E2 as FromSpec<E1>>::obeys_from_spec() ==> e2 == <E2 as FromSpec<E1>>::from_spec(e)
}

/// `r` is `ir` with an error converted by `From`.
pub open spec fn converted<T, E1, E2: From<E1>>(ir: Result<T, E1>, r: Result<T, E2>) -> bool {
    match ir {
        Ok(t) => r == Ok::<T, E2>(t),
        Err(e) => r is Err && err_converted(e, r->Err_0),
    }
}

/// `r` is `ir` with an error converted by `From`.
pub open spec fn converted_poll<T, E1, E2: From<E1>>(ir: Poll<Result<T, E1>>, r: Poll<Result<T, E2>>) -> bool {
    match ir {
        Poll::Pending => r is Pending,
        Poll::Ready(res) => r is Ready && converted(res, r->Ready_0),
    }
}

/// The inner writer `pre` was polled for readiness and, when ready, sent
/// `part`; `post_buf` is what then waits to be sent.
pub open spec fn deliver_post<Wr: MultipartWrite<Part>, Part>(
    pre: Wr,
    part: Part,
    post: Wr,
    post_buf: Option<Part>,
    r: Poll<Result<(), Wr::Error>>,
) -> bool {
    exists|rr: Poll<Result<(), Wr::Error>>, mid: Wr|
        #[trigger] Wr::ready_post(pre, mid, rr) && match rr {
            Poll::Pending => post == mid && post_buf == Some(part) && r is Pending,
            Poll::Ready(Err(e)) => post == mid && post_buf == Some(part) && r == Poll::<
                Result<(), Wr::Error>,
            >::Ready(Err(e)),
            Poll::Ready(Ok(_)) => post_buf is None && exists|sr: Result<Wr::Ret, Wr::Error>|
                #[trigger] Wr::send_post(mid, part, post, sr) && match sr {
                    Ok(_) => ready_ok(r),
                    Err(e) => r == Poll::<Result<(), Wr::Error>>::Ready(Err(e)),
                },
        }
}

impl<Wr, U, Part> Lift<Wr, U, Part> {
    /// The writer the assembled parts go to.
    pub closed spec fn inner(self) -> Wr {
        self.inner
    }

    /// The writer that assembles each part.
    pub closed spec fn front(self) -> U {
        self.writer
    }

    /// A part assembled by the front writer and not yet sent.
    pub closed spec fn pending_part(self) -> Option<Part> {
        self.buffered
    }

    /// Puts `writer` in front of `inner`.
    pub fn new(inner: Wr, writer: U) -> (r: Self)
        ensures
            r.inner() == inner,
            r.front() == writer,
            r.pending_part() is None,
    {
        Lift { inner, writer, buffered: None }
    }
}

impl<Wr: MultipartWrite<Part>, U, Part> Lift<Wr, U, Part> {
    /// Completes the front writer, unless a part it assembled still waits,
    /// and sends that part to the inner writer once it is ready.
    pub open spec fn send_inner_post<T>(pre: Self, post: Self, r: Poll<Result<(), Wr::Error>>) -> bool where
        U: MultipartWrite<T, Output = Part>,
        Wr::Error: From<U::Error>,
     {
        match pre.pending_part() {
            Some(part) => post.front() == pre.front() && deliver_post(
                pre.inner(),
                part,
                post.inner(),
                post.pending_part(),
                r,
            ),
            None => exists|cr: Poll<Result<Part, U::Error>>|
                #[trigger] U::complete_post(pre.front(), post.front(), cr) && match cr {
                    Poll::Ready(Ok(part)) => deliver_post(
                        pre.inner(),
                        part,
                        post.inner(),
                        post.pending_part(),
                        r,
                    ),
                    Poll::Ready(Err(e)) => {
                        &&& post.inner() == pre.inner() && post.pending_part() is None
                        &&& r is Ready && r->Ready_0 is Err && err_converted(e, r->Ready_0->Err_0)
                    },
                    Poll::Pending => post.inner() == pre.inner() && post.pending_part() is None
                        && r is Pending,
                },
        }
    }

    fn poll_send_inner<T>(&mut self) -> (r: Poll<Result<(), Wr::Error>>) where
        U: MultipartWrite<T, Output = Part>,
        Wr::Error: From<U::Error>,
        requires
            old(self).inner().inv(),
            old(self).front().inv(),
        ensures
            final(self).inner().inv(),
            final(self).front().inv(),
            Self::send_inner_post(*old(self), *final(self), r),
    {
        if self.buffered.is_none() {
            let cr = self.writer.poll_complete();
            let ghost cr_g = cr;
            assert(U::complete_post(old(self).front(), self.front(), cr_g));
            match cr {
                Poll::Pending => {
                    return Poll::Pending;
                },
                Poll::Ready(Err(e)) => {
                    return Poll::Ready(Err(Wr::Error::from(e)));
                },
                Poll::Ready(Ok(part)) => {
                    self.buffered = Some(part);
                },
            }
        }
        let ghost w0 = self.inner;
        let ghost b0 = self.buffered;
        let rr = self.inner.poll_ready();
        let ghost rr_g = rr;
        let ghost w1 = self.inner;
        assert(Wr::ready_post(w0, w1, rr_g));
        match rr {
            Poll::Pending => Poll::Pending,
            Poll::Ready(Err(e)) => Poll::Ready(Err(e)),
            Poll::Ready(Ok(())) => match self.buffered.take() {
                Some(part) => {
                    let ghost p = part;
                    let sr = self.inner.start_send(part);
                    assert(Wr::send_post(w1, p, self.inner, sr));
                    match sr {
                        Ok(_) => Poll::Ready(Ok(())),
                        Err(e) => Poll::Ready(Err(e)),
                    }
                },
                None => Poll::Pending,
            },
        }
    }
}

impl<T, Wr: MultipartWrite<Part>, U: MultipartWrite<T, Output = Part>, Part> MultipartWrite<T> for Lift<
    Wr,
    U,
    Part,
> where Wr::Error: From<U::Error> {
    type Ret = U::Ret;
    type Output = Wr::Output;
    type Error = Wr::Error;

    open spec fn inv(self) -> bool {
        self.inner().inv() && self.front().inv()
    }

    open spec fn ready_post(pre: Self, post: Self, r: Poll<Result<(), Wr::Error>>) -> bool {
        &&& post.inner() == pre.inner() && post.pending_part() == pre.pending_part()
        &&& exists|ir: Poll<Result<(), U::Error>>|
            #[trigger] U::ready_post(pre.front(), post.front(), ir) && converted_poll(ir, r)
    }

    open spec fn send_post(pre: Self, part: T, post: Self, r: Result<U::Ret, Wr::Error>) -> bool {
        &&& post.inner() == pre.inner() && post.pending_part() == pre.pending_part()
        &&& exists|ir: Result<U::Ret, U::Error>|
            #[trigger] U::send_post(pre.front(), part, post.front(), ir) && converted(ir, r)
    }

    open spec fn flush_post(pre: Self, post: Self, r: Poll<Result<(), Wr::Error>>) -> bool {
        exists|mid: Self, sr: Poll<Result<(), Wr::Error>>|
            #[trigger] Self::send_inner_post(pre, mid, sr) && if ready_ok(sr) {
                &&& post.front() == mid.front() && post.pending_part() == mid.pending_part()
                &&& Wr::flush_post(mid.inner(), post.inner(), r)
            } else {
                post == mid && r == sr
            }
    }

    open spec fn complete_post(pre: Self, post: Self, r: Poll<Result<Wr::Output, Wr::Error>>) -> bool {
        exists|mid: Self, sr: Poll<Result<(), Wr::Error>>|
            #[trigger] Self::send_inner_post(pre, mid, sr) && if ready_ok(sr) {
                &&& post.front() == mid.front() && post.pending_part() == mid.pending_part()
                &&& Wr::complete_post(mid.inner(), post.inner(), r)
            } else {
                post == mid && match sr {
                    Poll::Pending => r is Pending,
                    Poll::Ready(Err(e)) => r == Poll::<Result<Wr::Output, Wr::Error>>::Ready(Err(e)),
                    Poll::Ready(Ok(_)) => false,
                }
            }
    }

    fn poll_ready(&mut self) -> (r: Poll<Result<(), Wr::Error>>) {
        let ir = self.writer.poll_ready();
        let ghost ir_g = ir;
        assert(U::ready_post(old(self).front(), self.front(), ir_g));
        match ir {
            Poll::Pending => Poll::Pending,
            Poll::Ready(Ok(())) => Poll::Ready(Ok(())),
            Poll::Ready(Err(e)) => Poll::Ready(Err(Wr::Error::from(e))),
        }
    }

    fn start_send(&mut self, part: T) -> (r: Result<U::Ret, Wr::Error>) {
        let ghost p = part;
        let ir = self.writer.start_send(part);
        let ghost ir_g = ir;
        assert(U::send_post(old(self).front(), p, self.front(), ir_g));
        match ir {
            Ok(ret) => Ok(ret),
            Err(e) => Err(Wr::Error::from(e)),
        }
    }

    fn poll_flush(&mut self) -> (r: Poll<Result<(), Wr::Error>>) {
        let sr = self.poll_send_inner();
        let ghost mid = *self;
        assert(Self::send_inner_post(*old(self), mid, sr));
        match sr {
            Poll::Ready(Ok(())) => {
                assert(ready_ok(sr));
                let r = self.inner.poll_flush();
                assert(Wr::flush_post(mid.inner(), self.inner(), r));
                r
            },
            other => other,
        }
    }

    fn poll_complete(&mut self) -> (r: Poll<Result<Wr::Output, Wr::Error>>) {
        let sr = self.poll_send_inner();
        let ghost mid = *self;
        let ghost sr_g = sr;
        assert(Self::send_inner_post(*old(self), mid, sr_g));
        match sr {
            Poll::Ready(Ok(())) => {
                assert(ready_ok(sr_g));
                let r = self.inner.poll_complete();
                assert(Wr::complete_post(mid.inner(), self.inner(), r));
                r
            },
            Poll::Ready(Err(e)) => Poll::Ready(Err(e)),
            Poll::Pending => Poll::Pending,
        }
    }
}

impl<T, Wr: FusedMultipartWrite<Part>, U: FusedMultipartWrite<T, Output = Part>, Part> FusedMultipartWrite<
    T,
> for Lift<Wr, U, Part> where Wr::Error: From<U::Error> {
    open spec fn terminated(&self) -> bool {
        self.inner().terminated() || self.front().terminated()
    }

    fn is_terminated(&self) -> (r: bool) {
        self.inner.is_terminated() || self.writer.is_terminated()
    }
}

} // verus!
