//! Mapping a writer's errors.
use crate::{FusedMultipartWrite, MultipartWrite, Poll};
use vstd::prelude::*;

verus! {

/// `MultipartWrite` for [`MultipartWriteExt::map_err`](super::MultipartWriteExt::map_err).
pub struct MapErr<Wr, F> {
    writer: Wr,
    f: F,
}

impl<Wr, F> MapErr<Wr, F> {
    /// The wrapped writer.
    pub closed spec fn inner(self) -> Wr {
        self.writer
    }

    /// The function applied by this writer.
    pub closed spec fn func(self) -> F {
        self.f
    }

    /// Wraps `writer`.
    pub fn new(writer: Wr, f: F) -> (r: Self)
        ensures
            r.inner() == writer,
            r.func() == f,
    {
        MapErr { writer, f }
    }

    /// Acquires a reference to the underlying writer.
    pub fn get_ref(&self) -> (r: &Wr)
        ensures
            *r == self.inner(),
    {
        &self.writer
    }

    /// Acquires a mutable reference to the underlying writer.
    ///
    /// It is inadvisable to directly write to the underlying writer.
    pub fn get_mut(&mut self) -> (r: &mut Wr)
        ensures
            *r == old(self).inner(),
            final(self).inner() == *final(r),
            final(self).func() == old(self).func(),
    {
        &mut self.writer
    }

    /// Acquires a mutable reference to the underlying writer; the same as
    /// [`get_mut`](Self::get_mut), since no writer here needs pinning.
    pub fn get_pin_mut(&mut self) -> (r: &mut Wr)
        ensures
            *r == old(self).inner(),
            final(self).inner() == *final(r),
            final(self).func() == old(self).func(),
    {
        &mut self.writer
    }
}

/// `r` is `ir` with an error replaced by what `f` returned for it.
pub open spec fn mapped_err<T, E, E2, F: Fn(E) -> E2>(f: F, ir: Result<T, E>, r: Result<T, E2>) -> bool {
    match ir {
        Ok(t) => r == Ok::<T, E2>(t),
        Err(e) => exists|e2: E2| #[trigger] f.ensures((e,), e2) && r == Err::<T, E2>(e2),
    }
}

/// `r` is `ir` with an error replaced by what `f` returned for it.
pub open spec fn mapped_err_poll<T, E, E2, F: Fn(E) -> E2>(
    f: F,
    ir: Poll<Result<T, E>>,
    r: Poll<Result<T, E2>>,
) -> bool {
    match ir {
        Poll::Pending => r is Pending,
        Poll::Ready(res) => r is Ready && mapped_err(f, res, r->Ready_0),
    }
}

impl<Wr: MultipartWrite<Part>, F: Fn(Wr::Error) -> E, Part, E> MultipartWrite<Part> for MapErr<Wr, F> {
    type Ret = Wr::Ret;
    type Output = Wr::Output;
    type Error = E;

    open spec fn inv(self) -> bool {
        self.inner().inv() && forall|e: Wr::Error| self.func().requires((e,))
    }

    open spec fn ready_post(pre: Self, post: Self, r: Poll<Result<(), E>>) -> bool {
        &&& post.func() == pre.func()
        &&& exists|ir: Poll<Result<(), Wr::Error>>|
            #[trigger] Wr::ready_post(pre.inner(), post.inner(), ir) && mapped_err_poll(pre.func(), ir, r)
    }

    open spec fn send_post(pre: Self, part: Part, post: Self, r: Result<Wr::Ret, E>) -> bool {
        &&& post.func() == pre.func()
        &&& exists|ir: Result<Wr::Ret, Wr::Error>|
            #[trigger] Wr::send_post(pre.inner(), part, post.inner(), ir) && mapped_err(pre.func(), ir, r)
    }

    open spec fn flush_post(pre: Self, post: Self, r: Poll<Result<(), E>>) -> bool {
        &&& post.func() == pre.func()
        &&& exists|ir: Poll<Result<(), Wr::Error>>|
            #[trigger] Wr::flush_post(pre.inner(), post.inner(), ir) && mapped_err_poll(pre.func(), ir, r)
    }

    open spec fn complete_post(pre: Self, post: Self, r: Poll<Result<Wr::Output, E>>) -> bool {
        &&& post.func() == pre.func()
        &&& exists|ir: Poll<Result<Wr::Output, Wr::Error>>|
            #[trigger] Wr::complete_post(pre.inner(), post.inner(), ir) && mapped_err_poll(pre.func(), ir, r)
    }

    fn poll_ready(&mut self) -> (r: Poll<Result<(), E>>) {
        proof {
            assert(self.func() == self.f);
        }
        let ir = self.writer.poll_ready();
        let ghost ir_g = ir;
        assert(Wr::ready_post(old(self).inner(), self.inner(), ir_g));
        match ir {
            Poll::Pending => Poll::Pending,
            Poll::Ready(Ok(())) => Poll::Ready(Ok(())),
            Poll::Ready(Err(e)) => Poll::Ready(Err((self.f)(e))),
        }
    }

    fn start_send(&mut self, part: Part) -> (r: Result<Wr::Ret, E>) {
        proof {
            assert(self.func() == self.f);
        }
        let ir = self.writer.start_send(part);
        let ghost ir_g = ir;
        assert(Wr::send_post(old(self).inner(), part, self.inner(), ir_g));
        match ir {
            Ok(ret) => Ok(ret),
            Err(e) => Err((self.f)(e)),
        }
    }

    fn poll_flush(&mut self) -> (r: Poll<Result<(), E>>) {
        proof {
            assert(self.func() == self.f);
        }
        let ir = self.writer.poll_flush();
        let ghost ir_g = ir;
        assert(Wr::flush_post(old(self).inner(), self.inner(), ir_g));
        match ir {
            Poll::Pending => Poll::Pending,
            Poll::Ready(Ok(())) => Poll::Ready(Ok(())),
            Poll::Ready(Err(e)) => Poll::Ready(Err((self.f)(e))),
        }
    }

    fn poll_complete(&mut self) -> (r: Poll<Result<Wr::Output, E>>) {
        proof {
            assert(self.func() == self.f);
        }
        let ir = self.writer.poll_complete();
        let ghost ir_g = ir;
        assert(Wr::complete_post(old(self).inner(), self.inner(), ir_g));
        match ir {
            Poll::Pending => Poll::Pending,
            Poll::Ready(Ok(o)) => Poll::Ready(Ok(o)),
            Poll::Ready(Err(e)) => Poll::Ready(Err((self.f)(e))),
        }
    }
}

impl<Wr: FusedMultipartWrite<Part>, F: Fn(Wr::Error) -> E, Part, E> FusedMultipartWrite<Part> for MapErr<Wr, F> {
    open spec fn terminated(&self) -> bool {
        self.inner().terminated()
    }

    fn is_terminated(&self) -> (r: bool) {
        self.writer.is_terminated()
    }
}

} // verus!
