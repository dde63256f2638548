//! Mapping a writer's output.
use crate::{FusedMultipartWrite, MultipartWrite, Poll};
use vstd::prelude::*;

verus! {

/// `MultipartWrite` for [`MultipartWriteExt::map_ok`](super::MultipartWriteExt::map_ok).
pub struct MapOk<Wr, F> {
    writer: Wr,
    f: F,
}

/// `r` is `ir` with the output of a success replaced by what `f` returned
/// for it.
pub open spec fn mapped_output<O, E, U, F: Fn(O) -> U>(
    f: F,
    ir: Poll<Result<O, E>>,
    r: Poll<Result<U, E>>,
) -> bool {
    match ir {
        Poll::Pending => r is Pending,
        Poll::Ready(Err(e)) => r == Poll::<Result<U, E>>::Ready(Err(e)),
        Poll::Ready(Ok(o)) => exists|u: U|
            #[trigger] f.ensures((o,), u) && r == Poll::<Result<U, E>>::Ready(Ok(u)),
    }
}

impl<Wr, F> MapOk<Wr, F> {
    /// The wrapped writer.
    pub closed spec fn inner(self) -> Wr {
        self.writer
    }

    /// The mapping function.
    pub closed spec fn func(self) -> F {
        self.f
    }

    /// Wraps `writer`, mapping its outputs with `f`.
    pub fn new(writer: Wr, f: F) -> (r: Self)
        ensures
            r.inner() == writer,
            r.func() == f,
    {
        MapOk { writer, f }
    }

    /// Acquires a reference to the underlying writer.
    pub fn get_ref(&self) -> (r: &Wr)
        ensures
            *r == self.inner(),
    {
        &self.writer
    }

    /// Acquires a mutable reference to the underlying writer.
    ///
    /// It is inadvisable to directly write to the underlying writer.
    pub fn get_mut(&mut self) -> (r: &mut Wr)
        ensures
            *r == old(self).inner(),
            final(self).inner() == *final(r),
            final(self).func() == old(self).func(),
    {
        &mut self.writer
    }

    /// Acquires a mutable reference to the underlying writer; the same as
    /// [`get_mut`](Self::get_mut), since no writer here needs pinning.
    pub fn get_pin_mut(&mut self) -> (r: &mut Wr)
        ensures
            *r == old(self).inner(),
            final(self).inner() == *final(r),
            final(self).func() == old(self).func(),
    {
        &mut self.writer
    }
}

impl<U, Wr: MultipartWrite<Part>, F: Fn(Wr::Output) -> U, Part> MultipartWrite<Part> for MapOk<
    Wr,
    F,
> {
    type Ret = Wr::Ret;
    type Output = U;
    type Error = Wr::Error;

    open spec fn inv(self) -> bool {
        self.inner().inv() && forall|o: Wr::Output| self.func().requires((o,))
    }

    open spec fn ready_post(pre: Self, post: Self, r: Poll<Result<(), Wr::Error>>) -> bool {
        post.func() == pre.func() && Wr::ready_post(pre.inner(), post.inner(), r)
    }

    open spec fn send_post(pre: Self, part: Part, post: Self, r: Result<Wr::Ret, Wr::Error>) -> bool {
        post.func() == pre.func() && Wr::send_post(pre.inner(), part, post.inner(), r)
    }

    open spec fn flush_post(pre: Self, post: Self, r: Poll<Result<(), Wr::Error>>) -> bool {
        post.func() == pre.func() && Wr::flush_post(pre.inner(), post.inner(), r)
    }

    open spec fn complete_post(pre: Self, post: Self, r: Poll<Result<U, Wr::Error>>) -> bool {
        &&& post.func() == pre.func()
        &&& exists|ir: Poll<Result<Wr::Output, Wr::Error>>|
            #[trigger] Wr::complete_post(pre.inner(), post.inner(), ir) && mapped_output(
                pre.func(),
                ir,
                r,
            )
    }

    fn poll_ready(&mut self) -> (r: Poll<Result<(), Wr::Error>>) {
        proof {
            assert(self.func() == self.f);
        }
        self.writer.poll_ready()
    }

    fn start_send(&mut self, part: Part) -> (r: Result<Wr::Ret, Wr::Error>) {
        proof {
            assert(self.func() == self.f);
        }
        self.writer.start_send(part)
    }

    fn poll_flush(&mut self) -> (r: Poll<Result<(), Wr::Error>>) {
        proof {
            assert(self.func() == self.f);
        }
        self.writer.poll_flush()
    }

    fn poll_complete(&mut self) -> (r: Poll<Result<U, Wr::Error>>) {
        proof {
            assert(self.func() == self.f);
        }
        let ir = self.writer.poll_complete();
        let ghost ir_g = ir;
        match ir {
            Poll::Pending => {
                assert(Wr::complete_post(old(self).inner(), self.inner(), ir_g));
                Poll::Pending
            },
            Poll::Ready(Err(e)) => {
                assert(Wr::complete_post(old(self).inner(), self.inner(), ir_g));
                Poll::Ready(Err(e))
            },
            Poll::Ready(Ok(o)) => {
                let u = (self.f)(o);
                assert(Wr::complete_post(old(self).inner(), self.inner(), ir_g));
                Poll::Ready(Ok(u))
            },
        }
    }
}

impl<U, Wr: FusedMultipartWrite<Part>, F: Fn(Wr::Output) -> U, Part> FusedMultipartWrite<
    Part,
> for MapOk<Wr, F> {
    open spec fn terminated(&self) -> bool {
        self.inner().terminated()
    }

    fn is_terminated(&self) -> (r: bool) {
        self.writer.is_terminated()
    }
}

} // verus!
