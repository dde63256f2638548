//! A writer that terminates when an output passes a predicate.
use crate::write::some_ok;
use crate::{FusedMultipartWrite, MultipartWrite, Poll};
use vstd::prelude::*;

verus! {

/// `MultipartWrite` for [`MultipartWriteExt::fuse`](super::MultipartWriteExt::fuse).
pub struct Fuse<Wr, F> {
    writer: Wr,
    f: F,
    is_terminated: bool,
}

impl<Wr, F> Fuse<Wr, F> {
    /// The wrapped writer.
    pub closed spec fn inner(self) -> Wr {
        self.writer
    }

    /// The predicate on outputs after which the writer terminates.
    pub closed spec fn func(self) -> F {
        self.f
    }

    /// Whether an output has passed the predicate.
    pub closed spec fn fused(self) -> bool {
        self.is_terminated
    }

    /// Wraps `writer`.
    pub fn new(writer: Wr, f: F) -> (r: Self)
        ensures
            r.inner() == writer,
            r.func() == f,
            !r.fused(),
    {
        Fuse { writer, f, is_terminated: false }
    }

    /// Consumes `Fuse`, returning the underlying writer.
    pub fn into_inner(self) -> (r: Wr)
        ensures
            r == self.inner(),
    {
        self.writer
    }

    /// Acquires a reference to the underlying writer.
    pub fn get_ref(&self) -> (r: &Wr)
        ensures
            *r == self.inner(),
    {
        &self.writer
    }

    /// Acquires a mutable reference to the underlying writer.
    ///
    /// It is inadvisable to directly write to the underlying writer.
    pub fn get_mut(&mut self) -> (r: &mut Wr)
        ensures
            *r == old(self).inner(),
            final(self).inner() == *final(r),
            final(self).func() == old(self).func(),
            final(self).fused() == old(self).fused(),
    {
        &mut self.writer
    }

    /// Acquires a mutable reference to the underlying writer; the same as
    /// [`get_mut`](Self::get_mut), since no writer here needs pinning.
    pub fn get_pin_mut(&mut self) -> (r: &mut Wr)
        ensures
            *r == old(self).inner(),
            final(self).inner() == *final(r),
            final(self).func() == old(self).func(),
            final(self).fused() == old(self).fused(),
    {
        &mut self.writer
    }
}

impl<Wr: MultipartWrite<Part>, F: Fn(&Wr::Output) -> bool, Part> MultipartWrite<Part> for Fuse<Wr, F> {
    type Ret = Option<Wr::Ret>;
    type Output = Option<Wr::Output>;
    type Error = Wr::Error;

    open spec fn inv(self) -> bool {
        self.inner().inv() && forall|o: &Wr::Output| self.func().requires((o,))
    }

    open spec fn ready_post(pre: Self, post: Self, r: Poll<Result<(), Wr::Error>>) -> bool {
        if pre.fused() {
            post == pre && r == Poll::<Result<(), Wr::Error>>::Ready(Ok(()))
        } else {
            &&& post.func() == pre.func()
            &&& !post.fused()
            &&& Wr::ready_post(pre.inner(), post.inner(), r)
        }
    }

    open spec fn send_post(pre: Self, part: Part, post: Self, r: Result<Option<Wr::Ret>, Wr::Error>) -> bool {
        if pre.fused() {
            post == pre && r == Ok::<Option<Wr::Ret>, Wr::Error>(None)
        } else {
            &&& post.func() == pre.func()
            &&& !post.fused()
            &&& exists|ir: Result<Wr::Ret, Wr::Error>|
                #[trigger] Wr::send_post(pre.inner(), part, post.inner(), ir) && r == some_ok(ir)
        }
    }

    open spec fn flush_post(pre: Self, post: Self, r: Poll<Result<(), Wr::Error>>) -> bool {
        if pre.fused() {
            post == pre && r == Poll::<Result<(), Wr::Error>>::Ready(Ok(()))
        } else {
            &&& post.func() == pre.func()
            &&& !post.fused()
            &&& Wr::flush_post(pre.inner(), post.inner(), r)
        }
    }

    open spec fn complete_post(pre: Self, post: Self, r: Poll<Result<Option<Wr::Output>, Wr::Error>>) -> bool {
        if pre.fused() {
            post == pre && r == Poll::<Result<Option<Wr::Output>, Wr::Error>>::Ready(Ok(None))
        } else {
            &&& post.func() == pre.func()
            &&& exists|ir: Poll<Result<Wr::Output, Wr::Error>>|
                #[trigger] Wr::complete_post(pre.inner(), post.inner(), ir) && match ir {
                    Poll::Pending => r is Pending && !post.fused(),
                    Poll::Ready(Err(e)) => r == Poll::<Result<Option<Wr::Output>, Wr::Error>>::Ready(Err(e))
                        && !post.fused(),
                    Poll::Ready(Ok(o)) => r == Poll::<Result<Option<Wr::Output>, Wr::Error>>::Ready(Ok(Some(o)))
                        && pre.func().ensures((&o,), post.fused()),
                }
        }
    }

    fn poll_ready(&mut self) -> (r: Poll<Result<(), Wr::Error>>) {
        proof {
            assert(self.func() == self.f);
        }
        if self.is_terminated {
            return Poll::Ready(Ok(()));
        }
        self.writer.poll_ready()
    }

    fn start_send(&mut self, part: Part) -> (r: Result<Option<Wr::Ret>, Wr::Error>) {
        proof {
            assert(self.func() == self.f);
        }
        if self.is_terminated {
            return Ok(None);
        }
        let ir = self.writer.start_send(part);
        let ghost ir_g = ir;
        assert(Wr::send_post(old(self).inner(), part, self.inner(), ir_g));
        match ir {
            Ok(ret) => Ok(Some(ret)),
            Err(e) => Err(e),
        }
    }

    fn poll_flush(&mut self) -> (r: Poll<Result<(), Wr::Error>>) {
        proof {
            assert(self.func() == self.f);
        }
        if self.is_terminated {
            return Poll::Ready(Ok(()));
        }
        self.writer.poll_flush()
    }

    fn poll_complete(&mut self) -> (r: Poll<Result<Option<Wr::Output>, Wr::Error>>) {
        proof {
            assert(self.func() == self.f);
        }
        if self.is_terminated {
            return Poll::Ready(Ok(None));
        }
        let ir = self.writer.poll_complete();
        let ghost ir_g = ir;
        assert(Wr::complete_post(old(self).inner(), self.inner(), ir_g));
        match ir {
            Poll::Pending => Poll::Pending,
            Poll::Ready(Err(e)) => Poll::Ready(Err(e)),
            Poll::Ready(Ok(o)) => {
                let done = (self.f)(&o);
                self.is_terminated = done;
                Poll::Ready(Ok(Some(o)))
            },
        }
    }
}

impl<Wr: MultipartWrite<Part>, F: Fn(&Wr::Output) -> bool, Part> FusedMultipartWrite<Part> for Fuse<Wr, F> {
    open spec fn terminated(&self) -> bool {
        self.fused()
    }

    fn is_terminated(&self) -> (r: bool) {
        self.is_terminated
    }
}

} // verus!
