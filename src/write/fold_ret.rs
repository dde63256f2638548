//! Accumulating what a writer returns for each part.
use crate::{FusedMultipartWrite, MultipartWrite, Poll};
use vstd::pervasive::cloned;
use vstd::prelude::*;

verus! {

/// `MultipartWrite` for [`MultipartWriteExt::fold_ret`](super::MultipartWriteExt::fold_ret).
///
/// Each acknowledgement of the underlying writer is folded into an
/// accumulator with `f`. A completion outputs the accumulator beside the
/// underlying output, and the next session starts from a clone of the
/// initial value.
pub struct FoldRet<Wr, T, F> {
    writer: Wr,
    init: T,
    acc: Option<T>,
    f: F,
}

impl<Wr, T, F> FoldRet<Wr, T, F> {
    /// The wrapped writer.
    pub closed spec fn inner(self) -> Wr {
        self.writer
    }

    /// The folding function.
    pub closed spec fn func(self) -> F {
        self.f
    }

    /// The value each session's accumulator starts from.
    pub closed spec fn initial(self) -> T {
        self.init
    }

    /// The accumulator of the open session.
    pub closed spec fn acc(self) -> Option<T> {
        self.acc
    }

    /// Wraps `writer`, folding its acknowledgements into `init` with `f`.
    pub fn new(writer: Wr, init: T, f: F) -> (r: Self) where T: Clone
        ensures
            r.inner() == writer,
            r.func() == f,
            r.initial() == init,
            r.acc() is Some && cloned(init, r.acc()->0),
    {
        let acc = init.clone();
        FoldRet { writer, init, acc: Some(acc), f }
    }

    /// Acquires a reference to the underlying writer.
    pub fn get_ref(&self) -> (r: &Wr)
        ensures
            *r == self.inner(),
    {
        &self.writer
    }

    /// Acquires a mutable reference to the underlying writer.
    ///
    /// It is inadvisable to directly write to the underlying writer.
    pub fn get_mut(&mut self) -> (r: &mut Wr)
        ensures
            *r == old(self).inner(),
            final(self).inner() == *final(r),
            final(self).func() == old(self).func(),
            final(self).initial() == old(self).initial(),
            final(self).acc() == old(self).acc(),
    {
        &mut self.writer
    }

    /// Acquires a mutable reference to the underlying writer; the same as
    /// [`get_mut`](Self::get_mut), since no writer here needs pinning.
    pub fn get_pin_mut(&mut self) -> (r: &mut Wr)
        ensures
            *r == old(self).inner(),
            final(self).inner() == *final(r),
            final(self).func() == old(self).func(),
            final(self).initial() == old(self).initial(),
            final(self).acc() == old(self).acc(),
    {
        &mut self.writer
    }
}

impl<Wr: MultipartWrite<Part>, T: Clone, F: Fn(T, &Wr::Ret) -> T, Part> MultipartWrite<Part> for FoldRet<
    Wr,
    T,
    F,
> {
    type Ret = Wr::Ret;
    type Output = (T, Wr::Output);
    type Error = Wr::Error;

    open spec fn inv(self) -> bool {
        &&& self.inner().inv()
        &&& self.acc() is Some
        &&& forall|a: T, ret: &Wr::Ret| self.func().requires((a, ret))
    }

    open spec fn ready_post(pre: Self, post: Self, r: Poll<Result<(), Wr::Error>>) -> bool {
        &&& post.func() == pre.func() && post.initial() == pre.initial() && post.acc() == pre.acc()
        &&& Wr::ready_post(pre.inner(), post.inner(), r)
    }

    open spec fn send_post(pre: Self, part: Part, post: Self, r: Result<Wr::Ret, Wr::Error>) -> bool {
        &&& post.func() == pre.func() && post.initial() == pre.initial()
        &&& Wr::send_post(pre.inner(), part, post.inner(), r)
        &&& match r {
            Ok(ret) => post.acc() is Some && pre.func().ensures((pre.acc()->0, &ret), post.acc()->0),
            Err(_) => post.acc() == pre.acc(),
        }
    }

    open spec fn flush_post(pre: Self, post: Self, r: Poll<Result<(), Wr::Error>>) -> bool {
        &&& post.func() == pre.func() && post.initial() == pre.initial() && post.acc() == pre.acc()
        &&& Wr::flush_post(pre.inner(), post.inner(), r)
    }

    open spec fn complete_post(pre: Self, post: Self, r: Poll<Result<(T, Wr::Output), Wr::Error>>) -> bool {
        &&& post.func() == pre.func() && post.initial() == pre.initial()
        &&& exists|ir: Poll<Result<Wr::Output, Wr::Error>>|
            #[trigger] Wr::complete_post(pre.inner(), post.inner(), ir) && match ir {
                Poll::Ready(Ok(o)) => {
                    &&& r == Poll::<Result<(T, Wr::Output), Wr::Error>>::Ready(Ok((pre.acc()->0, o)))
                    &&& post.acc() is Some && cloned(pre.initial(), post.acc()->0)
                },
                Poll::Ready(Err(e)) => r == Poll::<Result<(T, Wr::Output), Wr::Error>>::Ready(Err(e))
                    && post.acc() == pre.acc(),
                Poll::Pending => r is Pending && post.acc() == pre.acc(),
            }
    }

    fn poll_ready(&mut self) -> (r: Poll<Result<(), Wr::Error>>) {
        proof {
            assert(self.func() == self.f);
        }
        self.writer.poll_ready()
    }

    fn start_send(&mut self, part: Part) -> (r: Result<Wr::Ret, Wr::Error>) {
        proof {
            assert(self.func() == self.f);
        }
        let ret = self.writer.start_send(part);
        match ret {
            Ok(ret) => {
                if let Some(acc) = self.acc.take() {
                    self.acc = Some((self.f)(acc, &ret));
                }
                Ok(ret)
            },
            Err(e) => Err(e),
        }
    }

    fn poll_flush(&mut self) -> (r: Poll<Result<(), Wr::Error>>) {
        proof {
            assert(self.func() == self.f);
        }
        self.writer.poll_flush()
    }

    fn poll_complete(&mut self) -> (r: Poll<Result<(T, Wr::Output), Wr::Error>>) {
        proof {
            assert(self.func() == self.f);
        }
        let ir = self.writer.poll_complete();
        let ghost ir_g = ir;
        assert(Wr::complete_post(old(self).inner(), self.inner(), ir_g));
        match ir {
            Poll::Pending => Poll::Pending,
            Poll::Ready(Err(e)) => Poll::Ready(Err(e)),
            Poll::Ready(Ok(output)) => {
                let fresh = self.init.clone();
                match self.acc.take() {
                    Some(acc) => {
                        self.acc = Some(fresh);
                        Poll::Ready(Ok((acc, output)))
                    },
                    None => {
                        self.acc = Some(fresh);
                        Poll::Pending
                    },
                }
            },
        }
    }
}

impl<Wr: FusedMultipartWrite<Part>, T: Clone, F: Fn(T, &Wr::Ret) -> T, Part> FusedMultipartWrite<
    Part,
> for FoldRet<Wr, T, F> {
    open spec fn terminated(&self) -> bool {
        self.inner().terminated()
    }

    fn is_terminated(&self) -> (r: bool) {
        self.writer.is_terminated()
    }
}

} // verus!
