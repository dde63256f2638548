//! Mapping what a writer returns for each part.
use crate::{FusedMultipartWrite, MultipartWrite, Poll};
use vstd::prelude::*;

verus! {

/// `MultipartWrite` for [`MultipartWriteExt::map_ret`](super::MultipartWriteExt::map_ret).
pub struct MapRet<Wr, F> {
    writer: Wr,
    f: F,
}

impl<Wr, F> MapRet<Wr, F> {
    /// The wrapped writer.
    pub closed spec fn inner(self) -> Wr {
        self.writer
    }

    /// The function applied by this writer.
    pub closed spec fn func(self) -> F {
        self.f
    }

    /// Wraps `writer`.
    pub fn new(writer: Wr, f: F) -> (r: Self)
        ensures
            r.inner() == writer,
            r.func() == f,
    {
        MapRet { writer, f }
    }

    /// Acquires a reference to the underlying writer.
    pub fn get_ref(&self) -> (r: &Wr)
        ensures
            *r == self.inner(),
    {
        &self.writer
    }

    /// Acquires a mutable reference to the underlying writer.
    ///
    /// It is inadvisable to directly write to the underlying writer.
    pub fn get_mut(&mut self) -> (r: &mut Wr)
        ensures
            *r == old(self).inner(),
            final(self).inner() == *final(r),
            final(self).func() == old(self).func(),
    {
        &mut self.writer
    }

    /// Acquires a mutable reference to the underlying writer; the same as
    /// [`get_mut`](Self::get_mut), since no writer here needs pinning.
    pub fn get_pin_mut(&mut self) -> (r: &mut Wr)
        ensures
            *r == old(self).inner(),
            final(self).inner() == *final(r),
            final(self).func() == old(self).func(),
    {
        &mut self.writer
    }
}

impl<U, Wr: MultipartWrite<Part>, F: Fn(Wr::Ret) -> U, Part> MultipartWrite<Part> for MapRet<Wr, F> {
    type Ret = U;
    type Output = Wr::Output;
    type Error = Wr::Error;

    open spec fn inv(self) -> bool {
        self.inner().inv() && forall|ret: Wr::Ret| self.func().requires((ret,))
    }

    open spec fn ready_post(pre: Self, post: Self, r: Poll<Result<(), Wr::Error>>) -> bool {
        post.func() == pre.func() && Wr::ready_post(pre.inner(), post.inner(), r)
    }

    open spec fn flush_post(pre: Self, post: Self, r: Poll<Result<(), Wr::Error>>) -> bool {
        post.func() == pre.func() && Wr::flush_post(pre.inner(), post.inner(), r)
    }

    open spec fn send_post(pre: Self, part: Part, post: Self, r: Result<U, Wr::Error>) -> bool {
        &&& post.func() == pre.func()
        &&& exists|ir: Result<Wr::Ret, Wr::Error>|
            #[trigger] Wr::send_post(pre.inner(), part, post.inner(), ir) && match ir {
                Ok(ret) => exists|u: U|
                    #[trigger] pre.func().ensures((ret,), u) && r == Ok::<U, Wr::Error>(u),
                Err(e) => r == Err::<U, Wr::Error>(e),
            }
    }

    open spec fn complete_post(pre: Self, post: Self, r: Poll<Result<Wr::Output, Wr::Error>>) -> bool {
        post.func() == pre.func() && Wr::complete_post(pre.inner(), post.inner(), r)
    }

    fn poll_ready(&mut self) -> (r: Poll<Result<(), Wr::Error>>) {
        proof {
            assert(self.func() == self.f);
        }
        self.writer.poll_ready()
    }

    fn poll_flush(&mut self) -> (r: Poll<Result<(), Wr::Error>>) {
        proof {
            assert(self.func() == self.f);
        }
        self.writer.poll_flush()
    }

    fn poll_complete(&mut self) -> (r: Poll<Result<Wr::Output, Wr::Error>>) {
        proof {
            assert(self.func() == self.f);
        }
        self.writer.poll_complete()
    }

    fn start_send(&mut self, part: Part) -> (r: Result<U, Wr::Error>) {
        proof {
            assert(self.func() == self.f);
        }
        let ir = self.writer.start_send(part);
        let ghost ir_g = ir;
        assert(Wr::send_post(old(self).inner(), part, self.inner(), ir_g));
        match ir {
            Ok(ret) => Ok((self.f)(ret)),
            Err(e) => Err(e),
        }
    }
}

impl<U, Wr: FusedMultipartWrite<Part>, F: Fn(Wr::Ret) -> U, Part> FusedMultipartWrite<Part> for MapRet<Wr, F> {
    open spec fn terminated(&self) -> bool {
        self.inner().terminated()
    }

    fn is_terminated(&self) -> (r: bool) {
        self.writer.is_terminated()
    }
}

} // verus!
