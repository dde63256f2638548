//! Mapping each input to a part, dropping the inputs that map to nothing.
use crate::write::some_ok;
use crate::{FusedMultipartWrite, MultipartWrite, Poll};
use vstd::prelude::*;

verus! {

/// `MultipartWrite` for [`MultipartWriteExt::filter_map`](super::MultipartWriteExt::filter_map).
pub struct FilterMap<Wr, F> {
    writer: Wr,
    f: F,
}

impl<Wr, F> FilterMap<Wr, F> {
    /// The wrapped writer.
    pub closed spec fn inner(self) -> Wr {
        self.writer
    }

    /// The function applied by this writer.
    pub closed spec fn func(self) -> F {
        self.f
    }

    /// Wraps `writer`.
    pub fn new(writer: Wr, f: F) -> (r: Self)
        ensures
            r.inner() == writer,
            r.func() == f,
    {
        FilterMap { writer, f }
    }

    /// Acquires a reference to the underlying writer.
    pub fn get_ref(&self) -> (r: &Wr)
        ensures
            *r == self.inner(),
    {
        &self.writer
    }

    /// Acquires a mutable reference to the underlying writer.
    ///
    /// It is inadvisable to directly write to the underlying writer.
    pub fn get_mut(&mut self) -> (r: &mut Wr)
        ensures
            *r == old(self).inner(),
            final(self).inner() == *final(r),
            final(self).func() == old(self).func(),
    {
        &mut self.writer
    }

    /// Acquires a mutable reference to the underlying writer; the same as
    /// [`get_mut`](Self::get_mut), since no writer here needs pinning.
    pub fn get_pin_mut(&mut self) -> (r: &mut Wr)
        ensures
            *r == old(self).inner(),
            final(self).inner() == *final(r),
            final(self).func() == old(self).func(),
    {
        &mut self.writer
    }
}

impl<Wr: MultipartWrite<Part>, U, Part, F: Fn(U) -> Option<Part>> MultipartWrite<U> for FilterMap<Wr, F> {
    type Ret = Option<Wr::Ret>;
    type Output = Wr::Output;
    type Error = Wr::Error;

    open spec fn inv(self) -> bool {
        self.inner().inv() && forall|u: U| self.func().requires((u,))
    }

    open spec fn ready_post(pre: Self, post: Self, r: Poll<Result<(), Wr::Error>>) -> bool {
        post.func() == pre.func() && Wr::ready_post(pre.inner(), post.inner(), r)
    }

    open spec fn flush_post(pre: Self, post: Self, r: Poll<Result<(), Wr::Error>>) -> bool {
        post.func() == pre.func() && Wr::flush_post(pre.inner(), post.inner(), r)
    }

    open spec fn send_post(pre: Self, it: U, post: Self, r: Result<Option<Wr::Ret>, Wr::Error>) -> bool {
        &&& post.func() == pre.func()
        &&& exists|mapped: Option<Part>|
            #[trigger] pre.func().ensures((it,), mapped) && match mapped {
                Some(part) => exists|ir: Result<Wr::Ret, Wr::Error>|
                    #[trigger] Wr::send_post(pre.inner(), part, post.inner(), ir) && r == some_ok(ir),
                None => post.inner() == pre.inner() && r == Ok::<Option<Wr::Ret>, Wr::Error>(None),
            }
    }

    open spec fn complete_post(pre: Self, post: Self, r: Poll<Result<Wr::Output, Wr::Error>>) -> bool {
        post.func() == pre.func() && Wr::complete_post(pre.inner(), post.inner(), r)
    }

    fn poll_ready(&mut self) -> (r: Poll<Result<(), Wr::Error>>) {
        proof {
            assert(self.func() == self.f);
        }
        self.writer.poll_ready()
    }

    fn poll_flush(&mut self) -> (r: Poll<Result<(), Wr::Error>>) {
        proof {
            assert(self.func() == self.f);
        }
        self.writer.poll_flush()
    }

    fn poll_complete(&mut self) -> (r: Poll<Result<Wr::Output, Wr::Error>>) {
        proof {
            assert(self.func() == self.f);
        }
        self.writer.poll_complete()
    }

    fn start_send(&mut self, it: U) -> (r: Result<Option<Wr::Ret>, Wr::Error>) {
        proof {
            assert(self.func() == self.f);
        }
        match (self.f)(it) {
            None => Ok(None),
            Some(part) => {
                let ir = self.writer.start_send(part);
                let ghost ir_g = ir;
                assert(Wr::send_post(old(self).inner(), part, self.inner(), ir_g));
                match ir {
                    Ok(ret) => Ok(Some(ret)),
                    Err(e) => Err(e),
                }
            },
        }
    }
}

impl<Wr: FusedMultipartWrite<Part>, U, Part, F: Fn(U) -> Option<Part>> FusedMultipartWrite<U> for FilterMap<Wr, F> {
    open spec fn terminated(&self) -> bool {
        self.inner().terminated()
    }

    fn is_terminated(&self) -> (r: bool) {
        self.writer.is_terminated()
    }
}

} // verus!
