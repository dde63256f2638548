//! A writer that collects its parts in a `Vec`.
use crate::write::stream_writer::keeps_session;
use crate::{FusedMultipartWrite, MultipartWrite, Poll};
use vstd::prelude::*;

verus! {

/// Returns a writer that appends each part to `inner`.
///
/// Completing it hands the collected parts out and starts the next session
/// with an empty collection.
pub fn extend<A>(inner: Vec<A>) -> (r: Extend<A>)
    ensures
        r.collected() == inner@,
{
    Extend::new(inner)
}

/// The session invariant of an [`Extend`] writer: it holds exactly the parts
/// of its open session.
pub open spec fn holds_session<A>() -> spec_fn(Extend<A>, Seq<A>) -> bool {
    |w: Extend<A>, s: Seq<A>| w.collected() == s
}

/// What an output of an [`Extend`] writer says of its session: it holds
/// exactly the session's parts.
pub open spec fn output_holds<A>() -> spec_fn(Vec<A>, Seq<A>) -> bool {
    |o: Vec<A>, s: Seq<A>| o@ == s
}

/// What an acknowledgement of an [`Extend`] writer says of its session: it
/// is the number of parts in the session so far (as a `usize`).
pub open spec fn acks_length<A>() -> spec_fn(usize, Seq<A>) -> bool {
    |ret: usize, s: Seq<A>| ret == s.len() as usize
}

/// `MultipartWrite` that collects its parts verbatim.
///
/// A send acknowledges with the number of parts held in the open session.
/// The writer never fails and never terminates.
pub struct Extend<A> {
    inner: Vec<A>,
}

impl<A> Extend<A> {
    /// The parts held in the open session, in order.
    pub closed spec fn collected(self) -> Seq<A> {
        self.inner@
    }

    /// Creates the writer with `inner` as the open session's collection.
    pub fn new(inner: Vec<A>) -> (r: Self)
        ensures
            r.collected() == inner@,
    {
        Extend { inner }
    }

    /// The writer records its parts verbatim: its operations keep the
    /// session invariant [`holds_session`], and each completion outputs
    /// exactly the parts of the session it closes.
    pub proof fn lemma_keeps_session()
        ensures
            keeps_session::<Self, A>(holds_session(), output_holds(), acks_length()),
    {
    }

    /// Flushing twice in a row has the effect of flushing once, which is
    /// none: the writer and its open session stay as they were.
    pub proof fn lemma_flush_idempotent(
        pre: Self,
        mid: Self,
        post: Self,
        r1: Poll<Result<(), std::convert::Infallible>>,
        r2: Poll<Result<(), std::convert::Infallible>>,
    )
        requires
            <Self as MultipartWrite<A>>::flush_post(pre, mid, r1),
            <Self as MultipartWrite<A>>::flush_post(mid, post, r2),
        ensures
            post == mid,
            mid == pre,
            post.collected() == pre.collected(),
            r1 == r2,
    {
    }
}

impl<A> MultipartWrite<A> for Extend<A> {
    type Ret = usize;
    type Output = Vec<A>;
    type Error = std::convert::Infallible;

    open spec fn inv(self) -> bool {
        true
    }

    open spec fn ready_post(pre: Self, post: Self, r: Poll<Result<(), std::convert::Infallible>>) -> bool {
        post == pre && r == Poll::<Result<(), std::convert::Infallible>>::Ready(Ok(()))
    }

    open spec fn send_post(pre: Self, part: A, post: Self, r: Result<usize, std::convert::Infallible>) -> bool {
        post.collected() == pre.collected().push(part) && r == Ok::<usize, std::convert::Infallible>(
            post.collected().len() as usize,
        )
    }

    open spec fn flush_post(pre: Self, post: Self, r: Poll<Result<(), std::convert::Infallible>>) -> bool {
        post == pre && r == Poll::<Result<(), std::convert::Infallible>>::Ready(Ok(()))
    }

    open spec fn complete_post(pre: Self, post: Self, r: Poll<Result<Vec<A>, std::convert::Infallible>>) -> bool {
        &&& post.collected() == Seq::<A>::empty()
        &&& r is Ready
        &&& r->Ready_0 is Ok
        &&& r->Ready_0->Ok_0@ == pre.collected()
    }

    fn poll_ready(&mut self) -> (r: Poll<Result<(), std::convert::Infallible>>) {
        Poll::Ready(Ok(()))
    }

    fn start_send(&mut self, part: A) -> (r: Result<usize, std::convert::Infallible>) {
        self.inner.push(part);
        Ok(self.inner.len())
    }

    fn poll_flush(&mut self) -> (r: Poll<Result<(), std::convert::Infallible>>) {
        Poll::Ready(Ok(()))
    }

    fn poll_complete(&mut self) -> (r: Poll<Result<Vec<A>, std::convert::Infallible>>) {
        let mut out: Vec<A> = Vec::new();
        std::mem::swap(&mut out, &mut self.inner);
        Poll::Ready(Ok(out))
    }
}

impl<A> FusedMultipartWrite<A> for Extend<A> {
    open spec fn terminated(&self) -> bool {
        false
    }

    fn is_terminated(&self) -> (r: bool) {
        false
    }
}

} // verus!
