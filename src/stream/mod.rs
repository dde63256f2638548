//! Driving a [`MultipartWrite`] from a source of parts.
//!
//! A [`Stream`] is a pull-based source: each call of `poll_next` reports the
//! next item, the end of the source, or that no item is available yet.
//! [`MultipartStreamExt`] turns a source and a writer into either one output
//! ([`Assemble`]) or a stream of outputs cut by a completion policy
//! ([`Assembled`]).
use crate::{FusedMultipartWrite, MultipartWrite, Poll};
use vstd::prelude::*;

pub mod assemble;
pub mod assembled;
pub mod collect_completed;
pub mod count;
pub mod iter;

pub use assemble::Assemble;
pub use assembled::Assembled;
pub use collect_completed::CollectCompleted;
pub use count::{count_from, Count};
pub use iter::{iter, Iter};

verus! {

/// A source of items that are pulled one at a time.
pub trait Stream: Sized {
    /// The items this source yields.
    type Item;

    /// The items this source has yielded so far, in order.
    spec fn yielded(self) -> Seq<Self::Item>;

    /// How `poll_next` relates the source before the call, the source after
    /// it and its answer.
    spec fn next_post(pre: Self, post: Self, r: Poll<Option<Self::Item>>) -> bool;

    /// `post` is `pre` after some polls: what stays fixed while a source is
    /// polled.
    spec fn continues(pre: Self, post: Self) -> bool;

    /// A source continues itself.
    proof fn lemma_continues_refl(s: Self)
        ensures
            Self::continues(s, s),
    ;

    /// Continuing is transitive.
    proof fn lemma_continues_trans(a: Self, b: Self, c: Self)
        requires
            Self::continues(a, b),
            Self::continues(b, c),
        ensures
            Self::continues(a, c),
    ;

    /// Attempts to pull the next item: `Ready(Some(item))`, `Ready(None)` when
    /// the source has ended, or `Pending` when no item is available yet.
    fn poll_next(&mut self) -> (r: Poll<Option<Self::Item>>)
        ensures
            Self::next_post(*old(self), *final(self), r),
            Self::continues(*old(self), *final(self)),
            final(self).yielded() == match r {
                Poll::Ready(Some(item)) => old(self).yielded().push(item),
                _ => old(self).yielded(),
            },
    ;
}

/// Combinators that feed the items of a [`Stream`] to a [`MultipartWrite`].
pub trait MultipartStreamExt: Stream + Sized {
    /// Writes every item of this stream to `writer` and completes the write
    /// once, when the stream has ended.
    fn assemble<Wr: MultipartWrite<Self::Item>>(self, writer: Wr) -> (r: Assemble<Self, Wr>)
        requires
            writer.inv(),
        ensures
            r.wf(),
            r.pulled() == Seq::<Self::Item>::empty(),
            r.writer() == writer,
            !r.finished(),
    {
        Assemble::new(self, writer)
    }

    /// Writes the parts of this stream of results to `writer` and completes
    /// the write once, when the stream has ended; a failure of the stream is
    /// the result at once.
    fn collect_completed<P, Wr: MultipartWrite<P>>(self, writer: Wr) -> (r: CollectCompleted<
        Self,
        Wr,
        P,
    >) where Self: Stream<Item = Result<P, Wr::Error>>
        requires
            writer.inv(),
        ensures
            r.wf(),
            r.pulled() == Seq::<P>::empty(),
            r.writer() == writer,
            r.source() == self,
            !r.finished(),
    {
        CollectCompleted::new(self, writer)
    }

    /// Writes the items of this stream to `writer`, completing the write each
    /// time the policy `f` returns `true` for a send's acknowledgement.
    ///
    /// The result is a stream of the outputs of the completions. It ends when
    /// this stream ends, after one last completion if parts were sent since
    /// the previous one, or as soon as the writer reports that it has
    /// terminated.
    fn assembled<Wr: FusedMultipartWrite<Self::Item>, F: Fn(&Wr::Ret) -> bool>(
        self,
        writer: Wr,
        f: F,
    ) -> (r: Assembled<Self, Wr, F>)
        requires
            writer.inv(),
            forall|ret: &Wr::Ret| f.requires((ret,)),
        ensures
            r.wf(),
            r.pulled() == Seq::<Self::Item>::empty(),
            r.sessions() == Seq::<Seq<Self::Item>>::empty(),
            r.writer() == writer,
            !r.finished(),
    {
        Assembled::new(self, writer, f)
    }
}

impl<St: Stream> MultipartStreamExt for St {

}

} // verus!
