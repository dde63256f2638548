//! Writers and combinators over [`MultipartWrite`](crate::MultipartWrite).
//!
//! The extension trait [`MultipartWriteExt`] provides adapters for chaining
//! and composing writers.
use crate::MultipartWrite;
use vstd::prelude::*;

pub mod buffered;
pub mod complete;
pub mod extend;
pub mod fanout;
pub mod feed;
pub mod filter;
pub mod filter_map;
pub mod flush;
pub mod fold_ret;
pub mod fuse;
pub mod lift;
pub mod map_err;
pub mod map_ok;
pub mod map_part;
pub mod map_ret;
pub mod send_part;
pub mod stream_writer;

pub use buffered::Buffered;
pub use complete::Complete;
pub use extend::{extend, Extend};
pub use fanout::{Fanout, FanoutError};
pub use feed::Feed;
pub use filter::Filter;
pub use filter_map::FilterMap;
pub use flush::Flush;
pub use fold_ret::FoldRet;
pub use fuse::Fuse;
pub use lift::Lift;
pub use map_err::MapErr;
pub use map_ok::MapOk;
pub use map_part::MapPart;
pub use map_ret::MapRet;
pub use send_part::SendPart;
pub use stream_writer::{StreamWriter, StreamWriterState};

verus! {

impl<Wr: MultipartWrite<Part>, Part> MultipartWriteExt<Part> for Wr {

}

/// An extension trait for `MultipartWrite` providing combinators.
pub trait MultipartWriteExt<Part>: MultipartWrite<Part> {
    /// Maps this writer's output to a different value with `f`.
    fn map_ok<U, F: Fn(Self::Output) -> U>(self, f: F) -> (r: MapOk<Self, F>)
        requires
            self.inv(),
            forall|o: Self::Output| f.requires((o,)),
        ensures
            r.inner() == self,
            r.func() == f,
            <MapOk<Self, F> as MultipartWrite<Part>>::inv(r),
    {
        MapOk::new(self, f)
    }

    /// Puts the writer `other` in front of this one: parts go to `other`,
    /// and each flush or completion sends `other`'s output to this writer as
    /// one part.
    fn lift<U: MultipartWrite<T, Output = Part>, T>(self, other: U) -> (r: Lift<Self, U, Part>) where
        Self::Error: From<U::Error>,
        requires
            self.inv(),
            other.inv(),
        ensures
            r.inner() == self,
            r.front() == other,
            r.pending_part() is None,
            <Lift<Self, U, Part> as MultipartWrite<T>>::inv(r),
    {
        Lift::new(self, other)
    }

    /// Maps this writer's errors to a different value with `f`.
    fn map_err<E, F: Fn(Self::Error) -> E>(self, f: F) -> (r: MapErr<Self, F>)
        requires
            self.inv(),
            forall|e: Self::Error| f.requires((e,)),
        ensures
            r.inner() == self,
            r.func() == f,
            <MapErr<Self, F> as MultipartWrite<Part>>::inv(r),
    {
        MapErr::new(self, f)
    }

    /// Maps what this writer returns for each part with `f`.
    fn map_ret<U, F: Fn(Self::Ret) -> U>(self, f: F) -> (r: MapRet<Self, F>)
        requires
            self.inv(),
            forall|ret: Self::Ret| f.requires((ret,)),
        ensures
            r.inner() == self,
            r.func() == f,
            <MapRet<Self, F> as MultipartWrite<Part>>::inv(r),
    {
        MapRet::new(self, f)
    }

    /// Returns a writer of `U`s that maps each with `f` to a part of this
    /// writer.
    fn map_part<U, F: Fn(U) -> Part>(self, f: F) -> (r: MapPart<Self, F>)
        requires
            self.inv(),
            forall|u: U| f.requires((u,)),
        ensures
            r.inner() == self,
            r.func() == f,
            <MapPart<Self, F> as MultipartWrite<U>>::inv(r),
    {
        MapPart::new(self, f)
    }

    /// Writes only the parts for which `f` returns `true`; a part that is
    /// dropped returns `None`.
    fn filter<F: Fn(&Part) -> bool>(self, f: F) -> (r: Filter<Self, F>)
        requires
            self.inv(),
            forall|part: &Part| f.requires((part,)),
        ensures
            r.inner() == self,
            r.func() == f,
            <Filter<Self, F> as MultipartWrite<Part>>::inv(r),
    {
        Filter::new(self, f)
    }

    /// Maps each input with `f` and writes the parts it returns; an input
    /// mapped to `None` is dropped and returns `None`.
    fn filter_map<U, F: Fn(U) -> Option<Part>>(self, f: F) -> (r: FilterMap<Self, F>)
        requires
            self.inv(),
            forall|u: U| f.requires((u,)),
        ensures
            r.inner() == self,
            r.func() == f,
            <FilterMap<Self, F> as MultipartWrite<U>>::inv(r),
    {
        FilterMap::new(self, f)
    }

    /// Folds what this writer returns for each part into an accumulator
    /// starting at `init`; a completion outputs the accumulator with this
    /// writer's output.
    fn fold_ret<T: Clone, F: Fn(T, &Self::Ret) -> T>(self, init: T, f: F) -> (r: FoldRet<Self, T, F>)
        requires
            self.inv(),
            forall|a: T, ret: &Self::Ret| f.requires((a, ret)),
        ensures
            r.inner() == self,
            r.func() == f,
            r.initial() == init,
            <FoldRet<Self, T, F> as MultipartWrite<Part>>::inv(r),
    {
        FoldRet::new(self, init, f)
    }

    /// Returns a writer that terminates once an output passes `f`; after
    /// that every operation succeeds at once and does nothing.
    fn fuse<F: Fn(&Self::Output) -> bool>(self, f: F) -> (r: Fuse<Self, F>)
        requires
            self.inv(),
            forall|o: &Self::Output| f.requires((o,)),
        ensures
            r.inner() == self,
            r.func() == f,
            !r.fused(),
            <Fuse<Self, F> as MultipartWrite<Part>>::inv(r),
    {
        Fuse::new(self, f)
    }

    /// Sends each part to this writer and, cloned, to `other`.
    fn fanout<U: MultipartWrite<Part>>(self, other: U) -> (r: Fanout<Self, U, Part>) where
        Part: Clone,
        requires
            self.inv(),
            other.inv(),
        ensures
            r.first() == self,
            r.second() == other,
            r.held() is None,
            <Fanout<Self, U, Part> as MultipartWrite<Part>>::inv(r),
    {
        Fanout::new(self, other)
    }

    /// Puts a queue of up to `capacity` parts in front of this writer, which
    /// takes parts while this writer is not ready.
    fn buffered(self, capacity: usize) -> (r: Buffered<Self, Part>)
        requires
            self.inv(),
        ensures
            r.inner() == self,
            r.capacity() == capacity,
            r.queue() == Seq::<Part>::empty(),
            <Buffered<Self, Part> as MultipartWrite<Part>>::inv(r),
    {
        Buffered::new(self, capacity)
    }

    /// A future that flushes this writer.
    fn flush(&mut self) -> (r: Flush<'_, Self>)
        ensures
            r.writer() == *old(self),
    {
        Flush::new(self)
    }

    /// A future that completes this writer's session, resolving to its
    /// output.
    fn complete(&mut self) -> (r: Complete<'_, Self>)
        ensures
            r.writer() == *old(self),
            !r.finished(),
    {
        Complete::new(self)
    }

    /// A future that sends `part` once this writer is ready and then
    /// flushes it.
    fn send_part(&mut self, part: Part) -> (r: SendPart<'_, Self, Part>)
        ensures
            r.wf(),
            r.writer() == *old(self),
            r.part() == Some(part),
            r.output() is None,
    {
        SendPart::new(self, part)
    }

    /// A future that sends `part` once this writer is ready, without
    /// flushing it.
    fn feed(&mut self, part: Part) -> (r: Feed<'_, Self, Part>)
        ensures
            r.writer() == *old(self),
            r.part() == Some(part),
    {
        Feed::new(self, part)
    }
}

/// `ir` with a success's value wrapped in `Some`.
pub open spec fn some_ok<T, E>(ir: Result<T, E>) -> Result<Option<T>, E> {
    match ir {
        Ok(t) => Ok(Some(t)),
        Err(e) => Err(e),
    }
}

} // verus!
