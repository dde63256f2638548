//! Writing an object in parts.
//!
//! A [`MultipartWrite`] is a push-based writer in the manner of a sink, except
//! that sending a part and completing the write both hand a value back to the
//! caller. Suspension is explicit: an operation that cannot finish yet reports
//! [`Poll::Pending`] and is retried by a later call.
use vstd::prelude::*;

pub mod io;
pub mod stream;
pub mod write;

verus! {

/// The result of an operation that may not be able to finish yet.
pub enum Poll<T> {
    /// The operation finished with this value.
    Ready(T),
    /// The operation cannot make progress now; retry it later.
    Pending,
}

impl<T> Poll<T> {
    /// Returns `true` when the operation finished.
    pub fn is_ready(&self) -> (r: bool)
        ensures
            r == (self is Ready),
    {
        match self {
            Poll::Ready(_) => true,
            Poll::Pending => false,
        }
    }
}

/// A writer that assembles an object from parts, in sessions.
///
/// Each operation's effect is described by a relation between the writer
/// before the call, the writer after it and the result, which holds whenever
/// the writer is well-formed. Each implementation states its relations as
/// exactly as what it calls allows: a combinator in terms of the relations of
/// the writers it wraps.
pub trait MultipartWrite<Part>: Sized {
    /// What a successful `start_send` returns.
    type Ret;

    /// What a completed session produces.
    type Output;

    /// What a failed operation returns.
    type Error;

    /// The writer's own well-formedness, which every operation preserves.
    spec fn inv(self) -> bool;

    /// How `poll_ready` relates `pre`, `post` and its result.
    spec fn ready_post(pre: Self, post: Self, r: Poll<Result<(), Self::Error>>) -> bool;

    /// How `start_send` of `part` relates `pre`, `post` and its result.
    spec fn send_post(pre: Self, part: Part, post: Self, r: Result<Self::Ret, Self::Error>) -> bool;

    /// How `poll_flush` relates `pre`, `post` and its result.
    spec fn flush_post(pre: Self, post: Self, r: Poll<Result<(), Self::Error>>) -> bool;

    /// How `poll_complete` relates `pre`, `post` and its result.
    spec fn complete_post(pre: Self, post: Self, r: Poll<Result<Self::Output, Self::Error>>) -> bool;

    /// Attempts to prepare the writer to receive a new part.
    ///
    /// It must report `Ready(Ok(()))` before each call of `start_send`.
    fn poll_ready(&mut self) -> (r: Poll<Result<(), Self::Error>>)
        requires
            old(self).inv(),
        ensures
            final(self).inv(),
            Self::ready_post(*old(self), *final(self), r),
    ;

    /// Writes one part; this never suspends.
    fn start_send(&mut self, part: Part) -> (r: Result<Self::Ret, Self::Error>)
        requires
            old(self).inv(),
        ensures
            final(self).inv(),
            Self::send_post(*old(self), part, *final(self), r),
    ;

    /// Drains what the writer holds internally.
    fn poll_flush(&mut self) -> (r: Poll<Result<(), Self::Error>>)
        requires
            old(self).inv(),
        ensures
            final(self).inv(),
            Self::flush_post(*old(self), *final(self), r),
    ;

    /// Completes the open session, returning its output and starting a new
    /// session.
    fn poll_complete(&mut self) -> (r: Poll<Result<Self::Output, Self::Error>>)
        requires
            old(self).inv(),
        ensures
            final(self).inv(),
            Self::complete_post(*old(self), *final(self), r),
    ;
}

/// A writer that can tell when it must no longer be driven.
pub trait FusedMultipartWrite<Part>: MultipartWrite<Part> {
    /// Whether the writer has permanently stopped accepting work.
    spec fn terminated(&self) -> bool;

    /// Returns `true` if the writer should no longer be polled.
    fn is_terminated(&self) -> (r: bool)
        ensures
            r == self.terminated(),
    ;
}

} // verus!
