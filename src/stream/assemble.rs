//! Driving a writer to one completion over a whole source.
use crate::stream::iter::Iter;
use crate::stream::Stream;
use crate::write::stream_writer::{
    failed_with, sent_post,
    freeze_post, keeps_session, unsent_post, StreamWriter, StreamWriterState,
};
use crate::stream::assembled::STEP_BUDGET;
use crate::{MultipartWrite, Poll};
use vstd::prelude::*;

verus! {

/// With an [`Iter`] source created fresh: once the source reported its
/// end, which a successful result ensures, the future had pulled every item
/// of the source, each once, in order.
pub proof fn lemma_iter_pulls_all<T, Wr: MultipartWrite<T>>(e: Assemble<Iter<T>, Wr>)
    requires
        e.wf(),
        Iter::<T>::next_post(e.source_before_end(), e.source(), Poll::Ready(None)),
        e.source_start().yielded() == Seq::<T>::empty(),
    ensures
        e.pulled() == e.source_start().items(),
{
    assert(e.source().remaining() == Seq::<T>::empty());
    assert(e.source().items() =~= e.pulled());
}

/// Future for [`assemble`](super::MultipartStreamExt::assemble).
///
/// It is the single-session case of the engine: the same bridge sends every
/// item of the source and the end of the source is the only cut. Each call of
/// `poll` runs a bounded number of steps and yields `Pending` when the budget
/// is spent, so that the caller polls again.
#[verifier::reject_recursive_types(St)]
#[verifier::reject_recursive_types(Wr)]
pub struct Assemble<St: Stream, Wr: MultipartWrite<St::Item>> {
    stream: St,
    writer: StreamWriter<Wr, St::Item>,
    state: StreamWriterState,
    is_terminated: bool,
    start_yielded: Ghost<Seq<St::Item>>,
    end_src: Ghost<St>,
    src_start: Ghost<St>,
}

/// The number of steps without a pull or a send after which a call of
/// `Assemble::poll` in state `s` must have returned.
pub open spec fn assemble_idle_steps(s: StreamWriterState) -> int {
    match s {
        StreamWriterState::Freeze => 1,
        _ => 0,
    }
}

impl<St: Stream, Wr: MultipartWrite<St::Item>> Assemble<St, Wr> {
    /// Every item pulled from the source, in order.
    pub closed spec fn pulled(self) -> Seq<St::Item> {
        self.writer.fed()
    }

    /// The sessions completed: none until the future resolves to an output.
    pub closed spec fn sessions(self) -> Seq<Seq<St::Item>> {
        self.writer.sessions()
    }

    /// What the output says of the parts of its session.
    pub closed spec fn output_inv(self) -> spec_fn(Wr::Output, Seq<St::Item>) -> bool {
        self.writer.output_inv()
    }

    /// The source.
    pub closed spec fn source(self) -> St {
        self.stream
    }

    /// What the source had yielded when this future was created.
    pub closed spec fn start_yielded(self) -> Seq<St::Item> {
        self.start_yielded@
    }

    /// The source as it was when this was created.
    pub closed spec fn source_start(self) -> St {
        self.src_start@
    }

    /// The source as it was when it reported its end.
    pub closed spec fn source_before_end(self) -> St {
        self.end_src@
    }

    /// The source has reported its end.
    pub closed spec fn source_ended(self) -> bool {
        self.state is Freeze || (self.state is Shutdown && St::next_post(
            self.end_src@,
            self.stream,
            Poll::Ready(None),
        ))
    }

    /// Every part handed to the writer so far.
    pub closed spec fn sent(self) -> Seq<St::Item> {
        self.writer.sent()
    }

    /// The call from `pre` to `self` pulled or sent at least one part.
    pub open spec fn progressed_from(self, pre: Self) -> bool {
        self.pulled().len() > pre.pulled().len() || self.sent().len() > pre.sent().len()
    }

    /// For each part handed to the writer, the acknowledgement of its send,
    /// or `None` when the send failed.
    pub closed spec fn acks(self) -> Seq<Option<Wr::Ret>> {
        self.writer.acks()
    }

    /// The writer being driven.
    pub closed spec fn writer(self) -> Wr {
        self.writer.writer()
    }

    /// The future has resolved.
    pub closed spec fn finished(self) -> bool {
        self.is_terminated
    }

    /// The state machine's invariant.
    pub closed spec fn wf(self) -> bool {
        &&& self.writer.wf()
        &&& self.writer().inv()
        &&& self.is_terminated == (self.state is Shutdown)
        &&& !self.is_terminated ==> self.writer.sessions().len() == 0
        &&& (self.state is Next || self.state is Freeze) ==> self.writer.buffered() is None
        &&& self.state is Write ==> self.writer.buffered() is Some
        &&& self.stream.yielded() == self.start_yielded@ + self.pulled()
        &&& St::continues(self.src_start@, self.stream)
        &&& self.start_yielded@ == self.src_start@.yielded()
        &&& self.state is Freeze ==> St::next_post(self.end_src@, self.stream, Poll::Ready(None))
    }

    /// Creates the future over `stream` and `writer`.
    pub fn new(stream: St, writer: Wr) -> (r: Self)
        requires
            writer.inv(),
        ensures
            r.wf(),
            r.pulled() == Seq::<St::Item>::empty(),
            r.writer() == writer,
            r.source() == stream,
            r.source_start() == stream,
            r.start_yielded() == stream.yielded(),
            !r.finished(),
    {
        proof {
            St::lemma_continues_refl(stream);
        }
        assert(stream.yielded() == stream.yielded() + Seq::<St::Item>::empty());
        Assemble {
            stream,
            writer: StreamWriter::new(writer),
            state: StreamWriterState::Next,
            is_terminated: false,
            start_yielded: Ghost(stream.yielded()),
            end_src: Ghost(stream),
            src_start: Ghost(stream),
        }
    }

    /// Creates the future over `stream` and `writer`, tracking the session
    /// invariant `inv` of the writer, with `out` for what the output says of
    /// the session's parts.
    pub fn with_session_inv(
        stream: St,
        writer: Wr,
        inv: Ghost<spec_fn(Wr, Seq<St::Item>) -> bool>,
        out: Ghost<spec_fn(Wr::Output, Seq<St::Item>) -> bool>,
        ack: Ghost<spec_fn(Wr::Ret, Seq<St::Item>) -> bool>,
    ) -> (r: Self)
        requires
            writer.inv(),
            keeps_session(inv@, out@, ack@),
            inv@(writer, Seq::empty()),
        ensures
            r.wf(),
            r.pulled() == Seq::<St::Item>::empty(),
            r.writer() == writer,
            r.output_inv() == out@,
            r.source() == stream,
            r.source_start() == stream,
            r.start_yielded() == stream.yielded(),
            !r.finished(),
    {
        proof {
            St::lemma_continues_refl(stream);
        }
        assert(stream.yielded() == stream.yielded() + Seq::<St::Item>::empty());
        Assemble {
            stream,
            writer: StreamWriter::with_session_inv(writer, inv, out, ack),
            state: StreamWriterState::Next,
            is_terminated: false,
            start_yielded: Ghost(stream.yielded()),
            end_src: Ghost(stream),
            src_start: Ghost(stream),
        }
    }

    /// Returns `true` once the future has resolved.
    pub fn is_terminated(&self) -> (r: bool)
        ensures
            r == self.finished(),
    {
        self.is_terminated
    }

    /// Advances the future: pulls the source and sends each item, and once
    /// the source has ended flushes and completes the writer.
    ///
    /// It resolves to the output of that one completion, whose session holds
    /// every item of the source, or to the first error of the writer.
    #[verifier::rlimit(40)]
    pub fn poll(&mut self) -> (r: Poll<Result<Wr::Output, Wr::Error>>)
        requires
            old(self).wf(),
            !old(self).finished(),
        ensures
            final(self).wf(),
            old(self).pulled().is_prefix_of(final(self).pulled()),
            r is Pending ==> !final(self).finished(),
            r is Ready ==> final(self).finished(),
            final(self).output_inv() == old(self).output_inv(),
            r is Ready && r->Ready_0 is Ok ==> final(self).sessions() == seq![final(self).pulled()]
                && (final(self).output_inv())(r->Ready_0->Ok_0, final(self).pulled()),
            final(self).start_yielded() == old(self).start_yielded(),
            final(self).source_start() == old(self).source_start(),
            final(self).source().yielded() == final(self).start_yielded() + final(self).pulled(),
            r is Ready && r->Ready_0 is Err ==> failed_with::<Wr, St::Item>(
                final(self).writer(),
                r->Ready_0->Err_0,
            ),
            r is Ready && r->Ready_0 is Ok ==> {
                &&& St::next_post(final(self).source_before_end(), final(self).source(), Poll::Ready(None))
                &&& exists|pre: Wr| #[trigger] freeze_post::<Wr, St::Item>(pre, final(self).writer(), r)
            },
            old(self).acks().is_prefix_of(final(self).acks()),
            forall|i: int|
                old(self).acks().len() <= i < final(self).acks().len()
                    && #[trigger] final(self).acks()[i] is None ==> i == final(self).acks().len() - 1
                    && r is Ready && r->Ready_0 is Err,
            r is Pending ==> {
                ||| final(self).progressed_from(*old(self))
                ||| final(self).writer() == old(self).writer() && St::next_post(
                    old(self).source(),
                    final(self).source(),
                    Poll::Pending,
                )
                ||| unsent_post::<Wr, St::Item>(
                    old(self).writer(),
                    final(self).writer(),
                    Poll::Pending,
                )
                ||| freeze_post::<Wr, St::Item>(
                    old(self).writer(),
                    final(self).writer(),
                    Poll::Pending,
                )
            },
    {
        let never = |ret: &Wr::Ret| -> (b: bool)
            ensures
                !b,
            { false };
        let mut fuel: u8 = STEP_BUDGET;
        loop
            invariant
                self.wf(),
                !self.finished(),
                forall|ret: &Wr::Ret| never.requires((ret,)),
                forall|ret: &Wr::Ret, b: bool| never.ensures((ret,), b) ==> !b,
                old(self).pulled().is_prefix_of(self.pulled()),
                self.output_inv() == old(self).output_inv(),
                self.start_yielded() == old(self).start_yielded(),
                self.source_start() == old(self).source_start(),
                old(self).sent().len() <= self.sent().len(),
                !self.progressed_from(*old(self)) ==> {
                    &&& self.writer() == old(self).writer()
                    &&& self.state is Freeze || self.source() == old(self).source()
                    &&& STEP_BUDGET - fuel <= assemble_idle_steps(self.state)
                },
                old(self).acks().is_prefix_of(self.acks()),
                forall|i: int|
                    old(self).acks().len() <= i < self.acks().len() ==> #[trigger] self.acks()[i] is Some,
            decreases fuel,
        {
            if fuel == 0 {
                return Poll::Pending;
            }
            fuel = fuel - 1;
            let ghost pulled0 = self.pulled();
            let ghost sent0 = self.sent();
            match self.state {
                StreamWriterState::Write => {
                    let ghost w0 = self.writer.writer();
                    let ghost slot0 = self.writer.buffered();
                    let ghost acks0 = self.acks();
                    let wr = self.writer.poll_write_part(&never);
                    let ghost wr_g = wr;
                    proof {
                        if self.acks().len() > acks0.len() {
                            assert(self.acks() =~= acks0.push(self.acks().last()));
                            assert forall|i: int| 0 <= i < acks0.len() implies self.acks()[i] == acks0[i] by {}
                        }
                    }
                    match wr {
                        Poll::Pending => {
                            return Poll::Pending;
                        },
                        Poll::Ready(Ok(_)) => {
                            self.state = StreamWriterState::Next;
                            assert(self.sent().len() > sent0.len());
                        },
                        Poll::Ready(Err(e)) => {
                            proof {
                                if self.writer.buffered() is None {
                                    assert(sent_post::<Wr, St::Item, _>(
                                        w0,
                                        slot0->0,
                                        self.writer.writer(),
                                        never,
                                        wr_g,
                                    ));
                                } else {
                                    assert(unsent_post::<Wr, St::Item>(w0, self.writer.writer(), wr_g));
                                }
                                assert(failed_with::<Wr, St::Item>(self.writer.writer(), e));
                            }
                            self.state = StreamWriterState::Shutdown(true);
                            self.is_terminated = true;
                            return Poll::Ready(Err(e));
                        },
                    }
                },
                StreamWriterState::Next => {
                    let ghost src0 = self.stream;
                    let pulled = self.stream.poll_next();
                    proof {
                        St::lemma_continues_trans(self.src_start@, src0, self.stream);
                    }
                    let ghost pulled_g = pulled;
                    assert(St::next_post(src0, self.stream, pulled_g));
                    match pulled {
                        Poll::Pending => {
                            return Poll::Pending;
                        },
                        Poll::Ready(Some(next)) => {
                            self.writer.set_buffered(next);
                            self.state = StreamWriterState::Write;
                            assert(self.stream.yielded() =~= self.start_yielded@ + self.pulled());
                        },
                        Poll::Ready(None) => {
                            self.end_src = Ghost(src0);
                            self.state = StreamWriterState::Freeze;
                            assert(self.pulled() == pulled0);
                            assert(self.sent() == sent0);
                        },
                    }
                },
                StreamWriterState::Freeze => {
                    let ghost s = self.writer.session();
                    let ghost w0 = self.writer.writer();
                    assert(St::next_post(self.end_src@, self.stream, Poll::Ready(None)));
                    proof {
                        self.writer.lemma_accounting();
                    }
                    let out = self.writer.poll_freeze_output();
                    assert(freeze_post::<Wr, St::Item>(w0, self.writer.writer(), out));
                    if out.is_ready() {
                        self.state = StreamWriterState::Shutdown(true);
                        self.is_terminated = true;
                        proof {
                            if out->Ready_0 is Ok {
                                assert(self.writer.sessions() =~= seq![s]);
                                assert(seq![s].flatten() =~= s) by {
                                    seq![s].lemma_flatten_one_element();
                                }
                                self.writer.lemma_accounting();
                                assert(self.pulled() =~= s);
                                assert(self.writer.outputs().len() == 1);
                                assert(self.writer.sessions()[0] == s);
                                assert(self.writer.outputs()[0] == out->Ready_0->Ok_0);
                                assert((self.writer.output_inv())(
                                    self.writer.outputs()[0],
                                    self.writer.sessions()[0],
                                ));
                            }
                        }
                    }
                    assert(St::next_post(self.source_before_end(), self.source(), Poll::Ready(None)));
                    assert(freeze_post::<Wr, St::Item>(w0, self.writer(), out));
                    proof {
                        if out is Ready && out->Ready_0 is Err {
                            assert(failed_with::<Wr, St::Item>(self.writer(), out->Ready_0->Err_0));
                        }
                    }
                    return out;
                },
                StreamWriterState::Shutdown(_) => {
                    return Poll::Pending;
                },
            }
        }
    }
}

} // verus!
