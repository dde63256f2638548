//! Driving a writer to one completion over a source that may fail.
use crate::stream::assembled::STEP_BUDGET;
use crate::stream::Stream;
use crate::write::stream_writer::{failed_with, keeps_session, sent_post, freeze_post, unsent_post, StreamWriter, StreamWriterState};
use crate::{MultipartWrite, Poll};
use vstd::prelude::*;

verus! {

/// Future for [`collect_completed`](super::MultipartStreamExt::collect_completed).
///
/// The source yields parts or failures. Parts are sent through the same
/// bridge as for [`Assemble`](super::Assemble); a failure of the source is
/// the future's result at once, and nothing more is sent. When the source
/// ends, the writer is flushed and completed, and that is the result. Each
/// call of `poll` runs a bounded number of steps and yields `Pending` when
/// the budget is spent, having pulled or sent a part.
#[verifier::reject_recursive_types(St)]
#[verifier::reject_recursive_types(Wr)]
#[verifier::reject_recursive_types(P)]
pub struct CollectCompleted<St: Stream, Wr: MultipartWrite<P>, P> {
    stream: St,
    writer: StreamWriter<Wr, P>,
    state: StreamWriterState,
    is_terminated: bool,
    source_failed: Ghost<bool>,
    end_src: Ghost<St>,
}

impl<P, Wr: MultipartWrite<P>, St: Stream<Item = Result<P, Wr::Error>>> CollectCompleted<St, Wr, P> {
    /// Every part pulled from the source, in order.
    pub closed spec fn pulled(self) -> Seq<P> {
        self.writer.fed()
    }

    /// The sessions completed: none until the future resolves to an output.
    pub closed spec fn sessions(self) -> Seq<Seq<P>> {
        self.writer.sessions()
    }

    /// Every part handed to the writer so far.
    pub closed spec fn sent(self) -> Seq<P> {
        self.writer.sent()
    }

    /// The source.
    pub closed spec fn source(self) -> St {
        self.stream
    }

    /// The source as it was when it reported its end or its failure.
    pub closed spec fn source_before_end(self) -> St {
        self.end_src@
    }

    /// The future resolved to a failure of the source.
    pub closed spec fn source_failed(self) -> bool {
        self.source_failed@
    }

    /// For each part handed to the writer, the acknowledgement of its send,
    /// or `None` when the send failed.
    pub closed spec fn acks(self) -> Seq<Option<Wr::Ret>> {
        self.writer.acks()
    }

    /// What the output says of the parts of its session.
    pub closed spec fn output_inv(self) -> spec_fn(Wr::Output, Seq<P>) -> bool {
        self.writer.output_inv()
    }

    /// The writer being driven.
    pub closed spec fn writer(self) -> Wr {
        self.writer.writer()
    }

    /// The future has resolved.
    pub closed spec fn finished(self) -> bool {
        self.is_terminated
    }

    /// The state machine's invariant.
    pub closed spec fn wf(self) -> bool {
        &&& self.writer.wf()
        &&& self.writer().inv()
        &&& self.is_terminated == (self.state is Shutdown)
        &&& !self.is_terminated ==> self.writer.sessions().len() == 0
        &&& (self.state is Next || self.state is Freeze) ==> self.writer.buffered() is None
        &&& self.state is Write ==> self.writer.buffered() is Some
        &&& self.source_failed@ ==> self.is_terminated
        &&& self.state is Freeze ==> St::next_post(self.end_src@, self.stream, Poll::Ready(None))
    }

    /// Creates the future over `stream` and `writer`.
    pub fn new(stream: St, writer: Wr) -> (r: Self)
        requires
            writer.inv(),
        ensures
            r.wf(),
            r.pulled() == Seq::<P>::empty(),
            r.writer() == writer,
            r.source() == stream,
            !r.finished(),
            !r.source_failed(),
    {
        CollectCompleted {
            stream,
            writer: StreamWriter::new(writer),
            state: StreamWriterState::Next,
            is_terminated: false,
            source_failed: Ghost(false),
            end_src: Ghost(stream),
        }
    }

    /// Creates the future over `stream` and `writer`, tracking the session
    /// invariant `inv` of the writer, with `out` for what the output says of
    /// the session's parts and `ack` for what an acknowledgement says.
    pub fn with_session_inv(
        stream: St,
        writer: Wr,
        inv: Ghost<spec_fn(Wr, Seq<P>) -> bool>,
        out: Ghost<spec_fn(Wr::Output, Seq<P>) -> bool>,
        ack: Ghost<spec_fn(Wr::Ret, Seq<P>) -> bool>,
    ) -> (r: Self)
        requires
            writer.inv(),
            keeps_session(inv@, out@, ack@),
            inv@(writer, Seq::empty()),
        ensures
            r.wf(),
            r.pulled() == Seq::<P>::empty(),
            r.writer() == writer,
            r.source() == stream,
            r.output_inv() == out@,
            !r.finished(),
            !r.source_failed(),
    {
        CollectCompleted {
            stream,
            writer: StreamWriter::with_session_inv(writer, inv, out, ack),
            state: StreamWriterState::Next,
            is_terminated: false,
            source_failed: Ghost(false),
            end_src: Ghost(stream),
        }
    }

    /// Returns `true` once the future has resolved.
    pub fn is_terminated(&self) -> (r: bool)
        ensures
            r == self.finished(),
    {
        self.is_terminated
    }

    /// Advances the future: pulls the source and sends each part; a failure
    /// of the source resolves the future to that failure; once the source
    /// has ended, flushes and completes the writer.
    #[verifier::rlimit(40)]
    pub fn poll(&mut self) -> (r: Poll<Result<Wr::Output, Wr::Error>>)
        requires
            old(self).wf(),
            !old(self).finished(),
        ensures
            final(self).wf(),
            old(self).pulled().is_prefix_of(final(self).pulled()),
            r is Pending ==> !final(self).finished(),
            r is Ready ==> final(self).finished(),
            final(self).source_failed() ==> r is Ready && r->Ready_0 is Err && St::next_post(
                final(self).source_before_end(),
                final(self).source(),
                Poll::Ready(Some(Err(r->Ready_0->Err_0))),
            ),
            r is Ready && r->Ready_0 is Err && !final(self).source_failed() ==> failed_with::<Wr, P>(
                final(self).writer(),
                r->Ready_0->Err_0,
            ),
            final(self).output_inv() == old(self).output_inv(),
            r is Ready && r->Ready_0 is Ok ==> {
                &&& final(self).sessions() == seq![final(self).pulled()]
                &&& (final(self).output_inv())(r->Ready_0->Ok_0, final(self).pulled())
                &&& St::next_post(final(self).source_before_end(), final(self).source(), Poll::Ready(None))
                &&& exists|pre: Wr| #[trigger] freeze_post::<Wr, P>(pre, final(self).writer(), r)
            },
            old(self).acks().is_prefix_of(final(self).acks()),
            forall|i: int|
                old(self).acks().len() <= i < final(self).acks().len()
                    && #[trigger] final(self).acks()[i] is None ==> i == final(self).acks().len() - 1
                    && r is Ready && r->Ready_0 is Err,
            r is Pending ==> {
                ||| final(self).pulled().len() > old(self).pulled().len()
                ||| final(self).sent().len() > old(self).sent().len()
                ||| final(self).writer() == old(self).writer() && St::next_post(
                    old(self).source(),
                    final(self).source(),
                    Poll::Pending,
                )
                ||| unsent_post::<Wr, P>(old(self).writer(), final(self).writer(), Poll::Pending)
                ||| freeze_post::<Wr, P>(old(self).writer(), final(self).writer(), Poll::Pending)
            },
    {
        let never = |ret: &Wr::Ret| -> (b: bool)
            ensures
                !b,
            { false };
        let mut fuel: u8 = STEP_BUDGET;
        loop
            invariant
                self.wf(),
                !self.finished(),
                !self.source_failed(),
                forall|ret: &Wr::Ret| never.requires((ret,)),
                old(self).pulled().is_prefix_of(self.pulled()),
                old(self).sent().len() <= self.sent().len(),
                fuel <= STEP_BUDGET,
                !(self.pulled().len() > old(self).pulled().len() || self.sent().len() > old(
                    self,
                ).sent().len()) ==> {
                    &&& self.writer() == old(self).writer()
                    &&& self.state is Freeze || self.source() == old(self).source()
                    &&& STEP_BUDGET - fuel <= if self.state is Freeze {
                        1int
                    } else {
                        0int
                    }
                },
                old(self).acks().is_prefix_of(self.acks()),
                self.output_inv() == old(self).output_inv(),
                forall|i: int|
                    old(self).acks().len() <= i < self.acks().len() ==> #[trigger] self.acks()[i] is Some,
            decreases fuel,
        {
            if fuel == 0 {
                return Poll::Pending;
            }
            fuel = fuel - 1;
            let ghost pulled0 = self.pulled();
            let ghost sent0 = self.sent();
            match self.state {
                StreamWriterState::Write => {
                    let ghost w0 = self.writer.writer();
                    let ghost slot0 = self.writer.buffered();
                    let ghost acks0 = self.acks();
                    let wr = self.writer.poll_write_part(&never);
                    let ghost wr_g = wr;
                    proof {
                        if self.acks().len() > acks0.len() {
                            assert(self.acks() =~= acks0.push(self.acks().last()));
                            assert forall|i: int| 0 <= i < acks0.len() implies self.acks()[i] == acks0[i] by {}
                        }
                    }
                    match wr {
                        Poll::Pending => {
                            return Poll::Pending;
                        },
                        Poll::Ready(Ok(_)) => {
                            self.state = StreamWriterState::Next;
                            assert(self.sent().len() > sent0.len());
                        },
                        Poll::Ready(Err(e)) => {
                            proof {
                                if self.writer.buffered() is None {
                                    assert(sent_post::<Wr, P, _>(
                                        w0,
                                        slot0->0,
                                        self.writer.writer(),
                                        never,
                                        wr_g,
                                    ));
                                } else {
                                    assert(unsent_post::<Wr, P>(w0, self.writer.writer(), wr_g));
                                }
                                assert(failed_with::<Wr, P>(self.writer.writer(), e));
                            }
                            self.state = StreamWriterState::Shutdown(true);
                            self.is_terminated = true;
                            return Poll::Ready(Err(e));
                        },
                    }
                },
                StreamWriterState::Next => {
                    let ghost src0 = self.stream;
                    let pulled = self.stream.poll_next();
                    let ghost pulled_g = pulled;
                    assert(St::next_post(src0, self.stream, pulled_g));
                    match pulled {
                        Poll::Pending => {
                            return Poll::Pending;
                        },
                        Poll::Ready(Some(Ok(part))) => {
                            self.writer.set_buffered(part);
                            self.state = StreamWriterState::Write;
                        },
                        Poll::Ready(Some(Err(e))) => {
                            self.end_src = Ghost(src0);
                            self.source_failed = Ghost(true);
                            self.state = StreamWriterState::Shutdown(true);
                            self.is_terminated = true;
                            return Poll::Ready(Err(e));
                        },
                        Poll::Ready(None) => {
                            self.end_src = Ghost(src0);
                            self.state = StreamWriterState::Freeze;
                            assert(self.pulled() == pulled0);
                            assert(self.sent() == sent0);
                        },
                    }
                },
                StreamWriterState::Freeze => {
                    let ghost s = self.writer.session();
                    let ghost w0 = self.writer.writer();
                    assert(St::next_post(self.end_src@, self.stream, Poll::Ready(None)));
                    proof {
                        self.writer.lemma_accounting();
                    }
                    let out = self.writer.poll_freeze_output();
                    assert(freeze_post::<Wr, P>(w0, self.writer.writer(), out));
                    if out.is_ready() {
                        self.state = StreamWriterState::Shutdown(true);
                        self.is_terminated = true;
                        proof {
                            if out->Ready_0 is Ok {
                                assert(self.writer.sessions() =~= seq![s]);
                                assert(seq![s].flatten() =~= s) by {
                                    seq![s].lemma_flatten_one_element();
                                }
                                self.writer.lemma_accounting();
                                assert(self.pulled() =~= s);
                                assert(self.writer.outputs().len() == 1);
                                assert(self.writer.sessions()[0] == s);
                                assert(self.writer.outputs()[0] == out->Ready_0->Ok_0);
                                assert((self.writer.output_inv())(
                                    self.writer.outputs()[0],
                                    self.writer.sessions()[0],
                                ));
                            }
                        }
                    }
                    assert(St::next_post(self.source_before_end(), self.source(), Poll::Ready(None)));
                    assert(freeze_post::<Wr, P>(w0, self.writer(), out));
                    proof {
                        if out is Ready && out->Ready_0 is Err {
                            assert(failed_with::<Wr, P>(self.writer(), out->Ready_0->Err_0));
                        }
                    }
                    return out;
                },
                StreamWriterState::Shutdown(_) => {
                    return Poll::Pending;
                },
            }
        }
    }
}

} // verus!
