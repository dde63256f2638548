//! The bridge between a pull-based source of parts and a writer.
//!
//! A writer must report ready immediately before a part is sent, but finding
//! out whether the source has a next part is a suspension point of its own,
//! after which an earlier readiness may no longer hold. [`StreamWriter`] keeps
//! at most one part taken from the source and sends it only right after the
//! writer reported ready, with no suspension in between.
use crate::{MultipartWrite, Poll};
use vstd::prelude::*;

verus! {

/// What the caller of [`StreamWriter::poll_write_part`] should do next.
#[derive(Debug, Clone, Copy, PartialEq, Eq, Structural)]
pub enum StreamWriterState {
    /// Write the buffered part.
    Write,
    /// Pull the source for the next part.
    Next,
    /// Complete the writer's open session.
    Freeze,
    /// The source ended: `Shutdown(false)` still completes the open session,
    /// `Shutdown(true)` ends with nothing left to do.
    Shutdown(bool),
}

/// A writer with a slot for one part taken from a source.
///
/// Besides the writer and the slot it keeps, as ghost state, every part it
/// was given, the sessions it closed with the outputs they produced, the
/// parts sent in the open session, and for each part sent whether the
/// completion policy asked for a cut after it. It also carries a session
/// invariant: a relation between the writer and the parts of its open
/// session, with what a completion's output says of the session's parts,
/// that the writer's operations keep (see [`keeps_session`]).
#[verifier::reject_recursive_types(W)]
#[verifier::reject_recursive_types(P)]
pub struct StreamWriter<W: MultipartWrite<P>, P> {
    writer: W,
    buffered: Option<P>,
    is_empty: bool,
    fed: Ghost<Seq<P>>,
    sessions: Ghost<Seq<Seq<P>>>,
    session: Ghost<Seq<P>>,
    fired: Ghost<Seq<bool>>,
    acks: Ghost<Seq<Option<W::Ret>>>,
    ack_sessions: Ghost<Seq<Seq<P>>>,
    send_log: Ghost<Seq<SendStep<W, P>>>,
    outputs: Ghost<Seq<W::Output>>,
    session_inv: Ghost<spec_fn(W, Seq<P>) -> bool>,
    output_inv: Ghost<spec_fn(W::Output, Seq<P>) -> bool>,
    ack_inv: Ghost<spec_fn(W::Ret, Seq<P>) -> bool>,
}

/// The writer's operations keep the session invariant `inv`: readiness and
/// flushing leave the open session as it is, a send adds its part to it and
/// acknowledges with a value that `ack` relates to the session so far, and
/// a successful completion produces an output that `out` relates to the
/// session's parts and starts an empty session; a completion that does not
/// succeed leaves the session as it is.
pub open spec fn keeps_session<W: MultipartWrite<P>, P>(
    inv: spec_fn(W, Seq<P>) -> bool,
    out: spec_fn(W::Output, Seq<P>) -> bool,
    ack: spec_fn(W::Ret, Seq<P>) -> bool,
) -> bool {
    &&& forall|pre: W, post: W, r: Poll<Result<(), W::Error>>, s: Seq<P>|
        #[trigger] W::ready_post(pre, post, r) && #[trigger] inv(pre, s) ==> inv(post, s)
    &&& forall|pre: W, post: W, r: Poll<Result<(), W::Error>>, s: Seq<P>|
        #[trigger] W::flush_post(pre, post, r) && #[trigger] inv(pre, s) ==> inv(post, s)
    &&& forall|pre: W, part: P, post: W, r: Result<W::Ret, W::Error>, s: Seq<P>|
        #[trigger] W::send_post(pre, part, post, r) && #[trigger] inv(pre, s) ==> inv(
            post,
            s.push(part),
        ) && (r is Ok ==> ack(r->Ok_0, s.push(part)))
    &&& forall|pre: W, post: W, r: Poll<Result<W::Output, W::Error>>, s: Seq<P>|
        #[trigger] W::complete_post(pre, post, r) && #[trigger] inv(pre, s) ==> if r is Ready
            && r->Ready_0 is Ok {
            inv(post, Seq::empty()) && out(r->Ready_0->Ok_0, s)
        } else {
            inv(post, s)
        }
}

/// One send as the bridge made it: the writer before its readiness check,
/// that check's result, the writer after it (which the part was sent to),
/// the writer after the send, and the send's result.
pub type SendStep<W, P> = (
    W,
    Poll<Result<(), <W as MultipartWrite<P>>::Error>>,
    W,
    W,
    Result<<W as MultipartWrite<P>>::Ret, <W as MultipartWrite<P>>::Error>,
);

/// `step` sent `part`: the readiness check succeeded and the part went to
/// the writer as that check left it.
pub open spec fn step_sent<W: MultipartWrite<P>, P>(step: SendStep<W, P>, part: P) -> bool {
    &&& ready_ok(step.1)
    &&& W::ready_post(step.0, step.2, step.1)
    &&& W::send_post(step.2, part, step.3, step.4)
}

/// The parts held by an optional slot, as a sequence of length 0 or 1.
pub open spec fn slot_seq<P>(o: Option<P>) -> Seq<P> {
    match o {
        Some(p) => seq![p],
        None => Seq::empty(),
    }
}

/// The operation finished successfully.
pub open spec fn ready_ok<E>(r: Poll<Result<(), E>>) -> bool {
    r is Ready && r->Ready_0 is Ok
}

/// The acknowledgement of a send, or `None` when it failed.
pub open spec fn ack_of<R, E>(sr: Result<R, E>) -> Option<R> {
    match sr {
        Ok(ret) => Some(ret),
        Err(_) => None,
    }
}

/// The policy `f` answered `fired` for the send whose acknowledgement is
/// `ack`; a failed send never fires.
pub open spec fn policy_answer<R, F: Fn(&R) -> bool>(f: F, ack: Option<R>, fired: bool) -> bool {
    match ack {
        Some(ret) => f.ensures((&ret,), fired),
        None => !fired,
    }
}

/// How a send result is reported: `Freeze` when the policy `f` asks for a
/// cut after the acknowledgement, `Next` when it does not, or the error.
pub open spec fn reported<W: MultipartWrite<P>, P, F: Fn(&W::Ret) -> bool>(
    f: F,
    sr: Result<W::Ret, W::Error>,
    r: Poll<Result<StreamWriterState, W::Error>>,
) -> bool {
    match sr {
        Ok(ret) => exists|b: bool|
            f.ensures((&ret,), b) && r == Poll::<Result<StreamWriterState, W::Error>>::Ready(
                Ok(if b { StreamWriterState::Freeze } else { StreamWriterState::Next }),
            ),
        Err(e) => r == Poll::<Result<StreamWriterState, W::Error>>::Ready(Err(e)),
    }
}

/// The writer was found ready and `part` was sent to it.
pub open spec fn sent_post<W: MultipartWrite<P>, P, F: Fn(&W::Ret) -> bool>(
    pre: W,
    part: P,
    post: W,
    f: F,
    r: Poll<Result<StreamWriterState, W::Error>>,
) -> bool {
    exists|rr: Poll<Result<(), W::Error>>, mid: W, sr: Result<W::Ret, W::Error>|
        ready_ok(rr) && #[trigger] W::ready_post(pre, mid, rr) && #[trigger] W::send_post(mid, part, post, sr)
            && reported::<W, P, F>(f, sr, r)
}

/// The writer was not ready: either `poll_ready` failed, or it was pending
/// and a flush was attempted to make progress.
pub open spec fn unsent_post<W: MultipartWrite<P>, P>(
    pre: W,
    post: W,
    r: Poll<Result<StreamWriterState, W::Error>>,
) -> bool {
    ||| exists|e: W::Error|
        W::ready_post(pre, post, Poll::Ready(Err(e)))
            && r == Poll::<Result<StreamWriterState, W::Error>>::Ready(Err(e))
    ||| exists|mid: W|
        W::ready_post(pre, mid, Poll::Pending) && {
            ||| exists|fr: Poll<Result<(), W::Error>>|
                #[trigger] W::flush_post(mid, post, fr) && (fr is Pending || ready_ok(fr)) && r is Pending
            ||| exists|e: W::Error|
                W::flush_post(mid, post, Poll::Ready(Err(e)))
                    && r == Poll::<Result<StreamWriterState, W::Error>>::Ready(Err(e))
        }
}

/// The writer, now `post`, just failed with `e`: readiness or a flush failed,
/// a send after a successful readiness failed, or the flush or completion of
/// a session failed.
pub open spec fn failed_with<W: MultipartWrite<P>, P>(post: W, e: W::Error) -> bool {
    ||| exists|pre: W|
        #[trigger] unsent_post::<W, P>(
            pre,
            post,
            Poll::<Result<StreamWriterState, W::Error>>::Ready(Err(e)),
        )
    ||| exists|pre: W, mid: W, rr: Poll<Result<(), W::Error>>, part: P|
        ready_ok(rr) && #[trigger] W::ready_post(pre, mid, rr) && #[trigger] W::send_post(
            mid,
            part,
            post,
            Err(e),
        )
    ||| exists|pre: W| #[trigger] freeze_post::<W, P>(pre, post, Poll::Ready(Err(e)))
}

/// A flush followed, when it succeeded, by a completion.
pub open spec fn freeze_post<W: MultipartWrite<P>, P>(
    pre: W,
    post: W,
    r: Poll<Result<W::Output, W::Error>>,
) -> bool {
    ||| W::flush_post(pre, post, Poll::Pending) && r is Pending
    ||| exists|e: W::Error|
        W::flush_post(pre, post, Poll::Ready(Err(e)))
            && r == Poll::<Result<W::Output, W::Error>>::Ready(Err(e))
    ||| exists|fr: Poll<Result<(), W::Error>>, mid: W|
        ready_ok(fr) && #[trigger] W::flush_post(pre, mid, fr) && #[trigger] W::complete_post(mid, post, r)
}

impl<W: MultipartWrite<P>, P> StreamWriter<W, P> {
    /// The wrapped writer.
    pub closed spec fn writer(self) -> W {
        self.writer
    }

    /// The part waiting to be sent, if any.
    pub closed spec fn buffered(self) -> Option<P> {
        self.buffered
    }

    /// Every part handed to `set_buffered`, in order.
    pub closed spec fn fed(self) -> Seq<P> {
        self.fed@
    }

    /// The sessions closed by a successful completion, in order.
    pub closed spec fn sessions(self) -> Seq<Seq<P>> {
        self.sessions@
    }

    /// The parts sent since the last successful completion.
    pub closed spec fn session(self) -> Seq<P> {
        self.session@
    }

    /// For each part sent, whether the policy asked to complete after it.
    /// For each part handed to the writer, the acknowledgement of its send,
    /// or `None` when the send failed.
    pub closed spec fn acks(self) -> Seq<Option<W::Ret>> {
        self.acks@
    }

    /// For each part handed to the writer, whether the policy asked to
    /// complete after it.
    pub closed spec fn fired(self) -> Seq<bool> {
        self.fired@
    }

    /// The outputs of the sessions closed so far, in order.
    pub closed spec fn outputs(self) -> Seq<W::Output> {
        self.outputs@
    }

    /// The session invariant.
    pub closed spec fn session_inv(self) -> spec_fn(W, Seq<P>) -> bool {
        self.session_inv@
    }

    /// For each part handed to the writer, the open session just after its
    /// send.
    pub closed spec fn ack_sessions(self) -> Seq<Seq<P>> {
        self.ack_sessions@
    }

    /// For each part handed to the writer, how it was sent.
    pub closed spec fn send_log(self) -> Seq<SendStep<W, P>> {
        self.send_log@
    }

    /// What an acknowledgement says of the session's parts up to its send.
    pub closed spec fn ack_inv(self) -> spec_fn(W::Ret, Seq<P>) -> bool {
        self.ack_inv@
    }

    /// What an output says of its session's parts.
    pub closed spec fn output_inv(self) -> spec_fn(W::Output, Seq<P>) -> bool {
        self.output_inv@
    }

    /// Every part handed to the writer, in order.
    pub open spec fn sent(self) -> Seq<P> {
        self.sessions().flatten() + self.session()
    }

    /// The bookkeeping agrees with the slot: what was given is what was sent
    /// followed by what waits, and one policy answer stands for each send.
    pub closed spec fn wf(self) -> bool {
        &&& self.fed@ == self.sessions@.flatten() + self.session@ + slot_seq(self.buffered)
        &&& self.fired@.len() == self.sessions@.flatten().len() + self.session@.len()
        &&& self.acks@.len() == self.fired@.len()
        &&& self.is_empty == (self.session@.len() == 0)
        &&& keeps_session(self.session_inv@, self.output_inv@, self.ack_inv@)
        &&& self.ack_sessions@.len() == self.acks@.len()
        &&& self.send_log@.len() == self.acks@.len()
        &&& forall|i: int|
            0 <= i < self.send_log@.len() ==> #[trigger] step_sent(
                self.send_log@[i],
                (self.sessions@.flatten() + self.session@)[i],
            ) && self.acks@[i] == ack_of(self.send_log@[i].4)
        &&& forall|i: int|
            0 <= i < self.acks@.len() && self.acks@[i] is Some ==> #[trigger] (self.ack_inv@)(
                self.acks@[i]->0,
                self.ack_sessions@[i],
            )
        &&& (self.session_inv@)(self.writer, self.session@)
        &&& self.outputs@.len() == self.sessions@.len()
        &&& forall|i: int|
            0 <= i < self.outputs@.len() ==> #[trigger] (self.output_inv@)(
                self.outputs@[i],
                self.sessions@[i],
            )
    }

    /// What well-formedness says of the views: the parts given are the parts
    /// sent followed by the one waiting, and one policy answer stands for each
    /// part sent.
    pub proof fn lemma_accounting(self)
        requires
            self.wf(),
        ensures
            self.fed() == self.sent() + slot_seq(self.buffered()),
            self.fired().len() == self.sent().len(),
            self.acks().len() == self.fired().len(),
            self.ack_sessions().len() == self.acks().len(),
            self.send_log().len() == self.acks().len(),
            forall|i: int|
                0 <= i < self.send_log().len() ==> #[trigger] step_sent(
                    self.send_log()[i],
                    self.sent()[i],
                ) && self.acks()[i] == ack_of(self.send_log()[i].4),
            forall|i: int|
                0 <= i < self.acks().len() && self.acks()[i] is Some ==> #[trigger] (
                self.ack_inv())(self.acks()[i]->0, self.ack_sessions()[i]),
            self.outputs().len() == self.sessions().len(),
            forall|i: int|
                0 <= i < self.outputs().len() ==> #[trigger] (self.output_inv())(
                    self.outputs()[i],
                    self.sessions()[i],
                ),
    {
    }

    /// Creates a bridge around `writer` with an empty slot and a session
    /// invariant that says nothing.
    pub fn new(writer: W) -> (r: Self)
        ensures
            r.wf(),
            r.writer() == writer,
            r.buffered() is None,
            r.fed() == Seq::<P>::empty(),
            r.sessions() == Seq::<Seq<P>>::empty(),
            r.session() == Seq::<P>::empty(),
            r.fired() == Seq::<bool>::empty(),
            r.outputs() == Seq::<W::Output>::empty(),
            r.acks() == Seq::<Option<W::Ret>>::empty(),
    {
        Self::with_session_inv(
            writer,
            Ghost(|w: W, s: Seq<P>| true),
            Ghost(|o: W::Output, s: Seq<P>| true),
            Ghost(|a: W::Ret, s: Seq<P>| true),
        )
    }

    /// Creates a bridge around `writer` with an empty slot, which keeps the
    /// session invariant `inv`, with `out` for outputs, from the start.
    pub fn with_session_inv(
        writer: W,
        inv: Ghost<spec_fn(W, Seq<P>) -> bool>,
        out: Ghost<spec_fn(W::Output, Seq<P>) -> bool>,
        ack: Ghost<spec_fn(W::Ret, Seq<P>) -> bool>,
    ) -> (r: Self)
        requires
            keeps_session(inv@, out@, ack@),
            inv@(writer, Seq::empty()),
        ensures
            r.wf(),
            r.writer() == writer,
            r.buffered() is None,
            r.fed() == Seq::<P>::empty(),
            r.sessions() == Seq::<Seq<P>>::empty(),
            r.session() == Seq::<P>::empty(),
            r.fired() == Seq::<bool>::empty(),
            r.outputs() == Seq::<W::Output>::empty(),
            r.session_inv() == inv@,
            r.output_inv() == out@,
            r.ack_inv() == ack@,
            r.acks() == Seq::<Option<W::Ret>>::empty(),
    {
        StreamWriter {
            writer,
            buffered: None,
            is_empty: true,
            fed: Ghost(Seq::empty()),
            sessions: Ghost(Seq::empty()),
            session: Ghost(Seq::empty()),
            fired: Ghost(Seq::empty()),
            acks: Ghost(Seq::empty()),
            ack_sessions: Ghost(Seq::empty()),
            send_log: Ghost(Seq::empty()),
            outputs: Ghost(Seq::empty()),
            session_inv: inv,
            output_inv: out,
            ack_inv: ack,
        }
    }

    /// Puts a part taken from the source in the slot.
    ///
    /// The slot must be empty: the caller pulls the source only after
    /// `poll_write_part` reported `Next`.
    pub fn set_buffered(&mut self, buffered: P)
        requires
            old(self).wf(),
            old(self).buffered() is None,
        ensures
            final(self).wf(),
            final(self).buffered() == Some(buffered),
            final(self).fed() == old(self).fed().push(buffered),
            final(self).writer() == old(self).writer(),
            final(self).sessions() == old(self).sessions(),
            final(self).session() == old(self).session(),
            final(self).fired() == old(self).fired(),
            final(self).acks() == old(self).acks(),
            final(self).ack_sessions() == old(self).ack_sessions(),
            final(self).send_log() == old(self).send_log(),
            final(self).outputs() == old(self).outputs(),
            final(self).output_inv() == old(self).output_inv(),
    {
        proof {
            self.fed@ = self.fed@.push(buffered);
        }
        self.buffered = Some(buffered);
    }

    /// Returns whether a part waits in the slot.
    pub fn has_buffered(&self) -> (r: bool)
        ensures
            r == (self.buffered() is Some),
    {
        self.buffered.is_some()
    }

    /// Returns whether no part was sent since the last completion and the
    /// slot is empty.
    pub fn is_empty(&self) -> (r: bool)
        requires
            self.wf(),
        ensures
            r == (self.session().len() == 0 && self.buffered() is None),
    {
        self.is_empty && self.buffered.is_none()
    }

    /// Acquires a reference to the wrapped writer.
    pub fn get_ref(&self) -> (r: &W)
        ensures
            *r == self.writer(),
    {
        &self.writer
    }

    /// Attempts to send the buffered part.
    ///
    /// With an empty slot this reports `Next` at once: the caller should pull
    /// the source. Otherwise the writer is polled for readiness; while it is
    /// not ready, a flush is attempted to make progress and the call reports
    /// `Pending`. Once it is ready the part is sent and the policy `f`,
    /// applied to the acknowledgement, decides between `Freeze` and `Next`.
    pub fn poll_write_part<F: Fn(&W::Ret) -> bool>(&mut self, f: &F) -> (r: Poll<
        Result<StreamWriterState, W::Error>,
    >)
        requires
            old(self).wf(),
            old(self).writer().inv(),
            forall|ret: &W::Ret| f.requires((ret,)),
        ensures
            final(self).wf(),
            final(self).writer().inv(),
            final(self).fed() == old(self).fed(),
            final(self).sessions() == old(self).sessions(),
            final(self).outputs() == old(self).outputs(),
            final(self).output_inv() == old(self).output_inv(),
            old(self).buffered() is None ==> r == Poll::<
                Result<StreamWriterState, W::Error>,
            >::Ready(Ok(StreamWriterState::Next)) && *final(self) == *old(self),
            old(self).buffered() is Some && final(self).buffered() is None ==> {
                &&& final(self).session() == old(self).session().push(old(self).buffered()->0)
                &&& final(self).acks().len() == old(self).acks().len() + 1
                &&& final(self).acks().drop_last() == old(self).acks()
                &&& final(self).ack_sessions() == old(self).ack_sessions().push(final(self).session())
                &&& final(self).send_log().len() == old(self).send_log().len() + 1
                &&& final(self).send_log().drop_last() == old(self).send_log()
                &&& policy_answer::<W::Ret, F>(*f, final(self).acks().last(), final(self).fired().last())
                &&& (final(self).acks().last() is None <==> r is Ready && r->Ready_0 is Err)
                &&& final(self).fired() == old(self).fired().push(
                    r == Poll::<Result<StreamWriterState, W::Error>>::Ready(
                        Ok(StreamWriterState::Freeze),
                    ),
                )
                &&& sent_post::<W, P, F>(
                    old(self).writer(),
                    old(self).buffered()->0,
                    final(self).writer(),
                    *f,
                    r,
                )
            },
            old(self).buffered() is Some && final(self).buffered() is Some ==> {
                &&& final(self).buffered() == old(self).buffered()
                &&& final(self).session() == old(self).session()
                &&& final(self).fired() == old(self).fired()
                &&& final(self).acks() == old(self).acks()
                &&& final(self).ack_sessions() == old(self).ack_sessions()
                &&& final(self).send_log() == old(self).send_log()
                &&& unsent_post::<W, P>(old(self).writer(), final(self).writer(), r)
            },
    {
        if self.buffered.is_none() {
            return Poll::Ready(Ok(StreamWriterState::Next));
        }
        let ghost w0 = self.writer;
        let ready = self.writer.poll_ready();
        let ghost w1 = self.writer;
        let ghost ready_g = ready;
        match ready {
            Poll::Pending => {
                assert(W::ready_post(w0, w1, Poll::Pending));
                let flushed = self.writer.poll_flush();
                let ghost flushed_g = flushed;
                assert(W::flush_post(w1, self.writer, flushed_g));
                match flushed {
                    Poll::Ready(Err(e)) => {
                        assert(W::flush_post(w1, self.writer, Poll::Ready(Err(e))));
                        Poll::Ready(Err(e))
                    },
                    Poll::Ready(Ok(())) => {
                        assert(ready_ok(flushed_g));
                        Poll::Pending
                    },
                    Poll::Pending => Poll::Pending,
                }
            },
            Poll::Ready(Err(e)) => {
                assert(W::ready_post(w0, self.writer, Poll::Ready(Err(e))));
                Poll::Ready(Err(e))
            },
            Poll::Ready(Ok(())) => {
                assert(ready_ok(ready_g) && W::ready_post(w0, w1, ready_g));
                let part = match self.buffered.take() {
                    Some(part) => part,
                    None => {
                        return Poll::Pending;
                    },
                };
                let ghost part_g = part;
                let sr = self.writer.start_send(part);
                let ghost sr_g = sr;
                self.is_empty = false;
                let r = match sr {
                    Ok(ret) => {
                        let b = f(&ret);
                        assert(f.ensures((&ret,), b));
                        if b {
                            Poll::Ready(Ok(StreamWriterState::Freeze))
                        } else {
                            Poll::Ready(Ok(StreamWriterState::Next))
                        }
                    },
                    Err(e) => Poll::Ready(Err(e)),
                };
                proof {
                    self.session@ = self.session@.push(part_g);
                    self.fired@ = self.fired@.push(
                        r == Poll::<Result<StreamWriterState, W::Error>>::Ready(
                            Ok(StreamWriterState::Freeze),
                        ),
                    );
                    self.acks@ = self.acks@.push(ack_of(sr_g));
                    self.ack_sessions@ = self.ack_sessions@.push(self.session@);
                    let ghost old_sent = old(self).sessions@.flatten() + old(self).session@;
                    self.send_log@ = self.send_log@.push((w0, ready_g, w1, self.writer, sr_g));
                    assert(self.sessions@.flatten() + self.session@ =~= old_sent.push(part_g));
                    assert forall|i: int| 0 <= i < self.send_log@.len() implies #[trigger] step_sent(
                        self.send_log@[i],
                        (self.sessions@.flatten() + self.session@)[i],
                    ) && self.acks@[i] == ack_of(self.send_log@[i].4) by {
                        if i < self.send_log@.len() - 1 {
                            assert(self.send_log@[i] == old(self).send_log@[i]);
                            assert((self.sessions@.flatten() + self.session@)[i] == old_sent[i]);
                            assert(self.acks@[i] == old(self).acks@[i]);
                        }
                    }
                    assert(self.acks@.drop_last() =~= old(self).acks@);
                    assert forall|i: int|
                        0 <= i < self.acks@.len() && self.acks@[i] is Some implies #[trigger] (
                        self.ack_inv@)(self.acks@[i]->0, self.ack_sessions@[i]) by {
                        if i < self.acks@.len() - 1 {
                            assert(self.acks@[i] == old(self).acks@[i]);
                            assert(self.ack_sessions@[i] == old(self).ack_sessions@[i]);
                        }
                    }
                    assert(self.fed@ =~= self.sessions@.flatten() + self.session@ + slot_seq(
                        self.buffered,
                    ));
                    assert(W::send_post(w1, part_g, self.writer, sr_g));
                }
                r
            },
        }
    }

    /// Flushes the writer and, once that succeeded, completes its open
    /// session. A successful completion closes the session.
    pub fn poll_freeze_output(&mut self) -> (r: Poll<Result<W::Output, W::Error>>)
        requires
            old(self).wf(),
            old(self).writer().inv(),
            old(self).buffered() is None,
        ensures
            final(self).wf(),
            final(self).writer().inv(),
            final(self).buffered() is None,
            final(self).fed() == old(self).fed(),
            final(self).fired() == old(self).fired(),
            final(self).acks() == old(self).acks(),
            final(self).ack_sessions() == old(self).ack_sessions(),
            final(self).send_log() == old(self).send_log(),
            final(self).output_inv() == old(self).output_inv(),
            r is Ready && r->Ready_0 is Ok ==> final(self).outputs() == old(self).outputs().push(
                r->Ready_0->Ok_0,
            ),
            !(r is Ready && r->Ready_0 is Ok) ==> final(self).outputs() == old(self).outputs(),
            freeze_post::<W, P>(old(self).writer(), final(self).writer(), r),
            r is Ready && r->Ready_0 is Ok ==> final(self).sessions() == old(
                self,
            ).sessions().push(old(self).session()) && final(self).session() == Seq::<P>::empty(),
            !(r is Ready && r->Ready_0 is Ok) ==> final(self).sessions() == old(self).sessions()
                && final(self).session() == old(self).session(),
    {
        let ghost w0 = self.writer;
        let flushed = self.writer.poll_flush();
        let ghost flushed_g = flushed;
        assert(W::flush_post(w0, self.writer, flushed_g));
        assert((self.session_inv@)(self.writer, self.session@));
        match flushed {
            Poll::Pending => Poll::Pending,
            Poll::Ready(Err(e)) => {
                assert(W::flush_post(w0, self.writer, Poll::Ready(Err(e))));
                Poll::Ready(Err(e))
            },
            Poll::Ready(Ok(())) => {
                let ghost w1 = self.writer;
                assert(ready_ok(flushed_g) && W::flush_post(w0, w1, flushed_g));
                let out = self.writer.poll_complete();
                assert(W::complete_post(w1, self.writer, out));
                let ghost out_g = out;
                assert((self.session_inv@)(w1, self.session@));
                match out {
                    Poll::Ready(Ok(o)) => {
                        proof {
                            broadcast use Seq::lemma_flatten_push;
                            let s = self.session@;
                            assert((self.output_inv@)(o, s));
                            self.sessions@ = self.sessions@.push(s);
                            self.session@ = Seq::empty();
                            self.outputs@ = self.outputs@.push(o);
                            assert(self.sessions@.flatten() =~= old(self).sessions@.flatten() + s);
                            assert(self.fed@ =~= self.sessions@.flatten() + self.session@ + slot_seq(
                                self.buffered,
                            ));
                            assert forall|i: int| 0 <= i < self.outputs@.len() implies #[trigger] (
                            self.output_inv@)(self.outputs@[i], self.sessions@[i]) by {
                                if i < self.outputs@.len() - 1 {
                                    assert(self.outputs@[i] == old(self).outputs@[i]);
                                    assert(self.sessions@[i] == old(self).sessions@[i]);
                                }
                            }
                        }
                        self.is_empty = true;
                        Poll::Ready(Ok(o))
                    },
                    Poll::Ready(Err(e)) => Poll::Ready(Err(e)),
                    Poll::Pending => Poll::Pending,
                }
            },
        }
    }
}

} // verus!
