//! The engine that turns a source and a writer into a stream of outputs.
use crate::stream::Stream;
use crate::write::extend::Extend;
use crate::stream::iter::Iter;
use crate::write::stream_writer::{
    ack_of, freeze_post, keeps_session, policy_answer, sent_post, slot_seq, step_sent, unsent_post,
    SendStep, StreamWriter, StreamWriterState,
};
use crate::{FusedMultipartWrite, MultipartWrite, Poll};
use vstd::arithmetic::div_mod::{
    lemma_fundamental_div_mod, lemma_fundamental_div_mod_converse, lemma_mod_bound,
};
use vstd::prelude::*;

verus! {

/// The step an [`Assembled`] stream takes when next polled.
#[derive(Debug, Clone, Copy, PartialEq, Eq, Structural)]
pub enum EngineState {
    /// Send the buffered part, if any.
    Write,
    /// Pull the source for the next part.
    Next,
    /// Cut the session: the policy asked for it after the last send.
    Complete,
    /// The source ended. `Shutdown(false)` still completes the parts sent
    /// since the last cut; `Shutdown(true)` ends the stream on the next poll.
    Shutdown(bool),
    /// The stream has ended.
    Done,
}

/// The number of `true` answers in `s`.
pub open spec fn count_true(s: Seq<bool>) -> nat
    decreases s.len(),
{
    if s.len() == 0 {
        0
    } else {
        count_true(s.drop_last()) + if s.last() {
            1nat
        } else {
            0nat
        }
    }
}

/// Appending one answer adds one to the count exactly when it is `true`.
pub proof fn lemma_count_true_push(s: Seq<bool>, b: bool)
    ensures
        count_true(s.push(b)) == count_true(s) + if b {
            1nat
        } else {
            0nat
        },
{
    assert(s.push(b).drop_last() =~= s);
}

/// Answers that are `true` exactly at every `k`-th position count one for
/// each full group of `k`.
pub proof fn lemma_count_true_every(s: Seq<bool>, k: int)
    requires
        k > 0,
        forall|i: int| 0 <= i < s.len() ==> s[i] == ((i + 1) % k == 0),
    ensures
        count_true(s) == s.len() as int / k,
    decreases s.len(),
{
    if s.len() == 0 {
        assert(0int / k == 0) by (nonlinear_arith)
            requires
                k > 0,
        ;
    } else {
        let n = s.len() as int;
        let t = s.drop_last();
        assert forall|i: int| 0 <= i < t.len() implies t[i] == ((i + 1) % k == 0) by {
            assert(t[i] == s[i]);
        }
        lemma_count_true_every(t, k);
        let q = (n - 1) / k;
        let r = (n - 1) % k;
        lemma_fundamental_div_mod(n - 1, k);
        assert(0 <= r < k) by {
            lemma_mod_bound(n - 1, k);
        }
        if r == k - 1 {
            assert(n == (q + 1) * k + 0) by (nonlinear_arith)
                requires
                    n - 1 == k * q + r,
                    r == k - 1,
            ;
            lemma_fundamental_div_mod_converse(n, k, q + 1, 0);
        } else {
            assert(n == q * k + (r + 1)) by (nonlinear_arith)
                requires
                    n - 1 == k * q + r,
            ;
            lemma_fundamental_div_mod_converse(n, k, q, r + 1);
        }
        assert(s.last() == s[n - 1]);
    }
}

/// With the [`Extend`] writer, which records its parts verbatim, and its
/// session invariant: when the stream ended because the source ended, the
/// contents of the outputs yielded, concatenated in the order they were
/// yielded, are exactly the items pulled from the source, and each output
/// holds exactly the parts of its session.
pub proof fn lemma_collected_outputs_reproduce_source<St: Stream, F: Fn(&usize) -> bool>(
    e: Assembled<St, Extend<St::Item>, F>,
)
    requires
        e.wf(),
        e.drained(),
        forall|o: Vec<St::Item>, s: Seq<St::Item>| #[trigger] (e.output_inv())(o, s) ==> o@ == s,
    ensures
        forall|i: int| 0 <= i < e.outputs().len() ==> #[trigger] e.outputs()[i]@ == e.sessions()[i],
        Seq::new(e.outputs().len(), |i: int| e.outputs()[i]@).flatten() == e.pulled(),
{
    e.lemma_outputs_follow_sessions();
    e.lemma_sessions_reproduce_source();
    assert forall|i: int| 0 <= i < e.outputs().len() implies #[trigger] e.outputs()[i]@
        == e.sessions()[i] by {
        assert((e.output_inv())(e.outputs()[i], e.sessions()[i]));
    }
    assert(Seq::new(e.outputs().len(), |i: int| e.outputs()[i]@) =~= e.sessions());
}

/// With an [`Iter`] source created fresh: when the stream ended because the
/// source ended, it pulled every item of the source, each once, in order.
pub proof fn lemma_iter_pulls_all<T, Wr: FusedMultipartWrite<T>, F: Fn(&Wr::Ret) -> bool>(
    e: Assembled<Iter<T>, Wr, F>,
)
    requires
        e.wf(),
        e.drained(),
        e.source_start().yielded() == Seq::<T>::empty(),
    ensures
        e.pulled() == e.source_start().items(),
{
    e.lemma_source_accounting();
    assert(e.source().remaining() == Seq::<T>::empty());
    assert(e.source().items() =~= e.pulled());
}

/// With an [`Iter`] source created fresh and the [`Extend`] writer with its
/// session invariant: when the stream ended because the source ended, the
/// contents of the outputs it yielded, concatenated in the order they were
/// yielded, are the items of the source.
pub proof fn lemma_iter_outputs_reproduce_items<T, F: Fn(&usize) -> bool>(
    e: Assembled<Iter<T>, Extend<T>, F>,
)
    requires
        e.wf(),
        e.drained(),
        e.source_start().yielded() == Seq::<T>::empty(),
        forall|o: Vec<T>, s: Seq<T>| #[trigger] (e.output_inv())(o, s) ==> o@ == s,
    ensures
        Seq::new(e.outputs().len(), |i: int| e.outputs()[i]@).flatten() == e.source_start().items(),
{
    lemma_iter_pulls_all(e);
    lemma_collected_outputs_reproduce_source(e);
}

/// The position after `j` in a cycle of `k`: one more than `j`'s, or back
/// to zero at the end of the cycle.
proof fn lemma_mod_step(j: int, k: int)
    requires
        k > 0,
        j >= 0,
    ensures
        0 <= j % k < k,
        (j + 1) % k == if j % k + 1 == k {
            0
        } else {
            j % k + 1
        },
{
    lemma_fundamental_div_mod(j, k);
    lemma_mod_bound(j, k);
    let q = j / k;
    let r = j % k;
    if r + 1 == k {
        assert(j + 1 == (q + 1) * k + 0) by (nonlinear_arith)
            requires
                j == k * q + r,
                r + 1 == k,
        ;
        lemma_fundamental_div_mod_converse(j + 1, k, q + 1, 0);
    } else {
        assert(j + 1 == q * k + (r + 1)) by (nonlinear_arith)
            requires
                j == k * q + r,
        ;
        lemma_fundamental_div_mod_converse(j + 1, k, q, r + 1);
    }
}

/// No `true` answer counts zero.
pub proof fn lemma_count_true_none(s: Seq<bool>)
    requires
        forall|i: int| 0 <= i < s.len() ==> !#[trigger] s[i],
    ensures
        count_true(s) == 0,
    decreases s.len(),
{
    if s.len() > 0 {
        assert forall|i: int| 0 <= i < s.drop_last().len() implies !#[trigger] s.drop_last()[i] by {
            assert(s.drop_last()[i] == s[i]);
        }
        lemma_count_true_none(s.drop_last());
        assert(!s[s.len() - 1]);
    }
}

/// Positions within sessions that restart after each fired send, where a
/// send fires exactly at a multiple of `k`, run `1, 2, ..., k` over and
/// over: the `i`-th is `i % k + 1`, and the sends that fire are every `k`-th.
pub proof fn lemma_positions_cycle(fired: Seq<bool>, pos: Seq<int>, k: int, i: int)
    requires
        k > 0,
        pos.len() == fired.len(),
        0 <= i < fired.len(),
        pos[0] == 1,
        forall|j: int|
            0 < j < fired.len() ==> #[trigger] pos[j] == if fired[j - 1] {
                1
            } else {
                pos[j - 1] + 1
            },
        forall|j: int| 0 <= j < fired.len() && pos[j] <= j + 1 ==> #[trigger] fired[j] == (pos[j] % k == 0),
    ensures
        pos[i] == i % k + 1,
        pos[i] <= i + 1,
        fired[i] == ((i + 1) % k == 0),
    decreases i,
{
    if i > 0 {
        lemma_positions_cycle(fired, pos, k, i - 1);
        lemma_mod_step(i - 1, k);
        assert(pos[i] == if fired[i - 1] {
            1
        } else {
            pos[i - 1] + 1
        });
    } else {
        assert(0int % k == 0) by (nonlinear_arith)
            requires
                k > 0,
        ;
    }
    lemma_mod_step(i, k);
    assert(fired[i] == (pos[i] % k == 0));
    if pos[i] == k {
        lemma_fundamental_div_mod_converse(pos[i], k, 1, 0);
    } else {
        lemma_fundamental_div_mod_converse(pos[i], k, 0, pos[i]);
    }
}

/// With the [`Extend`] writer tracked by its session invariant, whose
/// acknowledgement is the session's length, and a policy that fires exactly
/// on acknowledgements divisible by `k`: as long as no send failed, the
/// policy fired after every `k`-th send and no other.
pub proof fn lemma_extend_fires_every_k<St: Stream, F: Fn(&usize) -> bool>(
    e: Assembled<St, Extend<St::Item>, F>,
    k: int,
)
    requires
        e.wf(),
        k > 0,
        e.fired().len() <= usize::MAX,
        forall|ret: &usize, b: bool| #[trigger] e.policy().ensures((ret,), b) ==> b == (*ret as int % k
            == 0),
        forall|ret: usize, s: Seq<St::Item>| #[trigger] (e.ack_inv())(ret, s) ==> ret == s.len() as usize,
        forall|i: int| 0 <= i < e.acks().len() ==> #[trigger] e.acks()[i] is Some,
    ensures
        forall|i: int| 0 <= i < e.fired().len() ==> #[trigger] e.fired()[i] == ((i + 1) % k == 0),
{
    e.lemma_ack_sessions();
    e.lemma_policy_decides();
    let fired = e.fired();
    let n = fired.len() as int;
    if n > 0 {
        let pos = Seq::new(n as nat, |j: int| e.ack_sessions()[j].len() as int);
        assert forall|j: int| 0 <= j < n && pos[j] <= j + 1 implies #[trigger] fired[j] == (pos[j] % k
            == 0) by {
            assert(e.acks()[j] is Some);
            assert((e.ack_inv())(e.acks()[j]->0, e.ack_sessions()[j]));
            assert(policy_answer::<usize, F>(e.policy(), e.acks()[j], fired[j]));
            assert(e.acks()[j]->0 as int == pos[j]);
        }
        assert forall|j: int| 0 < j < n implies #[trigger] pos[j] == if fired[j - 1] {
            1
        } else {
            pos[j - 1] + 1
        } by {
            assert(e.ack_sessions()[j].len() == if fired[j - 1] {
                1
            } else {
                e.ack_sessions()[j - 1].len() + 1
            });
        }
        assert forall|i: int| 0 <= i < n implies #[trigger] fired[i] == ((i + 1) % k == 0) by {
            lemma_positions_cycle(fired, pos, k, i);
        }
    }
}

/// An [`Iter`] of `n` items created fresh, the [`Extend`] writer with its
/// session invariant, and a policy that fires exactly on acknowledgements
/// divisible by `k`, with `k` dividing `n`: when the stream ended because the
/// source ended and no send failed, it yielded `n / k` outputs whose
/// contents, concatenated in order, are the source's items.
pub proof fn lemma_iter_extend_every_k<T, F: Fn(&usize) -> bool>(
    e: Assembled<Iter<T>, Extend<T>, F>,
    k: int,
)
    requires
        e.wf(),
        e.drained(),
        k > 0,
        e.source_start().yielded() == Seq::<T>::empty(),
        e.source_start().items().len() as int % k == 0,
        e.source_start().items().len() <= usize::MAX,
        forall|ret: &usize, b: bool| #[trigger] e.policy().ensures((ret,), b) ==> b == (*ret as int % k
            == 0),
        forall|ret: usize, s: Seq<T>| #[trigger] (e.ack_inv())(ret, s) ==> ret == s.len() as usize,
        forall|o: Vec<T>, s: Seq<T>| #[trigger] (e.output_inv())(o, s) ==> o@ == s,
        forall|i: int| 0 <= i < e.acks().len() ==> #[trigger] e.acks()[i] is Some,
    ensures
        e.outputs().len() == e.source_start().items().len() as int / k,
        Seq::new(e.outputs().len(), |i: int| e.outputs()[i]@).flatten() == e.source_start().items(),
{
    lemma_iter_pulls_all(e);
    e.lemma_policy_decides();
    e.lemma_source_accounting();
    assert(e.sent() == e.pulled());
    lemma_extend_fires_every_k(e, k);
    e.lemma_cut_every_k(k);
    lemma_iter_outputs_reproduce_items(e);
}

/// Stream for [`assembled`](super::MultipartStreamExt::assembled).
///
/// Each call of `poll_next` runs a bounded number of steps of the state
/// machine. It yields `Pending` when the source or the writer reported
/// pending, or when its step budget is spent; in the latter case it has
/// pulled or sent at least one part, and the caller polls again.
#[verifier::reject_recursive_types(St)]
#[verifier::reject_recursive_types(Wr)]
pub struct Assembled<St: Stream, Wr: MultipartWrite<St::Item>, F> {
    stream: St,
    writer: StreamWriter<Wr, St::Item>,
    f: F,
    state: EngineState,
    stream_terminated: bool,
    is_terminated: bool,
    pending_cut: Ghost<bool>,
    trailing: Ghost<bool>,
    drained: Ghost<bool>,
    start_yielded: Ghost<Seq<St::Item>>,
    end_src: Ghost<St>,
    src_start: Ghost<St>,
}

/// The number of steps without a pull or a send after which a call of
/// `poll_next` in state `s` must have returned.
pub open spec fn idle_steps(s: EngineState) -> int {
    match s {
        EngineState::Next => 1,
        EngineState::Shutdown(false) => 2,
        _ => 0,
    }
}

/// The steps one call of `poll_next` may take before it yields.
pub const STEP_BUDGET: u8 = 8;

impl<St: Stream, Wr: FusedMultipartWrite<St::Item>, F: Fn(&Wr::Ret) -> bool> Assembled<St, Wr, F> {
    /// Every item pulled from the source, in order.
    pub closed spec fn pulled(self) -> Seq<St::Item> {
        self.writer.fed()
    }

    /// The sessions cut so far; one output was yielded for each.
    pub closed spec fn sessions(self) -> Seq<Seq<St::Item>> {
        self.writer.sessions()
    }

    /// For each part handed to the writer, the acknowledgement of its send,
    /// or `None` when the send failed.
    pub closed spec fn acks(self) -> Seq<Option<Wr::Ret>> {
        self.writer.acks()
    }

    /// For each part handed to the writer, the open session just after its
    /// send.
    pub closed spec fn ack_sessions(self) -> Seq<Seq<St::Item>> {
        self.writer.ack_sessions()
    }

    /// What each acknowledgement says of the session up to its send.
    pub closed spec fn ack_inv(self) -> spec_fn(Wr::Ret, Seq<St::Item>) -> bool {
        self.writer.ack_inv()
    }

    /// For each part handed to the writer, how it was sent: the readiness
    /// check just before it and the send itself.
    pub closed spec fn send_log(self) -> Seq<SendStep<Wr, St::Item>> {
        self.writer.send_log()
    }

    /// The completion policy.
    pub closed spec fn policy(self) -> F {
        self.f
    }

    /// The source.
    pub closed spec fn source(self) -> St {
        self.stream
    }

    /// What the source had yielded when this stream was created.
    pub closed spec fn start_yielded(self) -> Seq<St::Item> {
        self.start_yielded@
    }

    /// The source as it was when this was created.
    pub closed spec fn source_start(self) -> St {
        self.src_start@
    }

    /// The source has reported its end.
    pub closed spec fn source_ended(self) -> bool {
        self.stream_terminated
    }

    /// The source as it was when it reported its end.
    pub closed spec fn source_before_end(self) -> St {
        self.end_src@
    }

    /// Every part handed to the writer, in order.
    pub open spec fn sent(self) -> Seq<St::Item> {
        self.sessions().flatten() + self.session()
    }

    /// The error `e` was just returned by the writer: by the send of the last
    /// part handed to it, after which the slot is empty and the next step
    /// pulls the source again; by readiness or a flush, the part staying in
    /// the slot; or by the flush or completion of a cut.
    pub open spec fn error_explained(self, e: Wr::Error) -> bool {
        let failed = Poll::<Result<StreamWriterState, Wr::Error>>::Ready(Err(e));
        ||| self.state() is Write && self.buffered() is None && self.session().len() > 0
            && self.fired().len() > 0 && !self.fired().last() && exists|pre: Wr|
            #[trigger] sent_post::<Wr, St::Item, F>(
                pre,
                self.session().last(),
                self.writer(),
                self.policy(),
                failed,
            )
        ||| self.state() is Write && self.buffered() is Some && exists|pre: Wr|
            #[trigger] unsent_post::<Wr, St::Item>(pre, self.writer(), failed)
        ||| (self.state() is Complete || self.state() == EngineState::Shutdown(false)) && exists|
            pre: Wr,
        | #[trigger] freeze_post::<Wr, St::Item>(pre, self.writer(), Poll::Ready(Err(e)))
    }

    /// The call from `pre` to `self` pulled or sent at least one part.
    pub open spec fn progressed_from(self, pre: Self) -> bool {
        self.pulled().len() > pre.pulled().len() || self.fired().len() > pre.fired().len()
    }

    /// The outputs yielded so far, one for each session cut, in order.
    pub closed spec fn outputs(self) -> Seq<Wr::Output> {
        self.writer.outputs()
    }

    /// What each output says of its session's parts.
    pub closed spec fn output_inv(self) -> spec_fn(Wr::Output, Seq<St::Item>) -> bool {
        self.writer.output_inv()
    }

    /// The parts sent since the last cut.
    pub closed spec fn session(self) -> Seq<St::Item> {
        self.writer.session()
    }

    /// For each part sent, whether the policy asked for a cut after it.
    pub closed spec fn fired(self) -> Seq<bool> {
        self.writer.fired()
    }

    /// The part pulled but not yet sent, if any.
    pub closed spec fn buffered(self) -> Option<St::Item> {
        self.writer.buffered()
    }

    /// The writer being driven.
    pub closed spec fn writer(self) -> Wr {
        self.writer.writer()
    }

    /// The next step.
    pub closed spec fn state(self) -> EngineState {
        self.state
    }

    /// The stream has ended.
    pub closed spec fn finished(self) -> bool {
        self.state is Done
    }

    /// The stream ended because the source ended and everything pulled was
    /// sent and completed.
    pub closed spec fn drained(self) -> bool {
        self.drained@
    }

    /// The state machine's invariant.
    pub closed spec fn wf(self) -> bool {
        &&& self.writer.wf()
        &&& self.writer().inv()
        &&& forall|i: int|
            0 <= i < self.fired().len() ==> #[trigger] policy_answer::<Wr::Ret, F>(
                self.f,
                self.acks()[i],
                self.fired()[i],
            )
        &&& self.ack_sessions().len() == self.fired().len()
        &&& self.fired().len() > 0 ==> self.ack_sessions()[0].len() == 1
        &&& forall|i: int|
            0 < i < self.fired().len() ==> #[trigger] self.ack_sessions()[i].len() == if self.fired()[i
                - 1] {
                1
            } else {
                self.ack_sessions()[i - 1].len() + 1
            }
        &&& (self.state is Write || self.state is Next || self.state is Complete || self.state
            == EngineState::Shutdown(false)) ==> (self.fired().len() > 0 && (
        !self.fired().last() || self.pending_cut@) ==> self.session()
            == self.ack_sessions().last())
        &&& self.stream.yielded() == self.start_yielded@ + self.pulled()
        &&& St::continues(self.src_start@, self.stream)
        &&& self.start_yielded@ == self.src_start@.yielded()
        &&& self.stream_terminated ==> St::next_post(self.end_src@, self.stream, Poll::Ready(None))
        &&& forall|ret: &Wr::Ret| self.f.requires((ret,))
        &&& self.is_terminated == (self.state is Done)
        &&& self.sessions().len() + (if self.pending_cut@ { 1nat } else { 0nat }) == count_true(
            self.fired(),
        ) + (if self.trailing@ { 1nat } else { 0nat })
        &&& self.trailing@ ==> self.fired().len() > 0 && !self.fired().last() && (
        self.state is Shutdown || self.state is Done)
        &&& self.drained@ ==> {
            &&& self.state is Done
            &&& self.stream_terminated
            &&& self.buffered() is None
            &&& self.session().len() == 0
            &&& !self.pending_cut@
            &&& (self.trailing@ <==> (self.fired().len() > 0 && !self.fired().last()))
        }
        &&& match self.state {
            EngineState::Write | EngineState::Next => {
                &&& !self.pending_cut@
                &&& !self.stream_terminated
                &&& (self.state is Next ==> self.buffered() is None)
                &&& (self.session().len() == 0 <==> (self.fired().len() == 0
                    || self.fired().last()))
            },
            EngineState::Complete => {
                &&& self.pending_cut@
                &&& !self.stream_terminated
                &&& self.buffered() is None
                &&& self.session().len() > 0
                &&& self.fired().len() > 0 && self.fired().last()
            },
            EngineState::Shutdown(last) => {
                &&& !self.pending_cut@
                &&& self.stream_terminated
                &&& self.buffered() is None
                &&& (!last ==> self.session().len() > 0 && self.fired().len() > 0
                    && !self.fired().last() && !self.trailing@)
                &&& (last ==> self.session().len() == 0 && self.trailing@)
            },
            EngineState::Done => true,
        }
    }

    /// Creates the stream over `stream` and `writer` with the policy `f`.
    pub fn new(stream: St, writer: Wr, f: F) -> (r: Self)
        requires
            writer.inv(),
            forall|ret: &Wr::Ret| f.requires((ret,)),
        ensures
            r.wf(),
            r.pulled() == Seq::<St::Item>::empty(),
            r.sessions() == Seq::<Seq<St::Item>>::empty(),
            r.outputs() == Seq::<Wr::Output>::empty(),
            r.writer() == writer,
            r.source() == stream,
            r.source_start() == stream,
            r.start_yielded() == stream.yielded(),
            r.state() == EngineState::Write,
            !r.finished(),
    {
        Self::from_bridge(stream, StreamWriter::new(writer), f)
    }

    /// Creates the stream over `stream` and `writer` with the policy `f`,
    /// tracking the session invariant `inv` of the writer, with `out` for
    /// what each output says of its session's parts.
    pub fn with_session_inv(
        stream: St,
        writer: Wr,
        f: F,
        inv: Ghost<spec_fn(Wr, Seq<St::Item>) -> bool>,
        out: Ghost<spec_fn(Wr::Output, Seq<St::Item>) -> bool>,
        ack: Ghost<spec_fn(Wr::Ret, Seq<St::Item>) -> bool>,
    ) -> (r: Self)
        requires
            writer.inv(),
            forall|ret: &Wr::Ret| f.requires((ret,)),
            keeps_session(inv@, out@, ack@),
            inv@(writer, Seq::empty()),
        ensures
            r.wf(),
            r.pulled() == Seq::<St::Item>::empty(),
            r.sessions() == Seq::<Seq<St::Item>>::empty(),
            r.outputs() == Seq::<Wr::Output>::empty(),
            r.output_inv() == out@,
            r.writer() == writer,
            r.source() == stream,
            r.source_start() == stream,
            r.start_yielded() == stream.yielded(),
            r.state() == EngineState::Write,
            !r.finished(),
    {
        Self::from_bridge(stream, StreamWriter::with_session_inv(writer, inv, out, ack), f)
    }

    fn from_bridge(stream: St, writer: StreamWriter<Wr, St::Item>, f: F) -> (r: Self)
        requires
            writer.wf(),
            writer.writer().inv(),
            writer.buffered() is None,
            writer.fed() == Seq::<St::Item>::empty(),
            writer.sessions() == Seq::<Seq<St::Item>>::empty(),
            writer.session() == Seq::<St::Item>::empty(),
            writer.fired() == Seq::<bool>::empty(),
            forall|ret: &Wr::Ret| f.requires((ret,)),
        ensures
            r.wf(),
            r.writer == writer,
            r.source() == stream,
            r.source_start() == stream,
            r.start_yielded() == stream.yielded(),
            r.state() == EngineState::Write,
    {
        let ghost y = stream.yielded();
        assert(y == y + writer.fed());
        proof {
            St::lemma_continues_refl(stream);
            writer.lemma_accounting();
        }
        Assembled {
            stream,
            writer,
            f,
            state: EngineState::Write,
            stream_terminated: false,
            is_terminated: false,
            pending_cut: Ghost(false),
            trailing: Ghost(false),
            drained: Ghost(false),
            start_yielded: Ghost(stream.yielded()),
            end_src: Ghost(stream),
            src_start: Ghost(stream),
        }
    }

    /// Returns `true` once the stream has ended.
    pub fn is_terminated(&self) -> (r: bool)
        requires
            self.wf(),
        ensures
            r == self.finished(),
    {
        self.is_terminated
    }
    /// Advances the stream.
    ///
    /// Before each step the writer is asked whether it has terminated; if so
    /// the stream ends at once and a part that was pulled but not sent is
    /// dropped. Otherwise the steps are those of [`EngineState`]: a buffered
    /// part is sent when the writer is ready and the policy decides on a cut;
    /// the source is pulled when the slot is empty; a cut flushes and
    /// completes the writer and yields its output; the end of the source
    /// yields one last output if parts were sent since the last cut, and then
    /// ends the stream. An error of the writer is yielded as an item and the
    /// step is retried on the next poll.
    #[verifier::spinoff_prover]
    #[verifier::rlimit(60)]
    pub fn poll_next(&mut self) -> (r: Poll<Option<Result<Wr::Output, Wr::Error>>>)
        requires
            old(self).wf(),
        ensures
            final(self).wf(),
            old(self).pulled().is_prefix_of(final(self).pulled()),
            old(self).finished() ==> r == Poll::<Option<Result<Wr::Output, Wr::Error>>>::Ready(None)
                && *final(self) == *old(self),
            old(self).writer().terminated() ==> r == Poll::<
                Option<Result<Wr::Output, Wr::Error>>,
            >::Ready(None) && final(self).finished()
                && final(self).pulled() == old(self).pulled()
                && final(self).sessions() == old(self).sessions(),
            r is Ready && r->Ready_0 is None <==> final(self).finished(),
            final(self).output_inv() == old(self).output_inv(),
            r is Ready && r->Ready_0 is Some && r->Ready_0->Some_0 is Ok ==> final(self).outputs()
                == old(self).outputs().push(r->Ready_0->Some_0->Ok_0),
            !(r is Ready && r->Ready_0 is Some && r->Ready_0->Some_0 is Ok) ==> final(self).outputs()
                == old(self).outputs(),
            r is Ready && r->Ready_0 is Some && r->Ready_0->Some_0 is Ok ==> {
                &&& final(self).sessions().len() == old(self).sessions().len() + 1
                &&& old(self).sessions().is_prefix_of(final(self).sessions())
                &&& final(self).session().len() == 0
            },
            !(r is Ready && r->Ready_0 is Some && r->Ready_0->Some_0 is Ok)
                ==> final(self).sessions() == old(self).sessions(),
            r is Ready && r->Ready_0 is Some && r->Ready_0->Some_0 is Ok ==> (final(self).state() is Write
                || final(self).state() == EngineState::Shutdown(true)),
            r is Ready && r->Ready_0 is Some && r->Ready_0->Some_0 is Err ==> (final(self).state() is Write
                || final(self).state() is Complete || final(self).state() == EngineState::Shutdown(
                false,
            )),
            final(self).state() == EngineState::Shutdown(true) ==> final(self).session().len() == 0
                && final(self).buffered() is None,
            final(self).start_yielded() == old(self).start_yielded(),
            final(self).source_start() == old(self).source_start(),
            final(self).policy() == old(self).policy(),
            old(self).acks().is_prefix_of(final(self).acks()),
            forall|i: int|
                old(self).acks().len() <= i < final(self).acks().len()
                    && #[trigger] final(self).acks()[i] is None ==> i == final(self).acks().len() - 1
                    && r is Ready && r->Ready_0 is Some && r->Ready_0->Some_0 is Err,
            old(self).state() == EngineState::Shutdown(true) && !old(self).writer().terminated()
                ==> r == Poll::<Option<Result<Wr::Output, Wr::Error>>>::Ready(None)
                && final(self).finished() && final(self).drained()
                && final(self).source() == old(self).source()
                && final(self).writer() == old(self).writer(),
            old(self).source_ended() ==> final(self).source() == old(self).source()
                && final(self).source_ended(),
            final(self).source_ended() ==> St::next_post(
                final(self).source_before_end(),
                final(self).source(),
                Poll::Ready(None),
            ),
            r is Ready && r->Ready_0 is Some && r->Ready_0->Some_0 is Ok ==> {
                &&& (final(self).state() == EngineState::Shutdown(true) <==> final(self).source_ended())
                &&& exists|pre: Wr|
                    #[trigger] freeze_post::<Wr, St::Item>(
                        pre,
                        final(self).writer(),
                        Poll::Ready(Ok(r->Ready_0->Some_0->Ok_0)),
                    )
            },
            r is Ready && r->Ready_0 is None && !old(self).finished()
                && !final(self).writer().terminated() ==> final(self).drained(),
            r is Ready && r->Ready_0 is Some && r->Ready_0->Some_0 is Err
                ==> final(self).error_explained(r->Ready_0->Some_0->Err_0),
            r is Pending ==> {
                ||| final(self).progressed_from(*old(self))
                ||| final(self).writer() == old(self).writer() && St::next_post(
                    old(self).source(),
                    final(self).source(),
                    Poll::Pending,
                )
                ||| unsent_post::<Wr, St::Item>(
                    old(self).writer(),
                    final(self).writer(),
                    Poll::Pending,
                )
                ||| freeze_post::<Wr, St::Item>(
                    old(self).writer(),
                    final(self).writer(),
                    Poll::Pending,
                )
            },
    {
        if self.is_terminated {
            return Poll::Ready(None);
        }
        let mut fuel: u8 = STEP_BUDGET;
        loop
            invariant
                self.wf(),
                fuel <= STEP_BUDGET,
                fuel == STEP_BUDGET ==> *self == *old(self),
                old(self).writer().terminated() ==> fuel == STEP_BUDGET,
                !old(self).finished(),
                !self.finished(),
                old(self).pulled().is_prefix_of(self.pulled()),
                self.sessions() == old(self).sessions(),
                self.outputs() == old(self).outputs(),
                self.output_inv() == old(self).output_inv(),
                self.start_yielded() == old(self).start_yielded(),
                self.source_start() == old(self).source_start(),
                old(self).fired().len() <= self.fired().len(),
                self.policy() == old(self).policy(),
                old(self).source_ended() ==> self.source() == old(self).source() && self.source_ended(),
                old(self).acks().is_prefix_of(self.acks()),
                forall|i: int|
                    old(self).acks().len() <= i < self.acks().len() ==> #[trigger] self.acks()[i] is Some,
                !self.progressed_from(*old(self)) ==> {
                    &&& self.writer() == old(self).writer()
                    &&& self.stream_terminated || self.source() == old(self).source()
                    &&& STEP_BUDGET - fuel <= idle_steps(self.state)
                },
                old(self).state() == EngineState::Shutdown(true) ==> fuel == STEP_BUDGET,
            decreases fuel,
        {
            if self.writer.get_ref().is_terminated() {
                self.state = EngineState::Done;
                self.is_terminated = true;
                return Poll::Ready(None);
            }
            if fuel == 0 {
                return Poll::Pending;
            }
            fuel = fuel - 1;
            let ghost fired0 = self.fired();
            let ghost pulled0 = self.pulled();
            match self.state {
                EngineState::Write => {
                    let ghost w0 = self.writer.writer();
                    let ghost slot0 = self.writer.buffered();
                    let ghost session0 = self.writer.session();
                    let ghost acks0 = self.acks();
                    let ghost ack_sessions0 = self.ack_sessions();
                    proof {
                        self.writer.lemma_accounting();
                    }
                    let res = self.writer.poll_write_part(&self.f);
                    let ghost res_g = res;
                    proof {
                        self.writer.lemma_accounting();
                        if self.fired().len() > fired0.len() {
                            lemma_count_true_push(fired0, self.fired().last());
                            assert(self.fired() == fired0.push(self.fired().last()));
                            assert(self.acks() == acks0.push(self.acks().last()));
                            assert(self.ack_sessions() == ack_sessions0.push(self.session()));
                            assert forall|i: int| 0 < i < self.fired().len() implies #[trigger] self.ack_sessions()[i].len() == if self.fired()[i - 1] {
                                1
                            } else {
                                self.ack_sessions()[i - 1].len() + 1
                            } by {
                                if i < fired0.len() {
                                    assert(self.ack_sessions()[i] == ack_sessions0[i]);
                                    assert(self.ack_sessions()[i - 1] == ack_sessions0[i - 1]);
                                    assert(self.fired()[i - 1] == fired0[i - 1]);
                                }
                            }
                            assert forall|i: int| 0 <= i < self.fired().len() implies #[trigger] policy_answer::<Wr::Ret, F>(
                                self.f,
                                self.acks()[i],
                                self.fired()[i],
                            ) by {
                                if i < fired0.len() {
                                    assert(self.acks()[i] == acks0[i]);
                                    assert(self.fired()[i] == fired0[i]);
                                }
                            }
                        }
                    }
                    match res {
                        Poll::Pending => {
                            return Poll::Pending;
                        },
                        Poll::Ready(Err(e)) => {
                            proof {
                                if self.buffered() is None {
                                    assert(slot0 is Some);
                                    assert(self.session() == session0.push(slot0->0));
                                    assert(self.session().last() == slot0->0);
                                    assert(self.fired() == fired0.push(false));
                                    assert(self.session().len() > 0);
                                    assert(self.state is Write);
                                    assert(sent_post::<Wr, St::Item, F>(
                                        w0,
                                        self.session().last(),
                                        self.writer(),
                                        self.policy(),
                                        res_g,
                                    ));
                                } else {
                                    assert(unsent_post::<Wr, St::Item>(w0, self.writer(), res_g));
                                }
                                let failed = Poll::<Result<StreamWriterState, Wr::Error>>::Ready(
                                    Err(e),
                                );
                                assert(res_g == failed);
                                if self.buffered() is None {
                                    assert(exists|pre: Wr|
                                        #[trigger] sent_post::<Wr, St::Item, F>(
                                            pre,
                                            self.session().last(),
                                            self.writer(),
                                            self.policy(),
                                            failed,
                                        ));
                                } else {
                                    assert(exists|pre: Wr|
                                        #[trigger] unsent_post::<Wr, St::Item>(
                                            pre,
                                            self.writer(),
                                            failed,
                                        ));
                                }
                                assert(self.error_explained(e));
                            }
                            return Poll::Ready(Some(Err(e)));
                        },
                        Poll::Ready(Ok(StreamWriterState::Freeze)) => {
                            self.pending_cut = Ghost(true);
                            self.state = EngineState::Complete;
                        },
                        Poll::Ready(Ok(_)) => {
                            self.state = EngineState::Next;
                        },
                    }
                },
                EngineState::Next => {
                    let ghost src0 = self.stream;
                    let pulled = self.stream.poll_next();
                    proof {
                        St::lemma_continues_trans(self.src_start@, src0, self.stream);
                    }
                    let ghost pulled_g = pulled;
                    assert(St::next_post(src0, self.stream, pulled_g));
                    match pulled {
                        Poll::Pending => {
                            return Poll::Pending;
                        },
                        Poll::Ready(Some(next)) => {
                            self.writer.set_buffered(next);
                            self.state = EngineState::Write;
                            assert(self.stream.yielded() =~= self.start_yielded@ + self.pulled());
                        },
                        Poll::Ready(None) => {
                            self.end_src = Ghost(src0);
                            self.stream_terminated = true;
                            if self.writer.is_empty() {
                                self.state = EngineState::Done;
                                self.is_terminated = true;
                                self.drained = Ghost(true);
                                return Poll::Ready(None);
                            }
                            self.state = EngineState::Shutdown(false);
                        },
                    }
                },
                EngineState::Complete => {
                    let ghost w0 = self.writer.writer();
                    let out = self.writer.poll_freeze_output();
                    let ghost out_g = out;
                    assert(freeze_post::<Wr, St::Item>(w0, self.writer(), out_g));
                    match out {
                        Poll::Pending => {
                            return Poll::Pending;
                        },
                        Poll::Ready(Err(e)) => {
                            assert(self.error_explained(e));
                            return Poll::Ready(Some(Err(e)));
                        },
                        Poll::Ready(Ok(output)) => {
                            self.pending_cut = Ghost(false);
                            self.state = EngineState::Write;
                            return Poll::Ready(Some(Ok(output)));
                        },
                    }
                },
                EngineState::Shutdown(false) => {
                    let ghost w0 = self.writer.writer();
                    let out = self.writer.poll_freeze_output();
                    let ghost out_g = out;
                    assert(freeze_post::<Wr, St::Item>(w0, self.writer(), out_g));
                    match out {
                        Poll::Pending => {
                            return Poll::Pending;
                        },
                        Poll::Ready(Err(e)) => {
                            assert(self.error_explained(e));
                            return Poll::Ready(Some(Err(e)));
                        },
                        Poll::Ready(Ok(output)) => {
                            self.trailing = Ghost(true);
                            self.state = EngineState::Shutdown(true);
                            return Poll::Ready(Some(Ok(output)));
                        },
                    }
                },
                EngineState::Shutdown(true) => {
                    self.state = EngineState::Done;
                    self.is_terminated = true;
                    self.drained = Ghost(true);
                    return Poll::Ready(None);
                },
                EngineState::Done => {
                    return Poll::Ready(None);
                },
            }
        }
    }
    /// When the stream ended because the source ended, the sessions it cut,
    /// concatenated in the order their outputs were yielded, are exactly the
    /// items pulled from the source: each item once, in the source's order.
    pub proof fn lemma_sessions_reproduce_source(self)
        requires
            self.wf(),
            self.drained(),
        ensures
            self.sessions().flatten() == self.pulled(),
    {
        self.writer.lemma_accounting();
        assert(self.sessions().flatten() =~= self.pulled());
    }

    /// What the stream pulled is what the source yielded since the stream was
    /// created, and the source stays a continuation of the one the stream was
    /// created with. A stream that drained, or that is shutting down, saw the
    /// source report its end; shutting down with a session still open, it has
    /// parts to complete and none waiting.
    pub proof fn lemma_source_accounting(self)
        requires
            self.wf(),
        ensures
            self.source().yielded() == self.start_yielded() + self.pulled(),
            self.start_yielded() == self.source_start().yielded(),
            St::continues(self.source_start(), self.source()),
            self.drained() ==> St::next_post(
                self.source_before_end(),
                self.source(),
                Poll::Ready(None),
            ),
            self.state() is Shutdown ==> St::next_post(
                self.source_before_end(),
                self.source(),
                Poll::Ready(None),
            ),
            self.state() == EngineState::Shutdown(false) ==> self.session().len() > 0
                && self.buffered() is None,
            self.state() is Next ==> self.buffered() is None,
    {
    }

    /// The policy decides every cut: for each part handed to the writer, in
    /// the order pulled, `fired()` holds the policy's answer on the send's
    /// acknowledgement, or `false` when the send failed. The parts handed to
    /// the writer are the parts pulled, but for the one waiting in the slot,
    /// and each was sent right after a successful readiness check, to the
    /// writer as that check left it.
    pub proof fn lemma_policy_decides(self)
        requires
            self.wf(),
        ensures
            self.acks().len() == self.fired().len(),
            self.fired().len() == self.sent().len(),
            self.pulled() == self.sent() + slot_seq(self.buffered()),
            self.send_log().len() == self.sent().len(),
            forall|i: int|
                0 <= i < self.send_log().len() ==> #[trigger] step_sent(
                    self.send_log()[i],
                    self.sent()[i],
                ) && self.acks()[i] == ack_of(self.send_log()[i].4),
            forall|i: int|
                0 <= i < self.fired().len() ==> #[trigger] policy_answer::<Wr::Ret, F>(
                    self.policy(),
                    self.acks()[i],
                    self.fired()[i],
                ),
    {
        self.writer.lemma_accounting();
    }

    /// Each send's acknowledgement is related by the acknowledgement invariant
    /// to the open session just after it; that session has one part after
    /// the first send and after a send that follows a cut, and one more part
    /// than the previous send's otherwise.
    pub proof fn lemma_ack_sessions(self)
        requires
            self.wf(),
        ensures
            self.ack_sessions().len() == self.fired().len(),
            self.acks().len() == self.fired().len(),
            self.fired().len() > 0 ==> self.ack_sessions()[0].len() == 1,
            forall|i: int|
                0 < i < self.fired().len() ==> #[trigger] self.ack_sessions()[i].len() == if self.fired()[i
                    - 1] {
                    1
                } else {
                    self.ack_sessions()[i - 1].len() + 1
                },
            forall|i: int|
                0 <= i < self.acks().len() && self.acks()[i] is Some ==> #[trigger] (self.ack_inv())(
                    self.acks()[i]->0,
                    self.ack_sessions()[i],
                ),
    {
        self.writer.lemma_accounting();
    }

    /// Each output yielded stands for the session cut with it: the output
    /// invariant relates the `i`-th output to the `i`-th session.
    pub proof fn lemma_outputs_follow_sessions(self)
        requires
            self.wf(),
        ensures
            self.outputs().len() == self.sessions().len(),
            forall|i: int|
                0 <= i < self.outputs().len() ==> #[trigger] (self.output_inv())(
                    self.outputs()[i],
                    self.sessions()[i],
                ),
    {
        self.writer.lemma_accounting();
    }

    /// When the stream ended because the source ended, it cut one session per
    /// send after which the policy asked for a cut, plus one trailing session
    /// exactly when parts were sent after the last such send.
    pub proof fn lemma_cut_count(self)
        requires
            self.wf(),
            self.drained(),
        ensures
            self.sessions().len() == count_true(self.fired()) + if self.fired().len() > 0
                && !self.fired().last() {
                1nat
            } else {
                0nat
            },
            self.outputs().len() == self.sessions().len(),
    {
        self.writer.lemma_accounting();
    }

    /// With a policy that never asks for a cut: when the stream ended because
    /// the source ended, it cut exactly one session, holding every part
    /// pulled, if the source yielded anything, and none otherwise.
    pub proof fn lemma_never_fires(self)
        requires
            self.wf(),
            self.drained(),
            forall|ret: &Wr::Ret, b: bool| #[trigger] self.policy().ensures((ret,), b) ==> !b,
        ensures
            self.pulled().len() == 0 ==> self.sessions().len() == 0,
            self.pulled().len() > 0 ==> self.sessions() == seq![self.pulled()],
            self.outputs().len() == self.sessions().len(),
    {
        self.lemma_policy_decides();
        self.lemma_cut_count();
        self.lemma_sessions_reproduce_source();
        let fired = self.fired();
        assert forall|i: int| 0 <= i < fired.len() implies !#[trigger] fired[i] by {
            assert(policy_answer::<Wr::Ret, F>(self.policy(), self.acks()[i], fired[i]));
        }
        lemma_count_true_none(fired);
        if self.pulled().len() > 0 {
            assert(fired.last() == fired[fired.len() - 1]);
            assert(self.sessions().len() == 1);
            let s0 = self.sessions()[0];
            assert(self.sessions() =~= seq![s0]);
            seq![s0].lemma_flatten_one_element();
        } else {
            if self.sessions().len() > 0 {
                assert(fired.len() == 0);
            }
        }
    }

    /// When the policy asked for a cut after every `k`-th send and no other,
    /// and the stream ended because the source ended after a multiple of `k`
    /// items, it cut exactly one session, and yielded one output, per `k`
    /// items: none for an empty source, and no trailing one.
    pub proof fn lemma_cut_every_k(self, k: int)
        requires
            self.wf(),
            self.drained(),
            k > 0,
            self.pulled().len() as int % k == 0,
            forall|i: int| 0 <= i < self.fired().len() ==> self.fired()[i] == ((i + 1) % k == 0),
        ensures
            self.sessions().len() == self.pulled().len() as int / k,
            self.outputs().len() == self.pulled().len() as int / k,
    {
        self.writer.lemma_accounting();
        lemma_count_true_every(self.fired(), k);
        let n = self.fired().len() as int;
        assert(self.fired().len() == self.pulled().len());
        if self.trailing@ {
            assert(self.fired().last() == self.fired()[n - 1]);
            assert(self.fired()[n - 1] == (n % k == 0));
        }
    }
}

} // verus!
