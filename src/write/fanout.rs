//! Writing each part to two writers.
use crate::{FusedMultipartWrite, MultipartWrite, Poll};
use vstd::pervasive::cloned;
use vstd::prelude::*;

verus! {

/// `MultipartWrite` for [`MultipartWriteExt::fanout`](super::MultipartWriteExt::fanout).
///
/// Each part is cloned and sent to both writers, the clone to the first;
/// an error says which writer failed. The two writers' internal
/// states are not synchronized beyond that.
pub struct Fanout<Wr1: MultipartWrite<Part>, Wr2: MultipartWrite<Part>, Part> {
    wr1: Wr1,
    wr2: Wr2,
    wro1: Option<Wr1::Output>,
}

/// The error of a [`Fanout`]: which of the two writers failed, and how.
#[derive(Debug, PartialEq, Eq)]
pub enum FanoutError<E1, E2> {
    /// The first writer failed.
    First(E1),
    /// The second writer failed.
    Second(E2),
}

/// Combines the results of the same operation on both writers: the first
/// writer's error, else the second's, else ready when both are ready.
pub open spec fn both_ready<E1, E2>(
    r1: Poll<Result<(), E1>>,
    r2: Poll<Result<(), E2>>,
    r: Poll<Result<(), FanoutError<E1, E2>>>,
) -> bool {
    match r2 {
        Poll::Ready(Err(e)) => r == Poll::<Result<(), FanoutError<E1, E2>>>::Ready(
            Err(FanoutError::Second(e)),
        ),
        _ => if r1 is Ready && r2 is Ready {
            r is Ready && r->Ready_0 is Ok
        } else {
            r is Pending
        },
    }
}

/// What the second writer's completion, with the first writer's output `o1`
/// already held, makes of the result and of the held output.
pub open spec fn second_complete<O1, O2, E1, E2>(
    o1: O1,
    r2: Poll<Result<O2, E2>>,
    held: Option<O1>,
    r: Poll<Result<(O1, O2), FanoutError<E1, E2>>>,
) -> bool {
    match r2 {
        Poll::Pending => r is Pending && held == Some(o1),
        Poll::Ready(Err(e)) => r == Poll::<Result<(O1, O2), FanoutError<E1, E2>>>::Ready(
            Err(FanoutError::Second(e)),
        ) && held == Some(o1),
        Poll::Ready(Ok(o2)) => r == Poll::<Result<(O1, O2), FanoutError<E1, E2>>>::Ready(
            Ok((o1, o2)),
        ) && held == None::<O1>,
    }
}

impl<Wr1: MultipartWrite<Part>, Wr2: MultipartWrite<Part>, Part> Fanout<Wr1, Wr2, Part> {
    /// The first writer.
    pub closed spec fn first(self) -> Wr1 {
        self.wr1
    }

    /// The second writer.
    pub closed spec fn second(self) -> Wr2 {
        self.wr2
    }

    /// The first writer's output, held while the second one completes.
    pub closed spec fn held(self) -> Option<Wr1::Output> {
        self.wro1
    }

    /// Sends each part to both `wr1` and `wr2`.
    pub fn new(wr1: Wr1, wr2: Wr2) -> (r: Self)
        ensures
            r.first() == wr1,
            r.second() == wr2,
            r.held() is None,
    {
        Fanout { wr1, wr2, wro1: None }
    }
}

impl<Wr1: MultipartWrite<Part>, Wr2: MultipartWrite<Part>, Part: Clone> MultipartWrite<Part> for Fanout<
    Wr1,
    Wr2,
    Part,
> {
    type Ret = (Wr1::Ret, Wr2::Ret);
    type Output = (Wr1::Output, Wr2::Output);
    type Error = FanoutError<Wr1::Error, Wr2::Error>;

    open spec fn inv(self) -> bool {
        self.first().inv() && self.second().inv()
    }

    open spec fn ready_post(pre: Self, post: Self, r: Poll<Result<(), FanoutError<Wr1::Error, Wr2::Error>>>) -> bool {
        &&& post.held() == pre.held()
        &&& exists|r1: Poll<Result<(), Wr1::Error>>|
            #[trigger] Wr1::ready_post(pre.first(), post.first(), r1) && match r1 {
                Poll::Ready(Err(e)) => post.second() == pre.second() && r == Poll::<
                    Result<(), FanoutError<Wr1::Error, Wr2::Error>>,
                >::Ready(Err(FanoutError::First(e))),
                _ => exists|r2: Poll<Result<(), Wr2::Error>>|
                    #[trigger] Wr2::ready_post(pre.second(), post.second(), r2) && both_ready(
                        r1,
                        r2,
                        r,
                    ),
            }
    }

    open spec fn send_post(
        pre: Self,
        part: Part,
        post: Self,
        r: Result<(Wr1::Ret, Wr2::Ret), FanoutError<Wr1::Error, Wr2::Error>>,
    ) -> bool {
        &&& post.held() == pre.held()
        &&& exists|copy: Part, r1: Result<Wr1::Ret, Wr1::Error>|
            cloned(part, copy) && #[trigger] Wr1::send_post(pre.first(), copy, post.first(), r1)
                && match r1 {
                Err(e) => post.second() == pre.second() && r == Err::<
                    (Wr1::Ret, Wr2::Ret),
                    FanoutError<Wr1::Error, Wr2::Error>,
                >(FanoutError::First(e)),
                Ok(x) => exists|r2: Result<Wr2::Ret, Wr2::Error>|
                    #[trigger] Wr2::send_post(pre.second(), part, post.second(), r2) && match r2 {
                        Ok(y) => r == Ok::<
                            (Wr1::Ret, Wr2::Ret),
                            FanoutError<Wr1::Error, Wr2::Error>,
                        >((x, y)),
                        Err(e) => r == Err::<
                            (Wr1::Ret, Wr2::Ret),
                            FanoutError<Wr1::Error, Wr2::Error>,
                        >(FanoutError::Second(e)),
                    },
            }
    }

    open spec fn flush_post(pre: Self, post: Self, r: Poll<Result<(), FanoutError<Wr1::Error, Wr2::Error>>>) -> bool {
        &&& post.held() == pre.held()
        &&& exists|r1: Poll<Result<(), Wr1::Error>>|
            #[trigger] Wr1::flush_post(pre.first(), post.first(), r1) && match r1 {
                Poll::Ready(Err(e)) => post.second() == pre.second() && r == Poll::<
                    Result<(), FanoutError<Wr1::Error, Wr2::Error>>,
                >::Ready(Err(FanoutError::First(e))),
                _ => exists|r2: Poll<Result<(), Wr2::Error>>|
                    #[trigger] Wr2::flush_post(pre.second(), post.second(), r2) && both_ready(
                        r1,
                        r2,
                        r,
                    ),
            }
    }

    open spec fn complete_post(
        pre: Self,
        post: Self,
        r: Poll<Result<(Wr1::Output, Wr2::Output), FanoutError<Wr1::Error, Wr2::Error>>>,
    ) -> bool {
        match pre.held() {
            Some(o1) => post.first() == pre.first() && exists|r2: Poll<Result<Wr2::Output, Wr2::Error>>|
                #[trigger] Wr2::complete_post(pre.second(), post.second(), r2) && second_complete(
                    o1,
                    r2,
                    post.held(),
                    r,
                ),
            None => exists|r1: Poll<Result<Wr1::Output, Wr1::Error>>|
                #[trigger] Wr1::complete_post(pre.first(), post.first(), r1) && match r1 {
                    Poll::Pending => r is Pending && post.second() == pre.second() && post.held() is None,
                    Poll::Ready(Err(e)) => r == Poll::<
                        Result<(Wr1::Output, Wr2::Output), FanoutError<Wr1::Error, Wr2::Error>>,
                    >::Ready(Err(FanoutError::First(e))) && post.second() == pre.second() && post.held() is None,
                    Poll::Ready(Ok(o1)) => exists|r2: Poll<Result<Wr2::Output, Wr2::Error>>|
                        #[trigger] Wr2::complete_post(pre.second(), post.second(), r2)
                            && second_complete(o1, r2, post.held(), r),
                },
        }
    }

    fn poll_ready(&mut self) -> (r: Poll<Result<(), FanoutError<Wr1::Error, Wr2::Error>>>) {
        let r1 = self.wr1.poll_ready();
        let ghost r1_g = r1;
        assert(Wr1::ready_post(old(self).first(), self.first(), r1_g));
        let ready1 = match r1 {
            Poll::Ready(Err(e)) => {
                return Poll::Ready(Err(FanoutError::First(e)));
            },
            Poll::Ready(Ok(())) => true,
            Poll::Pending => false,
        };
        let r2 = self.wr2.poll_ready();
        let ghost r2_g = r2;
        assert(Wr2::ready_post(old(self).second(), self.second(), r2_g));
        match r2 {
            Poll::Ready(Err(e)) => {
                let r: Poll<Result<(), FanoutError<Wr1::Error, Wr2::Error>>> = Poll::Ready(
                    Err(FanoutError::Second(e)),
                );
                assert(both_ready(r1_g, r2_g, r));
                assert(!(r1_g is Ready && r1_g->Ready_0 is Err));
                assert(Wr1::ready_post(old(self).first(), self.first(), r1_g));
                assert(Wr2::ready_post(old(self).second(), self.second(), r2_g));
                assert(self.held() == old(self).held());
                assert(Self::ready_post(*old(self), *self, r));
                r
            },
            Poll::Ready(Ok(())) => if ready1 {
                Poll::Ready(Ok(()))
            } else {
                Poll::Pending
            },
            Poll::Pending => Poll::Pending,
        }
    }

    fn start_send(&mut self, part: Part) -> (r: Result<(Wr1::Ret, Wr2::Ret), FanoutError<Wr1::Error, Wr2::Error>>) {
        let copy = part.clone();
        assert(cloned(part, copy));
        let r1 = self.wr1.start_send(copy);
        let ghost r1_g = r1;
        assert(Wr1::send_post(old(self).first(), copy, self.first(), r1_g));
        let x = match r1 {
            Err(e) => {
                return Err(FanoutError::First(e));
            },
            Ok(x) => x,
        };
        let r2 = self.wr2.start_send(part);
        let ghost r2_g = r2;
        assert(Wr2::send_post(old(self).second(), part, self.second(), r2_g));
        match r2 {
            Ok(y) => Ok((x, y)),
            Err(e) => Err(FanoutError::Second(e)),
        }
    }

    fn poll_flush(&mut self) -> (r: Poll<Result<(), FanoutError<Wr1::Error, Wr2::Error>>>) {
        let r1 = self.wr1.poll_flush();
        let ghost r1_g = r1;
        assert(Wr1::flush_post(old(self).first(), self.first(), r1_g));
        let ready1 = match r1 {
            Poll::Ready(Err(e)) => {
                return Poll::Ready(Err(FanoutError::First(e)));
            },
            Poll::Ready(Ok(())) => true,
            Poll::Pending => false,
        };
        let r2 = self.wr2.poll_flush();
        let ghost r2_g = r2;
        assert(Wr2::flush_post(old(self).second(), self.second(), r2_g));
        match r2 {
            Poll::Ready(Err(e)) => {
                let r: Poll<Result<(), FanoutError<Wr1::Error, Wr2::Error>>> = Poll::Ready(
                    Err(FanoutError::Second(e)),
                );
                assert(both_ready(r1_g, r2_g, r));
                assert(!(r1_g is Ready && r1_g->Ready_0 is Err));
                assert(Wr1::flush_post(old(self).first(), self.first(), r1_g));
                assert(Wr2::flush_post(old(self).second(), self.second(), r2_g));
                assert(self.held() == old(self).held());
                assert(Self::flush_post(*old(self), *self, r));
                r
            },
            Poll::Ready(Ok(())) => if ready1 {
                Poll::Ready(Ok(()))
            } else {
                Poll::Pending
            },
            Poll::Pending => Poll::Pending,
        }
    }

    fn poll_complete(&mut self) -> (r: Poll<Result<(Wr1::Output, Wr2::Output), FanoutError<Wr1::Error, Wr2::Error>>>) {
        if self.wro1.is_none() {
            let r1 = self.wr1.poll_complete();
            let ghost r1_g = r1;
            assert(Wr1::complete_post(old(self).first(), self.first(), r1_g));
            match r1 {
                Poll::Pending => {
                    return Poll::Pending;
                },
                Poll::Ready(Err(e)) => {
                    return Poll::Ready(Err(FanoutError::First(e)));
                },
                Poll::Ready(Ok(o1)) => {
                    self.wro1 = Some(o1);
                },
            }
        }
        let r2 = self.wr2.poll_complete();
        let ghost r2_g = r2;
        assert(Wr2::complete_post(old(self).second(), self.second(), r2_g));
        match r2 {
            Poll::Pending => Poll::Pending,
            Poll::Ready(Err(e)) => Poll::Ready(Err(FanoutError::Second(e))),
            Poll::Ready(Ok(o2)) => match self.wro1.take() {
                Some(o1) => Poll::Ready(Ok((o1, o2))),
                None => Poll::Pending,
            },
        }
    }
}

impl<Wr1: FusedMultipartWrite<Part>, Wr2: FusedMultipartWrite<Part>, Part: Clone> FusedMultipartWrite<
    Part,
> for Fanout<Wr1, Wr2, Part> {
    open spec fn terminated(&self) -> bool {
        self.first().terminated() || self.second().terminated()
    }

    fn is_terminated(&self) -> (r: bool) {
        self.wr1.is_terminated() || self.wr2.is_terminated()
    }
}

} // verus!
