//! A [`Stream`] over the items of a `Vec`.
use crate::stream::Stream;
use crate::Poll;
use vstd::prelude::*;

verus! {

/// Returns a stream that yields the items of `items` in order and then ends.
pub fn iter<T>(items: Vec<T>) -> (r: Iter<T>)
    ensures
        r.remaining() == items@,
        r.yielded() == Seq::<T>::empty(),
        r.items() == items@,
{
    let mut items = items;
    let mut rev: Vec<T> = Vec::new();
    let ghost orig = items@;
    while items.len() > 0
        invariant
            orig == items@ + rev@.reverse(),
        decreases items.len(),
    {
        let ghost before = items@;
        match items.pop() {
            Some(it) => {
                rev.push(it);
                proof {
                    assert(rev@.reverse() =~= seq![it] + rev@.drop_last().reverse());
                    assert(before =~= items@.push(it));
                    assert(orig =~= items@ + rev@.reverse());
                }
            },
            None => {},
        }
    }
    assert(orig =~= rev@.reverse());
    let r = Iter { rev, taken: Ghost(Seq::empty()) };
    assert(r.items() =~= orig);
    r
}

/// Stream for [`iter`].
pub struct Iter<T> {
    rev: Vec<T>,
    taken: Ghost<Seq<T>>,
}

impl<T> Iter<T> {
    /// Every item of the stream, in order: those already yielded followed by
    /// those remaining.
    pub open spec fn items(self) -> Seq<T> {
        self.yielded() + self.remaining()
    }

    /// The items not yet yielded, in order.
    pub closed spec fn remaining(self) -> Seq<T> {
        self.rev@.reverse()
    }
}

impl<T> Stream for Iter<T> {
    type Item = T;

    closed spec fn yielded(self) -> Seq<T> {
        self.taken@
    }

    /// The next item is the first remaining one; the end comes once none
    /// remain; the source is never pending. The items are fixed.
    open spec fn next_post(pre: Self, post: Self, r: Poll<Option<T>>) -> bool {
        &&& post.items() == pre.items()
        &&& if pre.remaining().len() > 0 {
            r == Poll::Ready(Some(pre.remaining()[0])) && post.remaining()
                == pre.remaining().drop_first()
        } else {
            r == Poll::Ready(None::<T>) && post.remaining() == pre.remaining()
        }
    }

    /// The items stay the same.
    open spec fn continues(pre: Self, post: Self) -> bool {
        post.items() == pre.items()
    }

    proof fn lemma_continues_refl(s: Self) {
    }

    proof fn lemma_continues_trans(a: Self, b: Self, c: Self) {
    }

    fn poll_next(&mut self) -> (r: Poll<Option<T>>) {
        let r = self.rev.pop();
        proof {
            if old(self).rev@.len() > 0 {
                assert(old(self).rev@.reverse() =~= seq![old(self).rev@.last()] + self.rev@.reverse());
                assert(self.remaining() =~= old(self).remaining().drop_first());
            }
            if r is Some {
                self.taken@ = self.taken@.push(r->0);
                assert(self.items() =~= old(self).items());
            } else {
                assert(self.items() =~= old(self).items());
            }
        }
        Poll::Ready(r)
    }
}

} // verus!
