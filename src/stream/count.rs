//! A [`Stream`] of increasing integers.
use crate::stream::Stream;
use crate::Poll;
use vstd::prelude::*;

verus! {

/// Returns a stream that yields `start`, `start + 1`, ... up to `usize::MAX`
/// and then ends.
pub fn count_from(start: usize) -> (r: Count)
    ensures
        r.next_value() == Some(start),
        r.yielded() == Seq::<usize>::empty(),
{
    Count { next: Some(start), taken: Ghost(Seq::empty()) }
}

/// Stream for [`count_from`].
pub struct Count {
    next: Option<usize>,
    taken: Ghost<Seq<usize>>,
}

impl Count {
    /// The value yielded next, or `None` once the stream has ended.
    pub closed spec fn next_value(self) -> Option<usize> {
        self.next
    }
}

impl Stream for Count {
    type Item = usize;

    closed spec fn yielded(self) -> Seq<usize> {
        self.taken@
    }

    /// Yields the next value and moves one up; past `usize::MAX` it ends.
    /// The source is never pending.
    open spec fn next_post(pre: Self, post: Self, r: Poll<Option<usize>>) -> bool {
        match pre.next_value() {
            Some(n) => r == Poll::Ready(Some(n)) && post.next_value() == if n < usize::MAX {
                Some((n + 1) as usize)
            } else {
                None
            },
            None => r == Poll::Ready(None::<usize>) && post.next_value() == None::<usize>,
        }
    }

    /// Nothing else is fixed.
    open spec fn continues(pre: Self, post: Self) -> bool {
        true
    }

    proof fn lemma_continues_refl(s: Self) {
    }

    proof fn lemma_continues_trans(a: Self, b: Self, c: Self) {
    }

    fn poll_next(&mut self) -> (r: Poll<Option<usize>>) {
        match self.next {
            Some(n) => {
                self.next = if n < usize::MAX {
                    Some(n + 1)
                } else {
                    None
                };
                proof {
                    self.taken@ = self.taken@.push(n);
                }
                Poll::Ready(Some(n))
            },
            None => Poll::Ready(None),
        }
    }
}

} // verus!
