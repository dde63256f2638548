//! Writers over sinks of bytes.
use crate::write::buffered::is_suffix_of;
use crate::{MultipartWrite, Poll};
use vstd::prelude::*;
use vstd::slice::slice_subrange;

verus! {

/// A sink of bytes, in the manner of `std::io::Write`.
pub trait ByteSink: Sized {
    /// What a failed operation returns.
    type Error;

    /// How `write` of `buf` relates the sink before, the sink after and its
    /// result.
    spec fn write_post(pre: Self, buf: Seq<u8>, post: Self, r: Result<usize, Self::Error>) -> bool;

    /// How `flush` relates the sink before, the sink after and its result.
    spec fn flush_post(pre: Self, post: Self, r: Result<(), Self::Error>) -> bool;

    /// Writes some prefix of `buf`, returning how many bytes were written.
    fn write(&mut self, buf: &[u8]) -> (r: Result<usize, Self::Error>)
        ensures
            Self::write_post(*old(self), buf@, *final(self), r),
    ;

    /// Flushes what the sink holds internally.
    fn flush(&mut self) -> (r: Result<(), Self::Error>)
        ensures
            Self::flush_post(*old(self), *final(self), r),
    ;
}

/// Bytes written to a `Vec` are appended to it; writing never fails.
impl ByteSink for Vec<u8> {
    type Error = std::convert::Infallible;

    open spec fn write_post(
        pre: Self,
        buf: Seq<u8>,
        post: Self,
        r: Result<usize, std::convert::Infallible>,
    ) -> bool {
        post@ == pre@ + buf && r == Ok::<usize, std::convert::Infallible>(buf.len() as usize)
    }

    open spec fn flush_post(pre: Self, post: Self, r: Result<(), std::convert::Infallible>) -> bool {
        post == pre && r is Ok
    }

    fn write(&mut self, buf: &[u8]) -> (r: Result<usize, std::convert::Infallible>)
        ensures
            final(self)@ == old(self)@ + buf@,
            r == Ok::<usize, std::convert::Infallible>(buf@.len() as usize),
    {
        let mut i: usize = 0;
        while i < buf.len()
            invariant
                0 <= i <= buf@.len(),
                self@ == old(self)@ + buf@.subrange(0, i as int),
            decreases buf@.len() - i,
        {
            self.push(buf[i]);
            i = i + 1;
            assert(self@ =~= old(self)@ + buf@.subrange(0, i as int));
        }
        assert(buf@.subrange(0, i as int) =~= buf@);
        Ok(buf.len())
    }

    fn flush(&mut self) -> (r: Result<(), std::convert::Infallible>)
        ensures
            *final(self) == *old(self),
    {
        Ok(())
    }
}

/// Returns a writer that writes each part to `write`; completing it hands
/// `write` out and starts the next session with a default sink.
pub fn io_writer<W: ByteSink + Default>(write: W) -> (r: MultiIoWriter<W>)
    ensures
        r.sink() == write,
{
    MultiIoWriter::new(write)
}

/// `MultipartWrite` over a [`ByteSink`]: each part is written to the sink,
/// and a send acknowledges with the number of bytes written.
pub struct MultiIoWriter<W> {
    inner: W,
}

impl<W> MultiIoWriter<W> {
    /// The sink written to in the open session.
    pub closed spec fn sink(self) -> W {
        self.inner
    }

    /// Creates the writer over `inner`.
    pub fn new(inner: W) -> (r: Self)
        ensures
            r.sink() == inner,
    {
        MultiIoWriter { inner }
    }
}

impl<'a, W: ByteSink + Default> MultipartWrite<&'a [u8]> for MultiIoWriter<W> {
    type Ret = usize;
    type Output = W;
    type Error = W::Error;

    open spec fn inv(self) -> bool {
        true
    }

    open spec fn ready_post(pre: Self, post: Self, r: Poll<Result<(), W::Error>>) -> bool {
        post == pre && r is Ready && r->Ready_0 is Ok
    }

    open spec fn send_post(pre: Self, part: &'a [u8], post: Self, r: Result<usize, W::Error>) -> bool {
        W::write_post(pre.sink(), part@, post.sink(), r)
    }

    open spec fn flush_post(pre: Self, post: Self, r: Poll<Result<(), W::Error>>) -> bool {
        r is Ready && W::flush_post(pre.sink(), post.sink(), r->Ready_0)
    }

    open spec fn complete_post(pre: Self, post: Self, r: Poll<Result<W, W::Error>>) -> bool {
        &&& r == Poll::<Result<W, W::Error>>::Ready(Ok(pre.sink()))
        &&& call_ensures(W::default, (), post.sink())
    }

    fn poll_ready(&mut self) -> (r: Poll<Result<(), W::Error>>) {
        Poll::Ready(Ok(()))
    }

    fn start_send(&mut self, part: &'a [u8]) -> (r: Result<usize, W::Error>) {
        self.inner.write(part)
    }

    fn poll_flush(&mut self) -> (r: Poll<Result<(), W::Error>>) {
        let fr = self.inner.flush();
        let r = Poll::Ready(fr);
        assert(r->Ready_0 == fr);
        r
    }

    fn poll_complete(&mut self) -> (r: Poll<Result<W, W::Error>>) {
        let mut out = W::default();
        std::mem::swap(&mut out, &mut self.inner);
        Poll::Ready(Ok(out))
    }
}

/// A sink of bytes whose operations may not be able to finish yet, in the
/// manner of an asynchronous writer.
pub trait PollByteSink {
    /// What a failed operation returns.
    type Error;

    /// Attempts to write some prefix of `buf`, returning how many bytes were
    /// written.
    fn poll_write(&mut self, buf: &[u8]) -> Poll<Result<usize, Self::Error>>;

    /// Attempts to flush what the sink holds internally.
    fn poll_flush(&mut self) -> Poll<Result<(), Self::Error>>;
}

/// Why a [`MultiAsyncWriter`] failed.
#[derive(Debug, PartialEq, Eq)]
pub enum AsyncWriteError<E> {
    /// The sink accepted none of the buffered bytes.
    WriteZero,
    /// The sink failed.
    Sink(E),
}

/// Returns a writer that buffers the bytes of each part and writes them to
/// `write` when it is next prepared.
pub fn async_write<W: PollByteSink + Default>(write: W) -> (r: MultiAsyncWriter<W>)
    ensures
        r.sink() == write,
        r.pending() == Seq::<u8>::empty(),
{
    MultiAsyncWriter::new(write)
}

/// `MultipartWrite` over a [`PollByteSink`].
///
/// A send appends the part's bytes to a buffer and acknowledges with their
/// number. Preparing the writer writes the buffer out; it is ready once the
/// buffer is empty. Completing it hands the sink out.
pub struct MultiAsyncWriter<W> {
    inner: W,
    buf: Vec<u8>,
    written: usize,
}

/// The buffer's capacity when a writer is created.
pub const DEFAULT_BUF_SIZE: usize = 8192;

impl<W> MultiAsyncWriter<W> {
    /// The sink written to in the open session.
    pub closed spec fn sink(self) -> W {
        self.inner
    }

    /// The buffered bytes not yet written to the sink.
    pub closed spec fn pending(self) -> Seq<u8> {
        self.buf@.subrange(self.written as int, self.buf@.len() as int)
    }

    /// The count of written bytes never exceeds the buffer.
    pub closed spec fn wf(self) -> bool {
        self.written <= self.buf@.len()
    }

    /// Creates the writer over `inner` with an empty buffer.
    pub fn new(inner: W) -> (r: Self)
        ensures
            r.sink() == inner,
            r.pending() == Seq::<u8>::empty(),
            r.wf(),
    {
        MultiAsyncWriter { inner, buf: Vec::with_capacity(DEFAULT_BUF_SIZE), written: 0 }
    }
}

impl<W: PollByteSink> MultiAsyncWriter<W> {
    /// Writes the buffer to the sink until it is empty. A write that reports
    /// zero bytes fails with `WriteZero`; a count larger than what was
    /// offered is taken as all of it. Bytes written are dropped from the
    /// buffer, except while the sink is pending, when the count is kept so
    /// that the next call resumes where this one stopped.
    fn flush_buf(&mut self) -> (r: Poll<Result<(), AsyncWriteError<W::Error>>>)
        requires
            old(self).wf(),
        ensures
            final(self).wf(),
            is_suffix_of(final(self).pending(), old(self).pending()),
            r is Ready && r->Ready_0 is Ok ==> final(self).pending().len() == 0,
    {
        let len = self.buf.len();
        let mut ret: Result<(), AsyncWriteError<W::Error>> = Ok(());
        let ghost start = self.pending();
        assert(start =~= start.subrange(0, start.len() as int));
        while self.written < len
            invariant_except_break
                ret is Ok,
            invariant
                self.wf(),
                len == self.buf@.len(),
                is_suffix_of(self.pending(), start),
                start == old(self).pending(),
            ensures
                self.wf(),
                len == self.buf@.len(),
                is_suffix_of(self.pending(), start),
                ret is Ok ==> self.written == len,
            decreases len - self.written,
        {
            let rest = slice_subrange(self.buf.as_slice(), self.written, len);
            match self.inner.poll_write(rest) {
                Poll::Pending => {
                    return Poll::Pending;
                },
                Poll::Ready(Ok(n)) => {
                    if n == 0 {
                        ret = Err(AsyncWriteError::WriteZero);
                        break;
                    }
                    let ghost before = self.pending();
                    if n > len - self.written {
                        self.written = len;
                    } else {
                        self.written = self.written + n;
                    }
                    assert(self.pending() =~= before.subrange(
                        before.len() - self.pending().len(),
                        before.len() as int,
                    ));
                    assert(self.pending() =~= start.subrange(
                        start.len() - self.pending().len(),
                        start.len() as int,
                    ));
                },
                Poll::Ready(Err(e)) => {
                    ret = Err(AsyncWriteError::Sink(e));
                    break;
                },
            }
        }
        let ghost kept = self.pending();
        if self.written > 0 {
            let tail = self.buf.split_off(self.written);
            self.buf = tail;
        }
        self.written = 0;
        assert(self.pending() =~= kept);
        Poll::Ready(ret)
    }
}

impl<'a, W: PollByteSink + Default> MultipartWrite<&'a [u8]> for MultiAsyncWriter<W> {
    type Ret = usize;
    type Output = W;
    type Error = AsyncWriteError<W::Error>;

    open spec fn inv(self) -> bool {
        self.wf()
    }

    open spec fn ready_post(pre: Self, post: Self, r: Poll<Result<(), AsyncWriteError<W::Error>>>) -> bool {
        &&& is_suffix_of(post.pending(), pre.pending())
        &&& r is Ready && r->Ready_0 is Ok ==> post.pending().len() == 0
    }

    open spec fn send_post(
        pre: Self,
        part: &'a [u8],
        post: Self,
        r: Result<usize, AsyncWriteError<W::Error>>,
    ) -> bool {
        &&& post.sink() == pre.sink()
        &&& post.pending() == pre.pending() + part@
        &&& r == Ok::<usize, AsyncWriteError<W::Error>>(part@.len() as usize)
    }

    open spec fn flush_post(pre: Self, post: Self, r: Poll<Result<(), AsyncWriteError<W::Error>>>) -> bool {
        post.pending() == pre.pending()
    }

    open spec fn complete_post(pre: Self, post: Self, r: Poll<Result<W, AsyncWriteError<W::Error>>>) -> bool {
        &&& r == Poll::<Result<W, AsyncWriteError<W::Error>>>::Ready(Ok(pre.sink()))
        &&& post.pending() == pre.pending()
    }

    fn poll_ready(&mut self) -> (r: Poll<Result<(), AsyncWriteError<W::Error>>>) {
        self.flush_buf()
    }

    fn start_send(&mut self, part: &'a [u8]) -> (r: Result<usize, AsyncWriteError<W::Error>>) {
        let ghost before = self.pending();
        let len = part.len();
        let _ = ByteSink::write(&mut self.buf, part);
        assert(self.pending() =~= before + part@);
        Ok(len)
    }

    fn poll_flush(&mut self) -> (r: Poll<Result<(), AsyncWriteError<W::Error>>>) {
        match self.inner.poll_flush() {
            Poll::Pending => Poll::Pending,
            Poll::Ready(Ok(())) => Poll::Ready(Ok(())),
            Poll::Ready(Err(e)) => Poll::Ready(Err(AsyncWriteError::Sink(e))),
        }
    }

    fn poll_complete(&mut self) -> (r: Poll<Result<W, AsyncWriteError<W::Error>>>) {
        let mut out = W::default();
        std::mem::swap(&mut out, &mut self.inner);
        Poll::Ready(Ok(out))
    }
}

} // verus!
