use multipart_write::stream::{count_from, iter, Assembled, MultipartStreamExt, Stream};
use multipart_write::write::{extend, Extend, FanoutError, MultipartWriteExt};
use multipart_write::{FusedMultipartWrite, MultipartWrite, Poll};

fn drain<St, Wr, F>(s: &mut Assembled<St, Wr, F>) -> Vec<Result<Wr::Output, Wr::Error>>
where
    St: Stream,
    Wr: FusedMultipartWrite<St::Item>,
    F: Fn(&Wr::Ret) -> bool,
{
    let mut out = Vec::new();
    loop {
        match s.poll_next() {
            Poll::Ready(Some(item)) => out.push(item),
            Poll::Ready(None) => return out,
            Poll::Pending => {}
        }
    }
}

fn ready<T>(p: Poll<T>) -> T {
    match p {
        Poll::Ready(t) => t,
        Poll::Pending => panic!("the writer here is never pending"),
    }
}

fn oks<T, E: std::fmt::Debug>(v: Vec<Result<T, E>>) -> Vec<T> {
    v.into_iter().map(|r| r.unwrap()).collect()
}

fn send(w: &mut Extend<usize>, part: usize) -> usize {
    ready(w.send_part(part).poll()).unwrap()
}

#[test]
fn trait_futures() {
    let mut writer = extend(Vec::new());
    send(&mut writer, 1);
    send(&mut writer, 2);
    send(&mut writer, 3);
    ready(writer.flush().poll::<usize>()).unwrap();
    let out1 = ready(writer.complete().poll::<usize>()).unwrap();

    send(&mut writer, 10);
    send(&mut writer, 20);
    ready(writer.flush().poll::<usize>()).unwrap();
    let out2 = ready(writer.complete().poll::<usize>()).unwrap();

    assert_eq!(out1, vec![1, 2, 3]);
    assert_eq!(out2, vec![10, 20]);
}

#[test]
fn feed_sends_without_flushing() {
    let mut writer = extend(Vec::new());
    let mut fut = writer.feed(3);
    assert!(fut.is_part_pending());
    assert_eq!(ready(fut.poll()).unwrap(), 1);
    assert!(!fut.is_part_pending());
    assert_eq!(ready(writer.complete().poll::<usize>()).unwrap(), vec![3]);
}

#[test]
fn writer_map() {
    let mut writer = extend(Vec::new()).map_ok(|ns: Vec<usize>| ns.iter().sum::<usize>());
    for n in 1..=5_usize {
        ready(writer.poll_ready()).unwrap();
        writer.start_send(n).unwrap();
    }
    ready(writer.poll_flush()).unwrap();
    let out = ready(writer.poll_complete()).unwrap();
    assert_eq!(out, 15);
}

#[test]
fn assembled_stream() {
    let writer = extend(Vec::new());
    let mut s = iter((1..=12).collect::<Vec<usize>>()).assembled(writer, |ret: &usize| ret % 5 == 0);
    let mut outputs = oks(drain(&mut s));
    assert_eq!(outputs.len(), 3);

    let out3 = outputs.pop().unwrap();
    let out2 = outputs.pop().unwrap();
    let out1 = outputs.pop().unwrap();
    assert_eq!(out1, vec![1, 2, 3, 4, 5]);
    assert_eq!(out2, vec![6, 7, 8, 9, 10]);
    assert_eq!(out3, vec![11, 12]);
    assert!(s.is_terminated());
}

#[test]
fn assemble_future() {
    let writer = extend(Vec::new());
    let mut fut = iter(vec![1, 2, 3, 4, 5]).assemble(writer);
    let out = loop {
        if let Poll::Ready(r) = fut.poll() {
            break r.unwrap();
        }
    };
    assert_eq!(out, vec![1, 2, 3, 4, 5]);
    assert!(fut.is_terminated());
}

#[test]
fn assemble_future_with_fold_ret() {
    let writer = extend(Vec::new()).fold_ret(String::new(), |mut acc: String, n: &usize| {
        acc += &n.to_string();
        acc
    });
    let mut fut = iter(vec![1, 2, 3, 4, 5]).assemble(writer);
    let (acc, out) = loop {
        if let Poll::Ready(r) = fut.poll() {
            break r.unwrap();
        }
    };
    assert_eq!(acc, "12345".to_string());
    assert_eq!(out, vec![1, 2, 3, 4, 5]);
}

#[test]
fn fold_ret_restarts_each_session() {
    let mut writer = extend(Vec::new()).fold_ret(0_usize, |acc: usize, n: &usize| acc + n);
    writer.start_send(7).unwrap();
    writer.start_send(8).unwrap();
    assert_eq!(ready(writer.poll_complete()).unwrap(), (1 + 2, vec![7, 8]));
    writer.start_send(9).unwrap();
    assert_eq!(ready(writer.poll_complete()).unwrap(), (1, vec![9]));
}

#[test]
fn buffered_queues_and_drains_in_order() {
    let mut writer = extend(Vec::new()).buffered(2);
    ready(writer.poll_ready()).unwrap();
    writer.start_send(1).unwrap();
    writer.start_send(2).unwrap();
    ready(writer.poll_flush()).unwrap();
    ready(writer.poll_flush()).unwrap();
    writer.start_send(3).unwrap();
    assert_eq!(ready(writer.poll_complete()).unwrap(), vec![1, 2, 3]);
}

#[test]
fn buffered_without_capacity_writes_through() {
    let mut writer = extend(Vec::new()).buffered(0);
    ready(writer.poll_ready()).unwrap();
    writer.start_send(4).unwrap();
    assert_eq!(ready(writer.get_mut().poll_complete()).unwrap(), vec![4]);
}

#[test]
fn skip_last_complete_if_empty() {
    let writer = extend(Vec::new());
    let mut s = iter((1..=10).collect::<Vec<usize>>()).assembled(writer, |ret: &usize| ret % 5 == 0);
    let outputs = oks(drain(&mut s));
    assert_eq!(outputs.len(), 2);
    assert_eq!(outputs, vec![vec![1, 2, 3, 4, 5], vec![6, 7, 8, 9, 10]]);
}

#[test]
fn stream_ends_on_fused_writer() {
    let writer = extend(Vec::new()).fuse(|out: &Vec<usize>| out.contains(&8));
    let mut s = count_from(1).assembled(writer, |ret: &Option<usize>| {
        matches!(ret, Some(n) if n % 2 == 0)
    });
    let mut outputs = oks(drain(&mut s));
    assert_eq!(outputs.pop(), Some(Some(vec![7, 8])));
    assert_eq!(outputs.pop(), Some(Some(vec![5, 6])));
    assert_eq!(outputs.pop(), Some(Some(vec![3, 4])));
    assert_eq!(outputs.pop(), Some(Some(vec![1, 2])));
    assert!(outputs.pop().is_none());
    assert!(matches!(s.poll_next(), Poll::Ready(None)));
}

#[test]
fn policy_never_fires_gives_one_output() {
    let writer = extend(Vec::new());
    let mut s = iter((1..=10).collect::<Vec<usize>>()).assembled(writer, |_: &usize| false);
    let outputs = oks(drain(&mut s));
    assert_eq!(outputs, vec![(1..=10).collect::<Vec<usize>>()]);
}

#[test]
fn empty_source_gives_no_output() {
    let writer = extend(Vec::<usize>::new());
    let mut s = iter(Vec::new()).assembled(writer, |ret: &usize| ret % 2 == 0);
    assert!(drain(&mut s).is_empty());
    assert!(s.is_terminated());
}

#[test]
fn empty_source_assembles_one_empty_output() {
    let mut fut = iter(Vec::<usize>::new()).assemble(extend(Vec::new()));
    let out = loop {
        if let Poll::Ready(r) = fut.poll() {
            break r.unwrap();
        }
    };
    assert!(out.is_empty());
}

#[test]
fn every_k_sends_gives_n_over_k_outputs() {
    for k in 1..=4_usize {
        let n = 12;
        let mut s = iter((1..=n).collect::<Vec<usize>>())
            .assembled(extend(Vec::new()), move |ret: &usize| ret % k == 0);
        let outputs = oks(drain(&mut s));
        assert_eq!(outputs.len(), n / k);
        let joined: Vec<usize> = outputs.into_iter().flatten().collect();
        assert_eq!(joined, (1..=n).collect::<Vec<usize>>());
    }
}

#[test]
fn flush_is_idempotent() {
    let mut writer = extend(Vec::new());
    send(&mut writer, 7);
    ready(writer.poll_flush()).unwrap();
    ready(writer.poll_flush()).unwrap();
    ready(writer.poll_flush()).unwrap();
    assert_eq!(ready(writer.poll_complete()).unwrap(), vec![7]);
}

#[test]
fn extend_acknowledges_session_length() {
    let mut writer = extend(vec![9]);
    assert_eq!(writer.start_send(1).unwrap(), 2);
    assert_eq!(writer.start_send(2).unwrap(), 3);
    assert_eq!(ready(writer.poll_complete()).unwrap(), vec![9, 1, 2]);
    assert_eq!(writer.start_send(3).unwrap(), 1);
    assert!(!writer.is_terminated());
}

#[test]
fn filter_drops_parts() {
    let mut writer = extend(Vec::new()).filter(|p: &usize| p % 2 == 1);
    assert_eq!(writer.start_send(1).unwrap(), Some(1));
    assert_eq!(writer.start_send(2).unwrap(), None);
    assert_eq!(writer.start_send(3).unwrap(), Some(2));
    assert_eq!(ready(writer.poll_complete()).unwrap(), vec![1, 3]);
}

#[test]
fn filter_map_maps_and_drops() {
    let mut writer = extend(Vec::new()).filter_map(|s: &str| s.parse::<usize>().ok());
    assert_eq!(writer.start_send("4").unwrap(), Some(1));
    assert_eq!(writer.start_send("x").unwrap(), None);
    assert_eq!(writer.start_send("6").unwrap(), Some(2));
    assert_eq!(ready(writer.poll_complete()).unwrap(), vec![4, 6]);
}

#[test]
fn map_part_and_map_ret() {
    let mut writer = extend(Vec::new())
        .map_part(|s: String| s.len())
        .map_ret(|n: usize| n * 10);
    assert_eq!(writer.start_send("abc".to_string()).unwrap(), 10);
    assert_eq!(writer.start_send("d".to_string()).unwrap(), 20);
    assert_eq!(ready(writer.poll_complete()).unwrap(), vec![3, 1]);
}

#[test]
fn map_err_is_not_called_without_error() {
    let mut writer = extend(Vec::new()).map_err(|_e: std::convert::Infallible| "failed".to_string());
    assert_eq!(writer.start_send(5).unwrap(), 1);
    assert_eq!(ready(writer.poll_complete()).unwrap(), vec![5]);
}

#[test]
fn fanout_writes_to_both() {
    let mut writer = extend(Vec::new()).fanout(extend(vec![0]));
    ready(writer.poll_ready()).unwrap();
    assert_eq!(writer.start_send(4).unwrap(), (1, 2));
    ready(writer.poll_flush()).unwrap();
    assert_eq!(ready(writer.poll_complete()).unwrap(), (vec![4], vec![0, 4]));
}

#[test]
fn fuse_stops_after_predicate() {
    let mut writer = extend(Vec::new()).fuse(|out: &Vec<usize>| out.len() >= 2);
    writer.start_send(1).unwrap();
    assert_eq!(ready(writer.poll_complete()).unwrap(), Some(vec![1]));
    assert!(!writer.is_terminated());
    writer.start_send(2).unwrap();
    writer.start_send(3).unwrap();
    assert_eq!(ready(writer.poll_complete()).unwrap(), Some(vec![2, 3]));
    assert!(writer.is_terminated());
    assert_eq!(writer.start_send(4).unwrap(), None);
    assert_eq!(ready(writer.poll_complete()).unwrap(), None);
    assert_eq!(writer.into_inner().start_send(5).unwrap(), 1);
}

#[test]
fn io_writer_writes_bytes_and_hands_out_the_sink() {
    let mut writer = multipart_write::io::io_writer(Vec::<u8>::new());
    ready(writer.poll_ready()).unwrap();
    assert_eq!(writer.start_send(&b"ab"[..]).unwrap(), 2);
    assert_eq!(writer.start_send(&b"c"[..]).unwrap(), 1);
    ready(MultipartWrite::<&[u8]>::poll_flush(&mut writer)).unwrap();
    let out = ready(MultipartWrite::<&[u8]>::poll_complete(&mut writer)).unwrap();
    assert_eq!(out, b"abc".to_vec());
    let next = ready(MultipartWrite::<&[u8]>::poll_complete(&mut writer)).unwrap();
    assert!(next.is_empty());
}

#[test]
fn lift_writer() {
    let sums = extend(Vec::new()).map_ok(|parts: Vec<Vec<usize>>| {
        parts
            .iter()
            .map(|p| p.iter().sum::<usize>().to_string())
            .collect::<Vec<String>>()
            .join(",")
    });
    let mut writer = sums.lift(extend(Vec::new()));
    for n in 1..=5_usize {
        ready(writer.poll_ready()).unwrap();
        writer.start_send(n).unwrap();
    }
    let out = ready(writer.poll_complete()).unwrap();
    assert_eq!(&out, "15");
}

/// A byte sink that accepts at most two bytes per write and is pending
/// every other call.
#[derive(Default)]
struct Trickle {
    data: Vec<u8>,
    stall: bool,
    zero: bool,
}

impl multipart_write::io::PollByteSink for Trickle {
    type Error = String;

    fn poll_write(&mut self, buf: &[u8]) -> Poll<Result<usize, String>> {
        self.stall = !self.stall;
        if self.stall {
            return Poll::Pending;
        }
        if self.zero {
            return Poll::Ready(Ok(0));
        }
        let n = buf.len().min(2);
        self.data.extend_from_slice(&buf[..n]);
        Poll::Ready(Ok(n))
    }

    fn poll_flush(&mut self) -> Poll<Result<(), String>> {
        Poll::Ready(Ok(()))
    }
}

#[test]
fn async_write_buffers_until_prepared() {
    let mut writer = multipart_write::io::async_write(Trickle::default());
    assert_eq!(writer.start_send(&b"hello"[..]).unwrap(), 5);
    assert_eq!(writer.start_send(&b"!"[..]).unwrap(), 1);
    let mut polls = 0;
    loop {
        polls += 1;
        if let Poll::Ready(r) = MultipartWrite::<&[u8]>::poll_ready(&mut writer) {
            r.unwrap();
            break;
        }
    }
    assert!(polls > 1);
    let sink = ready(MultipartWrite::<&[u8]>::poll_complete(&mut writer)).unwrap();
    assert_eq!(sink.data, b"hello!".to_vec());
}

#[test]
fn async_write_reports_write_zero() {
    let sink = Trickle { zero: true, ..Trickle::default() };
    let mut writer = multipart_write::io::async_write(sink);
    writer.start_send(&b"x"[..]).unwrap();
    let err = loop {
        if let Poll::Ready(r) = MultipartWrite::<&[u8]>::poll_ready(&mut writer) {
            break r.unwrap_err();
        }
    };
    assert_eq!(err, multipart_write::io::AsyncWriteError::WriteZero);
}

/// A pollable byte sink that fails every write.
#[derive(Default)]
struct BrokenPoll;

impl multipart_write::io::PollByteSink for BrokenPoll {
    type Error = String;

    fn poll_write(&mut self, _buf: &[u8]) -> Poll<Result<usize, String>> {
        Poll::Ready(Err("down".to_string()))
    }

    fn poll_flush(&mut self) -> Poll<Result<(), String>> {
        Poll::Ready(Ok(()))
    }
}

fn broken() -> multipart_write::io::MultiAsyncWriter<BrokenPoll> {
    multipart_write::io::async_write(BrokenPoll)
}

#[test]
fn fanout_reports_which_writer_failed() {
    let mut first = broken().fanout(extend(Vec::<&[u8]>::new()));
    first.start_send(&b"a"[..]).unwrap();
    assert_eq!(
        ready(first.poll_ready()),
        Err(FanoutError::First(multipart_write::io::AsyncWriteError::Sink("down".to_string())))
    );

    let mut second = extend(Vec::<&[u8]>::new()).fanout(broken());
    second.start_send(&b"a"[..]).unwrap();
    assert_eq!(
        ready(second.poll_ready()),
        Err(FanoutError::Second(multipart_write::io::AsyncWriteError::Sink("down".to_string())))
    );
}

#[test]
fn map_err_maps_a_failure() {
    let mut writer = broken().map_err(|e: multipart_write::io::AsyncWriteError<String>| match e {
        multipart_write::io::AsyncWriteError::Sink(m) => m.len(),
        multipart_write::io::AsyncWriteError::WriteZero => 0,
    });
    writer.start_send(&b"a"[..]).unwrap();
    assert_eq!(ready(writer.poll_ready()), Err(4));
}

#[test]
fn engine_yields_a_writer_failure_as_an_item() {
    let writer = broken().fuse(|_: &BrokenPoll| false);
    let parts: Vec<&[u8]> = vec![&b"a"[..], &b"b"[..]];
    let mut s = iter(parts).assembled(writer, |_: &Option<usize>| false);
    let mut items = Vec::new();
    while items.len() < 2 {
        if let Poll::Ready(item) = s.poll_next() {
            items.push(item);
        }
    }
    for item in items {
        assert!(matches!(
            item,
            Some(Err(multipart_write::io::AsyncWriteError::Sink(ref m))) if m == "down"
        ));
    }
}

#[test]
fn async_write_reports_sink_failure() {
    let mut writer = multipart_write::io::async_write(BrokenPoll);
    writer.start_send(&b"x"[..]).unwrap();
    let r = ready(MultipartWrite::<&[u8]>::poll_ready(&mut writer));
    assert_eq!(r, Err(multipart_write::io::AsyncWriteError::Sink("down".to_string())));
}

fn string_errors(
) -> multipart_write::write::MapErr<Extend<usize>, fn(std::convert::Infallible) -> String> {
    fn never(e: std::convert::Infallible) -> String {
        match e {}
    }
    extend(Vec::new()).map_err(never as fn(std::convert::Infallible) -> String)
}

#[test]
fn collect_completed_resolves_to_one_output() {
    let source: Vec<Result<usize, String>> = vec![Ok(1), Ok(2), Ok(3)];
    let mut fut = iter(source).collect_completed(string_errors());
    let out = loop {
        if let Poll::Ready(r) = fut.poll() {
            break r;
        }
    };
    assert_eq!(out, Ok(vec![1, 2, 3]));
    assert!(fut.is_terminated());
}

#[test]
fn collect_completed_surfaces_a_source_failure() {
    let source: Vec<Result<usize, String>> = vec![Ok(1), Err("bad".to_string()), Ok(3)];
    let mut fut = iter(source).collect_completed(string_errors());
    let out = loop {
        if let Poll::Ready(r) = fut.poll() {
            break r;
        }
    };
    assert_eq!(out, Err("bad".to_string()));
    assert!(fut.is_terminated());
}

#[test]
fn count_from_yields_increasing_values() {
    let mut source = count_from(usize::MAX - 1);
    assert_eq!(ready(source.poll_next()), Some(usize::MAX - 1));
    assert_eq!(ready(source.poll_next()), Some(usize::MAX));
    assert_eq!(ready(source.poll_next()), None);
}

#[test]
fn stream_ends_after_trailing_output() {
    let writer = extend(Vec::new());
    let mut s = iter((1..=12).collect::<Vec<usize>>()).assembled(writer, |ret: &usize| ret % 5 == 0);
    let mut outputs = Vec::new();
    loop {
        match s.poll_next() {
            Poll::Ready(Some(item)) => outputs.push(item.unwrap()),
            Poll::Ready(None) => break,
            Poll::Pending => {}
        }
    }
    assert_eq!(outputs.last(), Some(&vec![11, 12]));
    assert!(matches!(s.poll_next(), Poll::Ready(None)));
    assert!(matches!(s.poll_next(), Poll::Ready(None)));
}
