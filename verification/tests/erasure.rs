use std::task::{Context, Poll};

use erasure::{
    AnyFutureEx, AnySink, AnySinkEx, AnyStream, AnyStreamEx, AnyStreamSink, Erasure, ErasureRead,
    ErasureSink, ErasureStream, ErasureWrite, FutureAnswers, PollFuture, PollSink, PollStream,
    RawChannel, RawStreamSink, SinkAnswers, StreamAnswers, Tables,
};

/// Yields 1, 2, ..., up to `last`, then ends; answers `Pending` once before each item
/// when `stutter` is set.
struct Counter {
    next: u32,
    last: u32,
    stutter: bool,
    waited: bool,
}

impl Counter {
    fn new(last: u32) -> Self {
        Counter { next: 1, last, stutter: false, waited: false }
    }
}

impl StreamAnswers<u32> for Counter {}

impl PollStream<u32> for Counter {
    fn poll_next(&mut self, _cx: &mut Context<'_>) -> Poll<Option<u32>> {
        if self.stutter && !self.waited {
            self.waited = true;
            return Poll::Pending;
        }
        self.waited = false;
        if self.next > self.last {
            Poll::Ready(None)
        } else {
            let item = self.next;
            self.next += 1;
            Poll::Ready(Some(item))
        }
    }
}

impl ErasureStream<u32> for Counter {}

/// Collects what it is sent; refuses items once it holds `cap` of them, and counts
/// flushes and closes.
#[derive(Default)]
struct Collector {
    items: Vec<String>,
    cap: usize,
    flushes: u32,
    closed: bool,
}

impl SinkAnswers<String, String> for Collector {}

impl PollSink<String, String> for Collector {
    fn poll_ready(&mut self, _cx: &mut Context<'_>) -> Poll<Result<(), String>> {
        if self.closed {
            Poll::Ready(Err("closed".to_owned()))
        } else if self.items.len() < self.cap {
            Poll::Ready(Ok(()))
        } else {
            Poll::Pending
        }
    }

    fn start_send(&mut self, item: String) -> Result<(), String> {
        if self.items.len() < self.cap {
            self.items.push(item);
            Ok(())
        } else {
            Err(format!("full: {}", item))
        }
    }

    fn poll_flush(&mut self, _cx: &mut Context<'_>) -> Poll<Result<(), String>> {
        self.flushes += 1;
        Poll::Ready(Ok(()))
    }

    fn poll_close(&mut self, _cx: &mut Context<'_>) -> Poll<Result<(), String>> {
        self.closed = true;
        Poll::Ready(Ok(()))
    }
}

impl ErasureSink<String, String> for Collector {}

/// An echo: what is sent comes back out, in order.
#[derive(Default)]
struct Echo {
    queue: std::collections::VecDeque<String>,
}

impl StreamAnswers<String> for Echo {}

impl PollStream<String> for Echo {
    fn poll_next(&mut self, _cx: &mut Context<'_>) -> Poll<Option<String>> {
        match self.queue.pop_front() {
            Some(s) => Poll::Ready(Some(s)),
            None => Poll::Pending,
        }
    }
}

impl SinkAnswers<String, String> for Echo {}

impl PollSink<String, String> for Echo {
    fn poll_ready(&mut self, _cx: &mut Context<'_>) -> Poll<Result<(), String>> {
        Poll::Ready(Ok(()))
    }

    fn start_send(&mut self, item: String) -> Result<(), String> {
        self.queue.push_back(item);
        Ok(())
    }

    fn poll_flush(&mut self, _cx: &mut Context<'_>) -> Poll<Result<(), String>> {
        Poll::Ready(Ok(()))
    }

    fn poll_close(&mut self, _cx: &mut Context<'_>) -> Poll<Result<(), String>> {
        Poll::Ready(Err("echo never closes".to_owned()))
    }
}

/// Completes with `value` on the `after`-th poll.
struct Countdown {
    after: u32,
    value: i64,
}

impl FutureAnswers<i64> for Countdown {}

impl PollFuture<i64> for Countdown {
    fn poll(&mut self, _cx: &mut Context<'_>) -> Poll<i64> {
        if self.after <= 1 {
            Poll::Ready(self.value)
        } else {
            self.after -= 1;
            Poll::Pending
        }
    }
}

fn with_cx<R>(f: impl FnOnce(&mut Context<'_>) -> R) -> R {
    let waker = futures::task::noop_waker();
    let mut cx = Context::from_waker(&waker);
    f(&mut cx)
}

const READ_ONLY: Tables = Tables { stream: true, sink: false };
const WRITE_ONLY: Tables = Tables { stream: false, sink: true };
const READ_WRITE: Tables = Tables { stream: true, sink: true };

#[test]
fn erasure_read_yields_what_the_stream_yields() {
    let mut read = ErasureRead::new(Counter::new(3));
    assert_eq!(read.tables(), READ_ONLY);
    with_cx(|cx| {
        assert_eq!(read.poll_next(cx), Poll::Ready(Some(1)));
        assert_eq!(read.poll_next(cx), Poll::Ready(Some(2)));
        assert_eq!(read.poll_next(cx), Poll::Ready(Some(3)));
        assert_eq!(read.poll_next(cx), Poll::Ready(None));
    });
    assert_eq!(read.tables(), READ_ONLY);
}

#[test]
fn erasure_read_hands_back_pending() {
    let mut counter = Counter::new(1);
    counter.stutter = true;
    let mut read = ErasureRead::new(counter);
    with_cx(|cx| {
        assert_eq!(read.poll_next(cx), Poll::Pending);
        assert_eq!(read.poll_next(cx), Poll::Ready(Some(1)));
        assert_eq!(read.poll_next(cx), Poll::Pending);
        assert_eq!(read.poll_next(cx), Poll::Ready(None));
    });
}

#[test]
fn erasure_stream_borrows_the_stream() {
    let mut counter = Counter::new(5);
    {
        let mut read = counter.erasure_stream();
        assert_eq!(read.tables(), READ_ONLY);
        with_cx(|cx| {
            assert_eq!(read.poll_next(cx), Poll::Ready(Some(1)));
            assert_eq!(read.poll_next(cx), Poll::Ready(Some(2)));
        });
    }
    // The borrowed stream went on from where the reader left it.
    assert_eq!(counter.next, 3);
}

#[test]
fn erasure_write_passes_items_unchanged() {
    let mut sink = Collector { cap: 2, ..Default::default() };
    {
        let mut write = sink.erasure_sink();
        assert_eq!(write.tables(), WRITE_ONLY);
        with_cx(|cx| {
            assert_eq!(write.poll_ready(cx), Poll::Ready(Ok(())));
            assert_eq!(write.start_send("hello".to_owned()), Ok(()));
            assert_eq!(write.start_send("world".to_owned()), Ok(()));
            assert_eq!(write.poll_ready(cx), Poll::Pending);
            assert_eq!(write.start_send("!".to_owned()), Err("full: !".to_owned()));
            assert_eq!(write.poll_flush(cx), Poll::Ready(Ok(())));
            assert_eq!(write.poll_close(cx), Poll::Ready(Ok(())));
            assert_eq!(write.poll_ready(cx), Poll::Ready(Err("closed".to_owned())));
        });
        assert_eq!(write.tables(), WRITE_ONLY);
    }
    assert_eq!(sink.items, vec!["hello".to_owned(), "world".to_owned()]);
    assert_eq!(sink.flushes, 1);
    assert!(sink.closed);
}

#[test]
fn erasure_write_owns_its_sink() {
    let mut write: ErasureWrite<'static, String, String> =
        ErasureWrite::new(Collector { cap: 0, ..Default::default() });
    with_cx(|cx| {
        assert_eq!(write.poll_ready(cx), Poll::Pending);
        assert_eq!(write.start_send("x".to_owned()), Err("full: x".to_owned()));
    });
}

#[test]
fn erasure_framed_offers_both_ends() {
    let mut framed: Erasure<'static, String, String, String> = Erasure::new(Echo::default());
    assert_eq!(framed.tables(), READ_WRITE);
    with_cx(|cx| {
        assert_eq!(framed.poll_next(cx), Poll::Pending);
        assert_eq!(framed.poll_ready(cx), Poll::Ready(Ok(())));
        assert_eq!(framed.start_send("ping".to_owned()), Ok(()));
        assert_eq!(framed.start_send("pong".to_owned()), Ok(()));
        assert_eq!(framed.poll_flush(cx), Poll::Ready(Ok(())));
        assert_eq!(framed.poll_next(cx), Poll::Ready(Some("ping".to_owned())));
        assert_eq!(framed.poll_next(cx), Poll::Ready(Some("pong".to_owned())));
        assert_eq!(framed.poll_close(cx), Poll::Ready(Err("echo never closes".to_owned())));
    });
    assert_eq!(framed.tables(), READ_WRITE);
}

#[test]
fn raw_channel_tables_follow_the_constructor() {
    let read = RawChannel::<Counter, u32, (), ()>::new_read(Counter::new(1));
    assert_eq!(read.tables(), READ_ONLY);
    let write = RawChannel::<Collector, (), String, String>::new_write(Collector::default());
    assert_eq!(write.tables(), WRITE_ONLY);
    let framed = RawChannel::<Echo, String, String, String>::new_framed(Echo::default());
    assert_eq!(framed.tables(), READ_WRITE);
}

#[test]
fn raw_channel_entries_reach_the_object() {
    let mut framed = RawChannel::<Echo, String, String, String>::new_framed(Echo::default());
    with_cx(|cx| {
        assert_eq!(framed.start_send("a".to_owned()), Ok(()));
        assert_eq!(framed.poll_next(cx), Poll::Ready(Some("a".to_owned())));
        assert_eq!(framed.poll_next(cx), Poll::Pending);
    });
}

#[test]
fn raw_stream_sink_tables_follow_the_constructor() {
    let stream = RawStreamSink::<Counter, (), u32, ()>::new_stream(Counter::new(1));
    assert_eq!(stream.tables(), READ_ONLY);
    let sink = RawStreamSink::<Collector, String, (), String>::new_sink(Collector::default());
    assert_eq!(sink.tables(), WRITE_ONLY);
    // The constructor for an object that is both builds only the stream table.
    let both = RawStreamSink::<Echo, String, String, String>::new(Echo::default());
    assert_eq!(both.tables(), READ_ONLY);
}

#[test]
fn any_future_completes_with_the_inner_output() {
    let mut fut = Countdown { after: 3, value: -7 }.to_any_future();
    with_cx(|cx| {
        assert_eq!(fut.poll(cx), Poll::Pending);
        assert_eq!(fut.poll(cx), Poll::Pending);
        assert_eq!(fut.poll(cx), Poll::Ready(-7));
    });
}

#[test]
fn any_future_ready_at_once() {
    let mut fut = Countdown { after: 0, value: 1 }.to_any_future();
    with_cx(|cx| assert_eq!(fut.poll(cx), Poll::Ready(1)));
}

#[test]
fn any_stream_yields_what_the_stream_yields() {
    let mut stream: AnyStream<u32> = Counter::new(2).to_any_stream();
    assert_eq!(stream.tables(), READ_ONLY);
    with_cx(|cx| {
        assert_eq!(stream.poll_next(cx), Poll::Ready(Some(1)));
        assert_eq!(stream.poll_next(cx), Poll::Ready(Some(2)));
        assert_eq!(stream.poll_next(cx), Poll::Ready(None));
    });
    assert_eq!(stream.tables(), READ_ONLY);
}

#[test]
fn any_stream_new_is_to_any_stream() {
    let mut a = AnyStream::new(Counter::new(1));
    let mut b = Counter::new(1).to_any_stream();
    assert_eq!(a.tables(), b.tables());
    with_cx(|cx| assert_eq!(a.poll_next(cx), b.poll_next(cx)));
}

#[test]
fn any_sink_passes_items_unchanged() {
    let mut sink: AnySink<String, String> = Echo::default().to_any_sink();
    assert_eq!(sink.tables(), WRITE_ONLY);
    with_cx(|cx| {
        assert_eq!(sink.poll_ready(cx), Poll::Ready(Ok(())));
        assert_eq!(sink.start_send("hello".to_owned()), Ok(()));
        assert_eq!(sink.poll_flush(cx), Poll::Ready(Ok(())));
        assert_eq!(sink.poll_close(cx), Poll::Ready(Err("echo never closes".to_owned())));
    });
    assert_eq!(sink.tables(), WRITE_ONLY);
}

#[test]
fn any_sink_hands_back_errors() {
    let mut sink = AnySink::new(Collector { cap: 1, ..Default::default() });
    with_cx(|cx| {
        assert_eq!(sink.start_send("one".to_owned()), Ok(()));
        assert_eq!(sink.poll_ready(cx), Poll::Pending);
        assert_eq!(sink.start_send("two".to_owned()), Err("full: two".to_owned()));
        assert_eq!(sink.poll_close(cx), Poll::Ready(Ok(())));
        assert_eq!(sink.poll_ready(cx), Poll::Ready(Err("closed".to_owned())));
    });
}

#[test]
fn any_stream_sink_has_no_sink_table() {
    let mut both: AnyStreamSink<String, String, String> = AnyStreamSink::new(Echo::default());
    assert_eq!(both.tables(), READ_ONLY);
    with_cx(|cx| assert_eq!(both.poll_next(cx), Poll::Pending));
    assert_eq!(both.tables(), READ_ONLY);
}

/// A `futures` stream, sink or future pinned on the heap, seen through the poll traits.
struct Pinned<S>(std::pin::Pin<Box<S>>);

impl<S: futures::Stream> StreamAnswers<S::Item> for Pinned<S> {}

impl<S: futures::Stream> PollStream<S::Item> for Pinned<S> {
    fn poll_next(&mut self, cx: &mut Context<'_>) -> Poll<Option<S::Item>> {
        self.0.as_mut().poll_next(cx)
    }
}

impl<S: futures::Sink<Item>, Item> SinkAnswers<Item, S::Error> for Pinned<S> {}

impl<S: futures::Sink<Item>, Item> PollSink<Item, S::Error> for Pinned<S> {
    fn poll_ready(&mut self, cx: &mut Context<'_>) -> Poll<Result<(), S::Error>> {
        self.0.as_mut().poll_ready(cx)
    }

    fn start_send(&mut self, item: Item) -> Result<(), S::Error> {
        self.0.as_mut().start_send(item)
    }

    fn poll_flush(&mut self, cx: &mut Context<'_>) -> Poll<Result<(), S::Error>> {
        self.0.as_mut().poll_flush(cx)
    }

    fn poll_close(&mut self, cx: &mut Context<'_>) -> Poll<Result<(), S::Error>> {
        self.0.as_mut().poll_close(cx)
    }
}

impl<F: std::future::Future> FutureAnswers<F::Output> for Pinned<F> {}

impl<F: std::future::Future> PollFuture<F::Output> for Pinned<F> {
    fn poll(&mut self, cx: &mut Context<'_>) -> Poll<F::Output> {
        self.0.as_mut().poll(cx)
    }
}

#[test]
fn any_stream_of_a_futures_stream() {
    let stream = futures::stream::poll_fn(|_| Poll::Ready(Some("Hello".to_owned())));
    let mut any = Pinned(Box::pin(stream)).to_any_stream();
    with_cx(|cx| {
        assert_eq!(any.poll_next(cx), Poll::Ready(Some("Hello".to_owned())));
        assert_eq!(any.poll_next(cx), Poll::Ready(Some("Hello".to_owned())));
    });
}

#[test]
fn any_sink_of_a_futures_drain() {
    let mut any = Pinned(Box::pin(futures::sink::drain::<String>())).to_any_sink();
    with_cx(|cx| {
        assert!(matches!(any.poll_ready(cx), Poll::Ready(Ok(()))));
        assert!(any.start_send("hello".to_owned()).is_ok());
        assert!(matches!(any.poll_flush(cx), Poll::Ready(Ok(()))));
        assert!(matches!(any.poll_close(cx), Poll::Ready(Ok(()))));
    });
}

#[test]
fn any_future_of_an_async_block() {
    let fut = futures::future::poll_immediate(async { 1 });
    let mut any = Pinned(Box::pin(fut)).to_any_future();
    with_cx(|cx| assert_eq!(any.poll(cx), Poll::Ready(Some(1))));
}

#[test]
fn any_future_of_a_pending_future() {
    let mut any = Pinned(Box::pin(futures::future::pending::<u8>())).to_any_future();
    with_cx(|cx| {
        assert_eq!(any.poll(cx), Poll::Pending);
        assert_eq!(any.poll(cx), Poll::Pending);
    });
}

#[test]
fn erasure_of_a_futures_channel() {
    let (tx, rx) = futures::channel::mpsc::unbounded::<u32>();
    let mut write: ErasureWrite<'static, u32, futures::channel::mpsc::SendError> =
        ErasureWrite::new(Pinned(Box::pin(tx)));
    let mut read: ErasureRead<'static, u32> = ErasureRead::new(Pinned(Box::pin(rx)));
    with_cx(|cx| {
        assert_eq!(read.poll_next(cx), Poll::Pending);
        assert!(matches!(write.poll_ready(cx), Poll::Ready(Ok(()))));
        assert!(write.start_send(10).is_ok());
        assert!(write.start_send(20).is_ok());
        assert_eq!(read.poll_next(cx), Poll::Ready(Some(10)));
        assert_eq!(read.poll_next(cx), Poll::Ready(Some(20)));
        assert!(matches!(write.poll_close(cx), Poll::Ready(Ok(()))));
        assert_eq!(read.poll_next(cx), Poll::Ready(None));
    });
}

#[test]
fn erased_writer_keeps_its_object_when_dropped() {
    let (tx, mut rx) = futures::channel::mpsc::unbounded::<u32>();
    {
        let _write: ErasureWrite<'static, u32, futures::channel::mpsc::SendError> =
            ErasureWrite::new(Pinned(Box::pin(tx)));
    }
    // The sender was not dropped with the writer, so the channel is still open.
    with_cx(|cx| assert_eq!(Pinned(Box::pin(&mut rx)).poll_next(cx), Poll::Pending));
}

#[test]
fn any_sink_drops_its_object_with_itself() {
    let (tx, mut rx) = futures::channel::mpsc::unbounded::<u32>();
    {
        let _sink = AnySink::new(Pinned(Box::pin(tx)));
    }
    // The sender was dropped with the sink, so the channel is closed.
    with_cx(|cx| assert_eq!(Pinned(Box::pin(&mut rx)).poll_next(cx), Poll::Ready(None)));
}

#[test]
fn any_future_keeps_its_future_when_dropped() {
    let (tx, mut rx) = futures::channel::mpsc::unbounded::<u32>();
    {
        let fut = async move {
            let _held = tx;
            1
        };
        let _any = Pinned(Box::pin(fut)).to_any_future();
    }
    // The future, and the sender it holds, were not dropped with the handle.
    with_cx(|cx| assert_eq!(Pinned(Box::pin(&mut rx)).poll_next(cx), Poll::Pending));
}
