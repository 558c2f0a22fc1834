use vstd::prelude::*;
use std::task::{Context, Poll};

verus! {

/// `std::task::Context`, the waker context of one poll. The library only hands it on
/// to the object it polls; nothing is claimed about what is inside.
#[verifier::external_type_specification]
#[verifier::external_body]
pub struct ExContext<'a>(Context<'a>);

/// `std::task::Poll`, the answer of one poll. The library hands it back unchanged from
/// the object it polls; nothing is claimed about what is inside.
#[verifier::external_type_specification]
#[verifier::external_body]
#[verifier::reject_recursive_types(T)]
pub struct ExPoll<T>(Poll<T>);

/// What a stream may answer. `next_answer(past, r)`: having answered `past` to the polls
/// made since the state `self`, the stream, polled once more, may answer `r`. An
/// implementation narrows this where it can say more of itself; by default any answer
/// is possible at every step.
pub trait StreamAnswers<Item> {
    open spec fn next_answer(&self, past: Seq<Poll<Option<Item>>>, r: Poll<Option<Item>>) -> bool {
        true
    }
}

/// `post` is `pre` after one poll that answered `r`: `r` is an answer `pre` may give,
/// and from then on `post` answers as `pre` does once `r` is behind it.
pub open spec fn polled<Item, S: ?Sized + StreamAnswers<Item>>(
    pre: &S,
    r: Poll<Option<Item>>,
    post: &S,
) -> bool {
    &&& pre.next_answer(Seq::empty(), r)
    &&& forall|past: Seq<Poll<Option<Item>>>, x: Poll<Option<Item>>|
        #[trigger] post.next_answer(past, x) == pre.next_answer(seq![r] + past, x)
}

/// `a` answers every sequence of polls as `b` does.
pub open spec fn same_stream<Item, A: ?Sized + StreamAnswers<Item>, B: ?Sized + StreamAnswers<Item>>(
    a: &A,
    b: &B,
) -> bool {
    forall|past: Seq<Poll<Option<Item>>>, x: Poll<Option<Item>>|
        #[trigger] a.next_answer(past, x) == b.next_answer(past, x)
}

/// Something that yields items when polled: the operation that a stream table of an
/// erased object leads to.
pub trait PollStream<Item>: StreamAnswers<Item> {
    fn poll_next(&mut self, cx: &mut Context<'_>) -> (r: Poll<Option<Item>>)
        ensures
            polled(old(self), r, final(self)),
    ;
}

/// One operation of a sink together with its answer.
#[verifier::reject_recursive_types(Item)]
#[verifier::reject_recursive_types(Error)]
pub enum SinkEvent<Item, Error> {
    /// `poll_ready` answered this.
    Ready(Poll<Result<(), Error>>),
    /// `start_send` was handed this item and answered this.
    Send(Item, Result<(), Error>),
    /// `poll_flush` answered this.
    Flush(Poll<Result<(), Error>>),
    /// `poll_close` answered this.
    Close(Poll<Result<(), Error>>),
}

/// What a sink may answer. `sink_answer(past, e)`: having gone through the operations
/// and answers in `past` since the state `self`, the sink may go through `e` next. An
/// implementation narrows this where it can say more of itself; by default any answer
/// is possible at every step.
pub trait SinkAnswers<Item, Error> {
    open spec fn sink_answer(&self, past: Seq<SinkEvent<Item, Error>>, e: SinkEvent<Item, Error>) -> bool {
        true
    }
}

/// `post` is `pre` after the one operation and answer `e`: `pre` may go through `e`,
/// and from then on `post` answers as `pre` does once `e` is behind it.
pub open spec fn sank<Item, Error, S: ?Sized + SinkAnswers<Item, Error>>(
    pre: &S,
    e: SinkEvent<Item, Error>,
    post: &S,
) -> bool {
    &&& pre.sink_answer(Seq::empty(), e)
    &&& forall|past: Seq<SinkEvent<Item, Error>>, x: SinkEvent<Item, Error>|
        #[trigger] post.sink_answer(past, x) == pre.sink_answer(seq![e] + past, x)
}

/// `a` answers every sequence of sink operations as `b` does.
pub open spec fn same_sink<
    Item,
    Error,
    A: ?Sized + SinkAnswers<Item, Error>,
    B: ?Sized + SinkAnswers<Item, Error>,
>(a: &A, b: &B) -> bool {
    forall|past: Seq<SinkEvent<Item, Error>>, x: SinkEvent<Item, Error>|
        #[trigger] a.sink_answer(past, x) == b.sink_answer(past, x)
}

/// `post` is `pre` after going through the operations and answers `es`, in order, one
/// call each: each was an answer `pre` may give after the ones before it, and from
/// then on `post` answers as `pre` does once all of `es` is behind it.
pub open spec fn went_through<
    Item,
    Error,
    A: ?Sized + SinkAnswers<Item, Error>,
    B: ?Sized + SinkAnswers<Item, Error>,
>(pre: &A, es: Seq<SinkEvent<Item, Error>>, post: &B) -> bool {
    &&& forall|i: int| 0 <= i < es.len() ==> #[trigger] pre.sink_answer(es.take(i), es[i])
    &&& forall|past: Seq<SinkEvent<Item, Error>>, x: SinkEvent<Item, Error>|
        #[trigger] post.sink_answer(past, x) == pre.sink_answer(es + past, x)
}

/// A sink that answers as another has gone through nothing since it.
pub proof fn went_through_nothing<Item, Error, A: ?Sized + SinkAnswers<Item, Error>, B: ?Sized + SinkAnswers<Item, Error>>(
    pre: &A,
    post: &B,
)
    requires
        same_sink(post, pre),
    ensures
        went_through(pre, Seq::empty(), post),
{
    assert forall|past: Seq<SinkEvent<Item, Error>>, x: SinkEvent<Item, Error>|
        #[trigger] post.sink_answer(past, x) == pre.sink_answer(Seq::empty() + past, x) by {
        assert(Seq::<SinkEvent<Item, Error>>::empty() + past =~= past);
    }
}

/// One sink operation more: a sink that has gone through `es` and then through `e`, one
/// call, has gone through `es` followed by `e`. Applied once per operation, this gives
/// the law for any number of them: items sent one after another reach the object
/// exactly, unchanged and in order, each with the answer the object gave.
pub proof fn went_through_one_more<
    Item,
    Error,
    A: ?Sized + SinkAnswers<Item, Error>,
    B: ?Sized + SinkAnswers<Item, Error>,
>(pre: &A, es: Seq<SinkEvent<Item, Error>>, mid: &B, e: SinkEvent<Item, Error>, post: &B)
    requires
        went_through(pre, es, mid),
        sank(mid, e, post),
    ensures
        went_through(pre, es.push(e), post),
{
    let all = es.push(e);
    assert forall|i: int| 0 <= i < all.len() implies #[trigger] pre.sink_answer(all.take(i), all[i]) by {
        if i < es.len() {
            assert(all.take(i) =~= es.take(i));
        } else {
            assert(all.take(i) =~= es + Seq::empty());
            assert(mid.sink_answer(Seq::empty(), e));
        }
    }
    assert forall|past: Seq<SinkEvent<Item, Error>>, x: SinkEvent<Item, Error>|
        #[trigger] post.sink_answer(past, x) == pre.sink_answer(all + past, x) by {
        assert(post.sink_answer(past, x) == mid.sink_answer(seq![e] + past, x));
        assert(all + past =~= es + (seq![e] + past));
    }
}

/// Something that takes items in: the operations that a sink table of an erased object
/// leads to (ready, send, flush, close).
pub trait PollSink<Item, Error>: SinkAnswers<Item, Error> {
    fn poll_ready(&mut self, cx: &mut Context<'_>) -> (r: Poll<Result<(), Error>>)
        ensures
            sank(old(self), SinkEvent::Ready(r), final(self)),
    ;

    fn start_send(&mut self, item: Item) -> (r: Result<(), Error>)
        ensures
            sank(old(self), SinkEvent::Send(item, r), final(self)),
    ;

    fn poll_flush(&mut self, cx: &mut Context<'_>) -> (r: Poll<Result<(), Error>>)
        ensures
            sank(old(self), SinkEvent::Flush(r), final(self)),
    ;

    fn poll_close(&mut self, cx: &mut Context<'_>) -> (r: Poll<Result<(), Error>>)
        ensures
            sank(old(self), SinkEvent::Close(r), final(self)),
    ;
}

/// What a future may answer. `poll_answer(past, r)`: having answered `past` to the polls
/// made since the state `self`, the future, polled once more, may answer `r`. By default
/// any answer is possible at every step.
pub trait FutureAnswers<Output> {
    open spec fn poll_answer(&self, past: Seq<Poll<Output>>, r: Poll<Output>) -> bool {
        true
    }
}

/// `post` is `pre` after one poll that answered `r`.
pub open spec fn polled_future<Output, F: ?Sized + FutureAnswers<Output>>(
    pre: &F,
    r: Poll<Output>,
    post: &F,
) -> bool {
    &&& pre.poll_answer(Seq::empty(), r)
    &&& forall|past: Seq<Poll<Output>>, x: Poll<Output>|
        #[trigger] post.poll_answer(past, x) == pre.poll_answer(seq![r] + past, x)
}

/// `a` answers every sequence of polls as `b` does.
pub open spec fn same_future<Output, A: ?Sized + FutureAnswers<Output>, B: ?Sized + FutureAnswers<Output>>(
    a: &A,
    b: &B,
) -> bool {
    forall|past: Seq<Poll<Output>>, x: Poll<Output>|
        #[trigger] a.poll_answer(past, x) == b.poll_answer(past, x)
}

/// Handles made from objects that answer alike answer alike: if `a` answers as `f`, `b`
/// as `g`, and `f` as `g`, then `a` answers as `b`. So `fut.to_any_future()` answers
/// every sequence of polls as a handle made from an identical copy of `fut` does.
pub proof fn erased_futures_agree<
    Output,
    A: ?Sized + FutureAnswers<Output>,
    F: ?Sized + FutureAnswers<Output>,
    B: ?Sized + FutureAnswers<Output>,
    G: ?Sized + FutureAnswers<Output>,
>(a: &A, f: &F, b: &B, g: &G)
    requires
        same_future(a, f),
        same_future(b, g),
        same_future(f, g),
    ensures
        same_future(a, b),
{
}

/// Something that completes with one value when polled.
pub trait PollFuture<Output>: FutureAnswers<Output> {
    fn poll(&mut self, cx: &mut Context<'_>) -> (r: Poll<Output>)
        ensures
            polled_future(old(self), r, final(self)),
    ;
}

/// Both ends at once: yields `Item`s and takes `SinkItem`s.
pub trait PollStreamSink<Item, SinkItem, Error>: PollStream<Item> + PollSink<SinkItem, Error> {

}

impl<T: PollStream<Item> + PollSink<SinkItem, Error>, Item, SinkItem, Error> PollStreamSink<
    Item,
    SinkItem,
    Error,
> for T {

}

/// A mutable borrow answers what the borrowed stream answers.
impl<'b, Item, T: ?Sized + StreamAnswers<Item>> StreamAnswers<Item> for &'b mut T {
    open spec fn next_answer(&self, past: Seq<Poll<Option<Item>>>, r: Poll<Option<Item>>) -> bool {
        (**self).next_answer(past, r)
    }
}

/// A mutable borrow of a stream is a stream: polling it polls the borrowed one.
impl<'b, Item, T: ?Sized + PollStream<Item>> PollStream<Item> for &'b mut T {
    fn poll_next(&mut self, cx: &mut Context<'_>) -> (r: Poll<Option<Item>>) {
        (**self).poll_next(cx)
    }
}

/// A mutable borrow answers what the borrowed sink answers.
impl<'b, Item, Error, T: ?Sized + SinkAnswers<Item, Error>> SinkAnswers<Item, Error> for &'b mut T {
    open spec fn sink_answer(&self, past: Seq<SinkEvent<Item, Error>>, e: SinkEvent<Item, Error>) -> bool {
        (**self).sink_answer(past, e)
    }
}

/// A mutable borrow of a sink is a sink: each operation goes to the borrowed one.
impl<'b, Item, Error, T: ?Sized + PollSink<Item, Error>> PollSink<Item, Error> for &'b mut T {
    fn poll_ready(&mut self, cx: &mut Context<'_>) -> (r: Poll<Result<(), Error>>) {
        (**self).poll_ready(cx)
    }

    fn start_send(&mut self, item: Item) -> (r: Result<(), Error>) {
        (**self).start_send(item)
    }

    fn poll_flush(&mut self, cx: &mut Context<'_>) -> (r: Poll<Result<(), Error>>) {
        (**self).poll_flush(cx)
    }

    fn poll_close(&mut self, cx: &mut Context<'_>) -> (r: Poll<Result<(), Error>>) {
        (**self).poll_close(cx)
    }
}

/// Which tables an erased object carries: one that leads to the stream operation, one
/// that leads to the sink operations. An operation may be called only where its table
/// is present.
#[derive(Debug, PartialEq, Eq, Structural)]
pub struct Tables {
    pub stream: bool,
    pub sink: bool,
}

/// The tables of an object that can only be read from.
pub open spec fn read_only() -> Tables {
    Tables { stream: true, sink: false }
}

/// The tables of an object that can only be written to.
pub open spec fn write_only() -> Tables {
    Tables { stream: false, sink: true }
}

/// The tables of an object that can be read from and written to.
pub open spec fn read_write() -> Tables {
    Tables { stream: true, sink: true }
}

} // verus!
