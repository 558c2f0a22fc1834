use vstd::prelude::*;
use std::marker::PhantomData;
use std::task::{Context, Poll};

use crate::poll::{
    PollSink, PollStream, PollStreamSink, SinkAnswers, SinkEvent, StreamAnswers, Tables,
    polled, read_only, same_sink, same_stream, sank,
    write_only,
};

verus! {

/// The table that leads to the stream operation (`poll_next`) of an erased object.
/// The code it leads to is reached through the object's box; the table records that
/// the object offers it.
pub struct StreamVTable<Output, Input, Error> {
    _output: PhantomData<Output>,
    _input: PhantomData<Input>,
    _err: PhantomData<Error>,
}

impl<Output, Input, Error> StreamVTable<Output, Input, Error> {
    /// The stream table of an object of type `S`.
    fn new<S: ?Sized + PollStream<Input>>() -> Self {
        StreamVTable { _output: PhantomData, _input: PhantomData, _err: PhantomData }
    }

    /// The table's entry: polls the object for its next item.
    pub fn poll_next<S: ?Sized + PollStream<Input>>(&self, inner: &mut S, cx: &mut Context<'_>) -> (r: Poll<Option<Input>>)
        ensures
            polled(old(inner), r, final(inner)),
    {
        inner.poll_next(cx)
    }
}

/// The table that leads to the sink operations (`poll_ready`, `start_send`,
/// `poll_flush`, `poll_close`) of an erased object.
pub struct SinkVTable<Output, Input, Error> {
    _output: PhantomData<Output>,
    _input: PhantomData<Input>,
    _err: PhantomData<Error>,
}

impl<Output, Input, Error> SinkVTable<Output, Input, Error> {
    /// The sink table of an object of type `T`.
    fn new<T: ?Sized + PollSink<Output, Error>>() -> Self {
        SinkVTable { _output: PhantomData, _input: PhantomData, _err: PhantomData }
    }

    /// The table's entry for `poll_ready`.
    pub fn poll_ready<T: ?Sized + PollSink<Output, Error>>(&self, inner: &mut T, cx: &mut Context<'_>) -> (r: Poll<Result<(),Error>>)
        ensures
            sank(old(inner), SinkEvent::Ready(r), final(inner)),
    {
        inner.poll_ready(cx)
    }

    /// The table's entry for `start_send`: hands `item` to the object.
    pub fn start_send<T: ?Sized + PollSink<Output, Error>>(&self, inner: &mut T, item: Output) -> (r: Result<(),Error>)
        ensures
            sank(old(inner), SinkEvent::Send(item, r), final(inner)),
    {
        inner.start_send(item)
    }

    /// The table's entry for `poll_flush`.
    pub fn poll_flush<T: ?Sized + PollSink<Output, Error>>(&self, inner: &mut T, cx: &mut Context<'_>) -> (r: Poll<Result<(),Error>>)
        ensures
            sank(old(inner), SinkEvent::Flush(r), final(inner)),
    {
        inner.poll_flush(cx)
    }

    /// The table's entry for `poll_close`.
    pub fn poll_close<T: ?Sized + PollSink<Output, Error>>(&self, inner: &mut T, cx: &mut Context<'_>) -> (r: Poll<Result<(),Error>>)
        ensures
            sank(old(inner), SinkEvent::Close(r), final(inner)),
    {
        inner.poll_close(cx)
    }
}

/// Which of the two tables an erased object carries. `Output` is what its sink takes,
/// `Input` what its stream yields.
pub struct StreamSinkVTable<Output, Input, Error> {
    stream: Option<StreamVTable<Output, Input, Error>>,
    sink: Option<SinkVTable<Output, Input, Error>>,
}

impl<Output, Input, Error> View for StreamSinkVTable<Output, Input, Error> {
    type V = Tables;

    closed spec fn view(&self) -> Tables {
        Tables { stream: self.stream is Some, sink: self.sink is Some }
    }
}

impl<Output, Input, Error> StreamSinkVTable<Output, Input, Error> {
    /// Reads which tables are present.
    pub fn tables(&self) -> (t: Tables)
        ensures
            t == self@,
    {
        Tables { stream: self.stream.is_some(), sink: self.sink.is_some() }
    }
}

/// An object together with its tables. Once the object's type is erased (`S` is a
/// trait object), only the tables say which operations may be called on it.
pub struct RawStreamSink<S: ?Sized, Output, Input, Error> {
    vtable: StreamSinkVTable<Output, Input, Error>,
    inner: Box<S>,
}

impl<S: ?Sized, Output, Input, Error> View for RawStreamSink<S, Output, Input, Error> {
    type V = Tables;

    closed spec fn view(&self) -> Tables {
        self.vtable@
    }
}

impl<S: ?Sized, Output, Input, Error> RawStreamSink<S, Output, Input, Error> {
    /// Reads which tables the object carries.
    pub fn tables(&self) -> (t: Tables)
        ensures
            t == self@,
    {
        self.vtable.tables()
    }
}

/// The object answers at its stream end as the boxed object does.
impl<S: ?Sized + StreamAnswers<Input>, Output, Input, Error> StreamAnswers<Input> for RawStreamSink<
    S,
    Output,
    Input,
    Error,
> {
    closed spec fn next_answer(&self, past: Seq<Poll<Option<Input>>>, r: Poll<Option<Input>>) -> bool {
        (*self.inner).next_answer(past, r)
    }
}

/// The object answers at its sink end as the boxed object does.
impl<S: ?Sized + SinkAnswers<Output, Error>, Output, Input, Error> SinkAnswers<Output, Error> for RawStreamSink<
    S,
    Output,
    Input,
    Error,
> {
    closed spec fn sink_answer(&self, past: Seq<SinkEvent<Output, Error>>, e: SinkEvent<Output, Error>) -> bool {
        (*self.inner).sink_answer(past, e)
    }
}

/// Erases the type of a stream object: the unsizing coercion of its `Box<S>` into a
/// boxed trait object (std's `CoerceUnsized` for `Box`), the tables moved as they are.
/// The trait object is the same boxed value and its methods are those of `S`; the
/// contract claims that the object therefore keeps its tables and answers as before,
/// and nothing else.
#[verifier::external_body]
fn erase_stream<S: PollStream<Input> + 'static, Output, Input, Error>(
    raw: RawStreamSink<S, Output, Input, Error>,
) -> (r: RawStreamSink<dyn PollStream<Input>, Output, Input, Error>)
    ensures
        r@ == raw@,
        same_stream(&r, &raw),
{
    RawStreamSink { vtable: raw.vtable, inner: raw.inner }
}

/// Erases the type of a sink object, as `erase_stream` does for a stream: the contract
/// claims that the object keeps its tables and answers as before, and nothing else.
#[verifier::external_body]
fn erase_sink<S: PollSink<Output, Error> + 'static, Output, Input, Error>(
    raw: RawStreamSink<S, Output, Input, Error>,
) -> (r: RawStreamSink<dyn PollSink<Output, Error>, Output, Input, Error>)
    ensures
        r@ == raw@,
        same_sink(&r, &raw),
{
    RawStreamSink { vtable: raw.vtable, inner: raw.inner }
}

/// Erases the type of an object that is both, as `erase_stream` does for a stream: the
/// contract claims that the object keeps its tables and answers as before at both
/// ends, and nothing else.
#[verifier::external_body]
fn erase_stream_sink<S: PollStream<Input> + PollSink<Output, Error> + 'static, Output, Input, Error>(
    raw: RawStreamSink<S, Output, Input, Error>,
) -> (r: RawStreamSink<dyn PollStreamSink<Input, Output, Error>, Output, Input, Error>)
    ensures
        r@ == raw@,
        same_stream(&r, &raw),
        same_sink(&r, &raw),
{
    RawStreamSink { vtable: raw.vtable, inner: raw.inner }
}

impl<S, Output, Input, Error> RawStreamSink<S, Output, Input, Error> {
    /// Erases `inner`, which is both a stream of `Input`s and a sink of `Output`s. Only
    /// the stream table is built: the sink table is absent.
    pub fn new(inner: S) -> (r: RawStreamSink<
        dyn PollStreamSink<Input, Output, Error>,
        Output,
        Input,
        Error,
    >) where S: PollStream<Input> + PollSink<Output, Error> + 'static
        ensures
            r@ == read_only(),
            same_stream(&r, &inner),
            same_sink(&r, &inner),
    {
        let raw = RawStreamSink {
            vtable: StreamSinkVTable { stream: Some(StreamVTable::new::<S>()), sink: None },
            inner: Box::new(inner),
        };
        erase_stream_sink(raw)
    }
}

impl<S, Input> RawStreamSink<S, (), Input, ()> {
    /// Erases the stream `inner`: the stream table is present, the sink table absent.
    pub fn new_stream(inner: S) -> (r: RawStreamSink<dyn PollStream<Input>, (), Input, ()>) where
        S: PollStream<Input> + 'static,

        ensures
            r@ == read_only(),
            same_stream(&r, &inner),
    {
        let raw = RawStreamSink {
            vtable: StreamSinkVTable { stream: Some(StreamVTable::new::<S>()), sink: None },
            inner: Box::new(inner),
        };
        erase_stream(raw)
    }
}

impl<S, Output, Error> RawStreamSink<S, Output, (), Error> {
    /// Erases the sink `inner`: the sink table is present, the stream table absent.
    pub fn new_sink(inner: S) -> (r: RawStreamSink<dyn PollSink<Output, Error>, Output, (), Error>) where
        S: PollSink<Output, Error> + 'static,

        ensures
            r@ == write_only(),
            same_sink(&r, &inner),
    {
        let raw = RawStreamSink {
            vtable: StreamSinkVTable { sink: Some(SinkVTable::new::<S>()), stream: None },
            inner: Box::new(inner),
        };
        erase_sink(raw)
    }
}

impl<S: ?Sized + PollStream<Input>, Output, Input, Error> RawStreamSink<S, Output, Input, Error> {
    /// Looks up the stream table and calls its entry: polls the object for its next
    /// item.
    pub fn poll_next(&mut self, cx: &mut Context<'_>) -> (r: Poll<Option<Input>>)
        requires
            old(self)@.stream,
        ensures
            final(self)@ == old(self)@,
            polled(old(self), r, final(self)),
    {
        let vtable = self.vtable.stream.as_ref().unwrap();
        vtable.poll_next(&mut *self.inner, cx)
    }
}

impl<S: ?Sized + PollSink<Output, Error>, Output, Input, Error> RawStreamSink<S, Output, Input, Error> {
    /// Looks up the sink table and calls its entry for `poll_ready`.
    pub fn poll_ready(&mut self, cx: &mut Context<'_>) -> (r: Poll<Result<(), Error>>)
        requires
            old(self)@.sink,
        ensures
            final(self)@ == old(self)@,
            sank(old(self), SinkEvent::Ready(r), final(self)),
    {
        let vtable = self.vtable.sink.as_ref().unwrap();
        vtable.poll_ready(&mut *self.inner, cx)
    }

    /// Looks up the sink table and calls its entry for `start_send`: hands `item` to
    /// the object.
    pub fn start_send(&mut self, item: Output) -> (r: Result<(), Error>)
        requires
            old(self)@.sink,
        ensures
            final(self)@ == old(self)@,
            sank(old(self), SinkEvent::Send(item, r), final(self)),
    {
        let vtable = self.vtable.sink.as_ref().unwrap();
        vtable.start_send(&mut *self.inner, item)
    }

    /// Looks up the sink table and calls its entry for `poll_flush`.
    pub fn poll_flush(&mut self, cx: &mut Context<'_>) -> (r: Poll<Result<(), Error>>)
        requires
            old(self)@.sink,
        ensures
            final(self)@ == old(self)@,
            sank(old(self), SinkEvent::Flush(r), final(self)),
    {
        let vtable = self.vtable.sink.as_ref().unwrap();
        vtable.poll_flush(&mut *self.inner, cx)
    }

    /// Looks up the sink table and calls its entry for `poll_close`.
    pub fn poll_close(&mut self, cx: &mut Context<'_>) -> (r: Poll<Result<(), Error>>)
        requires
            old(self)@.sink,
        ensures
            final(self)@ == old(self)@,
            sank(old(self), SinkEvent::Close(r), final(self)),
    {
        let vtable = self.vtable.sink.as_ref().unwrap();
        vtable.poll_close(&mut *self.inner, cx)
    }
}

/// A stream of erased type, yielding `Item`s.
#[verifier::reject_recursive_types(Item)]
pub struct AnyStream<Item> {
    vtable: RawStreamSink<dyn PollStream<Item>, (), Item, ()>,
}

impl<Item> View for AnyStream<Item> {
    type V = Tables;

    closed spec fn view(&self) -> Tables {
        self.vtable@
    }
}

/// The handle answers as the object behind it does.
impl<Item> StreamAnswers<Item> for AnyStream<Item> {
    closed spec fn next_answer(&self, past: Seq<Poll<Option<Item>>>, r: Poll<Option<Item>>) -> bool {
        self.vtable.next_answer(past, r)
    }
}

impl<Item> AnyStream<Item> {
    /// Erases the stream `inner`: only the stream table is present.
    pub fn new<S>(inner: S) -> (r: Self) where S: PollStream<Item> + 'static
        ensures
            r@ == read_only(),
            same_stream(&r, &inner),
    {
        AnyStream { vtable: RawStreamSink::new_stream(inner) }
    }

    /// Reads which tables the handle carries.
    pub fn tables(&self) -> (t: Tables)
        ensures
            t == self@,
    {
        self.vtable.tables()
    }

    /// Polls the erased stream for its next item.
    pub fn poll_next(&mut self, cx: &mut Context<'_>) -> (r: Poll<Option<Item>>)
        requires
            old(self)@.stream,
        ensures
            final(self)@ == old(self)@,
            polled(old(self), r, final(self)),
    {
        self.vtable.poll_next(cx)
    }
}

/// Erases any stream: `s.to_any_stream()` yields what `s` yields.
pub trait AnyStreamEx<Item>: PollStream<Item> {
    fn to_any_stream(self) -> (r: AnyStream<Item>) where Self: Sized + 'static
        ensures
            r@ == read_only(),
            same_stream(&r, &self),
    {
        AnyStream::new(self)
    }
}

impl<T: ?Sized + PollStream<Item>, Item> AnyStreamEx<Item> for T {

}

/// A sink of erased type, taking `Item`s.
#[verifier::reject_recursive_types(Item)]
#[verifier::reject_recursive_types(Error)]
pub struct AnySink<Item, Error> {
    vtable: RawStreamSink<dyn PollSink<Item, Error>, Item, (), Error>,
}

impl<Item, Error> View for AnySink<Item, Error> {
    type V = Tables;

    closed spec fn view(&self) -> Tables {
        self.vtable@
    }
}

/// The handle answers as the object behind it does.
impl<Item, Error> SinkAnswers<Item, Error> for AnySink<Item, Error> {
    closed spec fn sink_answer(&self, past: Seq<SinkEvent<Item, Error>>, e: SinkEvent<Item, Error>) -> bool {
        self.vtable.sink_answer(past, e)
    }
}

impl<Item, Error> AnySink<Item, Error> {
    /// Erases the sink `inner`: only the sink table is present.
    pub fn new<S>(inner: S) -> (r: Self) where S: PollSink<Item, Error> + 'static
        ensures
            r@ == write_only(),
            same_sink(&r, &inner),
    {
        AnySink { vtable: RawStreamSink::new_sink(inner) }
    }

    /// Reads which tables the handle carries.
    pub fn tables(&self) -> (t: Tables)
        ensures
            t == self@,
    {
        self.vtable.tables()
    }

    /// Asks the erased sink to close.
    pub fn poll_close(&mut self, cx: &mut Context<'_>) -> (r: Poll<Result<(), Error>>)
        requires
            old(self)@.sink,
        ensures
            final(self)@ == old(self)@,
            sank(old(self), SinkEvent::Close(r), final(self)),
    {
        self.vtable.poll_close(cx)
    }

    /// Asks the erased sink to flush what it has taken.
    pub fn poll_flush(&mut self, cx: &mut Context<'_>) -> (r: Poll<Result<(), Error>>)
        requires
            old(self)@.sink,
        ensures
            final(self)@ == old(self)@,
            sank(old(self), SinkEvent::Flush(r), final(self)),
    {
        self.vtable.poll_flush(cx)
    }

    /// Asks the erased sink whether it is ready to take an item.
    pub fn poll_ready(&mut self, cx: &mut Context<'_>) -> (r: Poll<Result<(), Error>>)
        requires
            old(self)@.sink,
        ensures
            final(self)@ == old(self)@,
            sank(old(self), SinkEvent::Ready(r), final(self)),
    {
        self.vtable.poll_ready(cx)
    }

    /// Hands `item` to the erased sink.
    pub fn start_send(&mut self, item: Item) -> (r: Result<(), Error>)
        requires
            old(self)@.sink,
        ensures
            final(self)@ == old(self)@,
            sank(old(self), SinkEvent::Send(item, r), final(self)),
    {
        self.vtable.start_send(item)
    }
}

/// Erases any sink: `s.to_any_sink()` takes what `s` takes.
pub trait AnySinkEx<Item, Error>: PollSink<Item, Error> {
    fn to_any_sink(self) -> (r: AnySink<Item, Error>) where Self: Sized + 'static
        ensures
            r@ == write_only(),
            same_sink(&r, &self),
    {
        AnySink::new(self)
    }
}

impl<T: ?Sized + PollSink<Item, Error>, Item, Error> AnySinkEx<Item, Error> for T {

}

/// A stream and sink at once, of erased type: takes `Output`s, yields `Input`s. It is
/// built by `RawStreamSink::new`, which gives it a stream table and no sink table.
#[verifier::reject_recursive_types(Output)]
#[verifier::reject_recursive_types(Input)]
#[verifier::reject_recursive_types(Error)]
pub struct AnyStreamSink<Output, Input, Error> {
    vtable: RawStreamSink<dyn PollStreamSink<Input, Output, Error>, Output, Input, Error>,
}

impl<Output, Input, Error> View for AnyStreamSink<Output, Input, Error> {
    type V = Tables;

    closed spec fn view(&self) -> Tables {
        self.vtable@
    }
}

/// The handle answers at its stream end as the object behind it does.
impl<Output, Input, Error> StreamAnswers<Input> for AnyStreamSink<Output, Input, Error> {
    closed spec fn next_answer(&self, past: Seq<Poll<Option<Input>>>, r: Poll<Option<Input>>) -> bool {
        self.vtable.next_answer(past, r)
    }
}

/// The handle answers at its sink end as the object behind it does.
impl<Output, Input, Error> SinkAnswers<Output, Error> for AnyStreamSink<Output, Input, Error> {
    closed spec fn sink_answer(&self, past: Seq<SinkEvent<Output, Error>>, e: SinkEvent<Output, Error>) -> bool {
        self.vtable.sink_answer(past, e)
    }
}

impl<Output, Input, Error> AnyStreamSink<Output, Input, Error> {
    /// Erases `inner`, a stream of `Input`s and a sink of `Output`s.
    pub fn new<S>(inner: S) -> (r: Self) where S: PollStream<Input> + PollSink<Output, Error> + 'static
        ensures
            r@ == read_only(),
            same_stream(&r, &inner),
            same_sink(&r, &inner),
    {
        AnyStreamSink { vtable: RawStreamSink::new(inner) }
    }

    /// Reads which tables the handle carries.
    pub fn tables(&self) -> (t: Tables)
        ensures
            t == self@,
    {
        self.vtable.tables()
    }

    /// Asks the erased object to close.
    pub fn poll_close(&mut self, cx: &mut Context<'_>) -> (r: Poll<Result<(), Error>>)
        requires
            old(self)@.sink,
        ensures
            final(self)@ == old(self)@,
            sank(old(self), SinkEvent::Close(r), final(self)),
    {
        self.vtable.poll_close(cx)
    }

    /// Asks the erased object to flush what it has taken.
    pub fn poll_flush(&mut self, cx: &mut Context<'_>) -> (r: Poll<Result<(), Error>>)
        requires
            old(self)@.sink,
        ensures
            final(self)@ == old(self)@,
            sank(old(self), SinkEvent::Flush(r), final(self)),
    {
        self.vtable.poll_flush(cx)
    }

    /// Asks the erased object whether it is ready to take an item.
    pub fn poll_ready(&mut self, cx: &mut Context<'_>) -> (r: Poll<Result<(), Error>>)
        requires
            old(self)@.sink,
        ensures
            final(self)@ == old(self)@,
            sank(old(self), SinkEvent::Ready(r), final(self)),
    {
        self.vtable.poll_ready(cx)
    }

    /// Hands `item` to the erased object.
    pub fn start_send(&mut self, item: Output) -> (r: Result<(), Error>)
        requires
            old(self)@.sink,
        ensures
            final(self)@ == old(self)@,
            sank(old(self), SinkEvent::Send(item, r), final(self)),
    {
        self.vtable.start_send(item)
    }

    /// Polls the erased object for its next item.
    pub fn poll_next(&mut self, cx: &mut Context<'_>) -> (r: Poll<Option<Input>>)
        requires
            old(self)@.stream,
        ensures
            final(self)@ == old(self)@,
            polled(old(self), r, final(self)),
    {
        self.vtable.poll_next(cx)
    }
}

} // verus!
