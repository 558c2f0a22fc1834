//! Type erasure for streams, sinks and futures: wraps an object of any type in a handle
//! whose type names only what goes in and what comes out. Each handle carries the
//! tables of the operations its object offers; an operation may be called only where
//! its table is present, and it goes to the object unchanged.
use vstd::prelude::*;
use std::task::{Context, Poll};

pub mod poll;
pub mod raw;
pub mod stream;
pub mod sink;
pub mod future;
pub mod stream_sink;

pub use poll::{
    FutureAnswers, PollFuture, PollSink, PollStream, PollStreamSink, SinkAnswers, SinkEvent,
    StreamAnswers, Tables,
};
pub use raw::{FramedHeader, RawChannel, SinkVtable, StreamVtable};
pub use stream::ErasureRead;
pub use sink::ErasureWrite;
pub use future::{AnyFuture, AnyFutureEx, AnyFutureVTable};
pub use stream_sink::{
    AnySink, AnySinkEx, AnyStream, AnyStreamEx, AnyStreamSink, RawStreamSink, SinkVTable,
    StreamSinkVTable, StreamVTable,
};

use crate::poll::{
    polled, read_only, read_write, same_sink, same_stream, sank, write_only,
};

verus! {

/// Erases a stream that its owner lends out: the reader borrows it for `'a`.
pub trait ErasureStream<Item>: PollStream<Item> {
    fn erasure_stream<'a>(&'a mut self) -> (r: ErasureRead<'a, Item>) where Self: Sized
        ensures
            r@ == read_only(),
            same_stream(&r, &*old(self)),
    {
        ErasureRead::new(self)
    }
}

/// Erases a sink that its owner lends out: the writer borrows it for `'a`.
pub trait ErasureSink<Item, Error>: PollSink<Item, Error> {
    fn erasure_sink<'a>(&'a mut self) -> (r: ErasureWrite<'a, Item, Error>) where Self: Sized
        ensures
            r@ == write_only(),
            same_sink(&r, &*old(self)),
    {
        ErasureWrite::new(self)
    }
}

/// A stream and sink at once, of erased type: yields `Output`s, takes `Input`s.
#[verifier::reject_recursive_types(Output)]
#[verifier::reject_recursive_types(Input)]
#[verifier::reject_recursive_types(Error)]
pub struct Erasure<'a, Output, Input, Error> {
    raw: RawChannel<dyn PollStreamSink<Output, Input, Error> + 'a, Output, Input, Error>,
}

impl<'a, Output, Input, Error> View for Erasure<'a, Output, Input, Error> {
    type V = Tables;

    closed spec fn view(&self) -> Tables {
        self.raw@
    }
}

/// The handle answers at its stream end as the object behind it does.
impl<'a, Output, Input, Error> StreamAnswers<Output> for Erasure<'a, Output, Input, Error> {
    closed spec fn next_answer(&self, past: Seq<Poll<Option<Output>>>, r: Poll<Option<Output>>) -> bool {
        self.raw.next_answer(past, r)
    }
}

/// The handle answers at its sink end as the object behind it does.
impl<'a, Output, Input, Error> SinkAnswers<Input, Error> for Erasure<'a, Output, Input, Error> {
    closed spec fn sink_answer(&self, past: Seq<SinkEvent<Input, Error>>, e: SinkEvent<Input, Error>) -> bool {
        self.raw.sink_answer(past, e)
    }
}

impl<'a, Output, Input, Error> Erasure<'a, Output, Input, Error> {
    /// Erases `inner`, which is both a stream and a sink: both tables are present.
    pub fn new<T>(inner: T) -> (r: Self) where T: PollStream<Output> + PollSink<Input, Error> + 'a
        ensures
            r@ == read_write(),
            same_stream(&r, &inner),
            same_sink(&r, &inner),
    {
        Erasure { raw: RawChannel::new_framed(inner) }
    }

    /// Reads which tables the handle carries.
    pub fn tables(&self) -> (t: Tables)
        ensures
            t == self@,
    {
        self.raw.tables()
    }

    /// Polls the erased object for its next item.
    pub fn poll_next(&mut self, cx: &mut Context<'_>) -> (r: Poll<Option<Output>>)
        requires
            old(self)@.stream,
        ensures
            final(self)@ == old(self)@,
            polled(old(self), r, final(self)),
    {
        self.raw.poll_next(cx)
    }

    /// Asks the erased object whether it is ready to take an item.
    pub fn poll_ready(&mut self, cx: &mut Context<'_>) -> (r: Poll<Result<(), Error>>)
        requires
            old(self)@.sink,
        ensures
            final(self)@ == old(self)@,
            sank(old(self), SinkEvent::Ready(r), final(self)),
    {
        self.raw.poll_ready(cx)
    }

    /// Asks the erased object to close.
    pub fn poll_close(&mut self, cx: &mut Context<'_>) -> (r: Poll<Result<(), Error>>)
        requires
            old(self)@.sink,
        ensures
            final(self)@ == old(self)@,
            sank(old(self), SinkEvent::Close(r), final(self)),
    {
        self.raw.poll_close(cx)
    }

    /// Asks the erased object to flush what it has taken.
    pub fn poll_flush(&mut self, cx: &mut Context<'_>) -> (r: Poll<Result<(), Error>>)
        requires
            old(self)@.sink,
        ensures
            final(self)@ == old(self)@,
            sank(old(self), SinkEvent::Flush(r), final(self)),
    {
        self.raw.poll_flush(cx)
    }

    /// Hands `item` to the erased object.
    pub fn start_send(&mut self, item: Input) -> (r: Result<(), Error>)
        requires
            old(self)@.sink,
        ensures
            final(self)@ == old(self)@,
            sank(old(self), SinkEvent::Send(item, r), final(self)),
    {
        self.raw.start_send(item)
    }
}

} // verus!
