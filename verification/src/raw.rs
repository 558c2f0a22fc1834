use vstd::prelude::*;
use std::marker::PhantomData;
use std::mem::ManuallyDrop;
use std::task::{Context, Poll};

use crate::poll::{
    PollSink, PollStream, PollStreamSink, SinkAnswers, SinkEvent, StreamAnswers, Tables,
    polled, read_only, read_write, same_sink,
    same_stream, sank, write_only,
};

verus! {

/// The table that leads to the stream operation (`poll_next`) of an erased channel.
/// The code it leads to is reached through the channel's boxed object; the table
/// records that the channel offers it.
pub struct StreamVtable<Output, Input, Error> {
    _output: PhantomData<Output>,
    _input: PhantomData<Input>,
    _err: PhantomData<Error>,
}

/// The table that leads to the sink operations (`poll_ready`, `start_send`,
/// `poll_flush`, `poll_close`) of an erased channel.
pub struct SinkVtable<Output, Input, Error> {
    _output: PhantomData<Output>,
    _input: PhantomData<Input>,
    _err: PhantomData<Error>,
}

impl<Output, Input, Error> StreamVtable<Output, Input, Error> {
    /// The stream table of an object of type `T`.
    fn new<T: ?Sized + PollStream<Output>>() -> Self {
        StreamVtable { _output: PhantomData, _input: PhantomData, _err: PhantomData }
    }

    /// The table's entry: polls the object for its next item.
    pub fn poll_next<T: ?Sized + PollStream<Output>>(&self, inner: &mut T, cx: &mut Context<'_>) -> (r: Poll<Option<Output>>)
        ensures
            polled(old(inner), r, final(inner)),
    {
        inner.poll_next(cx)
    }
}

impl<Output, Input, Error> SinkVtable<Output, Input, Error> {
    /// The sink table of an object of type `T`.
    fn new<T: ?Sized + PollSink<Input, Error>>() -> Self {
        SinkVtable { _output: PhantomData, _input: PhantomData, _err: PhantomData }
    }

    /// The table's entry for `poll_ready`.
    pub fn poll_ready<T: ?Sized + PollSink<Input, Error>>(&self, inner: &mut T, cx: &mut Context<'_>) -> (r: Poll<Result<(),Error>>)
        ensures
            sank(old(inner), SinkEvent::Ready(r), final(inner)),
    {
        inner.poll_ready(cx)
    }

    /// The table's entry for `start_send`: hands `item` to the object.
    pub fn start_send<T: ?Sized + PollSink<Input, Error>>(&self, inner: &mut T, item: Input) -> (r: Result<(),Error>)
        ensures
            sank(old(inner), SinkEvent::Send(item, r), final(inner)),
    {
        inner.start_send(item)
    }

    /// The table's entry for `poll_flush`.
    pub fn poll_flush<T: ?Sized + PollSink<Input, Error>>(&self, inner: &mut T, cx: &mut Context<'_>) -> (r: Poll<Result<(),Error>>)
        ensures
            sank(old(inner), SinkEvent::Flush(r), final(inner)),
    {
        inner.poll_flush(cx)
    }

    /// The table's entry for `poll_close`.
    pub fn poll_close<T: ?Sized + PollSink<Input, Error>>(&self, inner: &mut T, cx: &mut Context<'_>) -> (r: Poll<Result<(),Error>>)
        ensures
            sank(old(inner), SinkEvent::Close(r), final(inner)),
    {
        inner.poll_close(cx)
    }
}

/// The header of an erased channel: which of the two tables it carries.
pub struct FramedHeader<Output, Input, Error> {
    pub(crate) stream_vtable: Option<StreamVtable<Output, Input, Error>>,
    pub(crate) sink_vtable: Option<SinkVtable<Output, Input, Error>>,
}

impl<Output, Input, Error> View for FramedHeader<Output, Input, Error> {
    type V = Tables;

    closed spec fn view(&self) -> Tables {
        Tables { stream: self.stream_vtable is Some, sink: self.sink_vtable is Some }
    }
}

impl<Output, Input, Error> FramedHeader<Output, Input, Error> {
    /// Reads which tables the header carries.
    pub fn tables(&self) -> (t: Tables)
        ensures
            t == self@,
    {
        Tables { stream: self.stream_vtable.is_some(), sink: self.sink_vtable.is_some() }
    }
}

/// A channel: its header, and the object that the header's tables lead to. Once the
/// object's type is erased (`T` is a trait object), only the header says which
/// operations may be called on it. A channel never releases its object: dropping the
/// channel leaves the object in place, undropped.
pub struct RawChannel<T: ?Sized, Output, Input, Error> {
    header: FramedHeader<Output, Input, Error>,
    inner: ManuallyDrop<Box<T>>,
}

impl<T: ?Sized, Output, Input, Error> View for RawChannel<T, Output, Input, Error> {
    type V = Tables;

    closed spec fn view(&self) -> Tables {
        self.header@
    }
}

impl<T: ?Sized, Output, Input, Error> RawChannel<T, Output, Input, Error> {
    /// Reads which tables the channel's header carries.
    pub fn tables(&self) -> (t: Tables)
        ensures
            t == self@,
    {
        self.header.tables()
    }
}

/// A channel answers at its stream end as its object does.
impl<T: ?Sized + StreamAnswers<Output>, Output, Input, Error> StreamAnswers<Output> for RawChannel<
    T,
    Output,
    Input,
    Error,
> {
    closed spec fn next_answer(&self, past: Seq<Poll<Option<Output>>>, r: Poll<Option<Output>>) -> bool {
        (*self.inner@).next_answer(past, r)
    }
}

/// A channel answers at its sink end as its object does.
impl<T: ?Sized + SinkAnswers<Input, Error>, Output, Input, Error> SinkAnswers<Input, Error> for RawChannel<
    T,
    Output,
    Input,
    Error,
> {
    closed spec fn sink_answer(&self, past: Seq<SinkEvent<Input, Error>>, e: SinkEvent<Input, Error>) -> bool {
        (*self.inner@).sink_answer(past, e)
    }
}

/// A mutable borrow of the object that a `ManuallyDrop<Box<T>>` holds (std's
/// `DerefMut` for `ManuallyDrop`, then for `Box`). The contract claims that the
/// borrow is of the held object, and that when it ends the held object is the
/// borrow's final value; nothing else.
#[verifier::external_body]
pub(crate) fn held_mut<T: ?Sized>(held: &mut ManuallyDrop<Box<T>>) -> (r: &mut T)
    ensures
        &*r == &*old(held)@,
        &*final(held)@ == &*final(r),
{
    &mut **held
}

/// Erases the type of a stream channel's object: the unsizing coercion of its
/// `Box<T>` into a boxed trait object (std's `CoerceUnsized` for `Box`), the header
/// moved as it is. The trait object is the same boxed value and its methods are those
/// of `T`; the contract claims that the channel therefore keeps its tables and answers
/// as before, and nothing else.
#[verifier::external_body]
fn erase_read<'a, T: PollStream<Output> + 'a, Output, Input, Error>(
    raw: RawChannel<T, Output, Input, Error>,
) -> (r: RawChannel<dyn PollStream<Output> + 'a, Output, Input, Error>)
    ensures
        r@ == raw@,
        same_stream(&r, &raw),
{
    let typed: Box<T> = ManuallyDrop::into_inner(raw.inner);
    let object: Box<dyn PollStream<Output> + 'a> = typed;
    RawChannel { header: raw.header, inner: ManuallyDrop::new(object) }
}

/// Erases the type of a sink channel's object, as `erase_read` does for a stream: the
/// contract claims that the channel keeps its tables and answers as before, and
/// nothing else.
#[verifier::external_body]
fn erase_write<'a, T: PollSink<Input, Error> + 'a, Output, Input, Error>(
    raw: RawChannel<T, Output, Input, Error>,
) -> (r: RawChannel<dyn PollSink<Input, Error> + 'a, Output, Input, Error>)
    ensures
        r@ == raw@,
        same_sink(&r, &raw),
{
    let typed: Box<T> = ManuallyDrop::into_inner(raw.inner);
    let object: Box<dyn PollSink<Input, Error> + 'a> = typed;
    RawChannel { header: raw.header, inner: ManuallyDrop::new(object) }
}

/// Erases the type of the object of a channel that is both, as `erase_read` does for a
/// stream: the contract claims that the channel keeps its tables and answers as before
/// at both ends, and nothing else.
#[verifier::external_body]
fn erase_framed<'a, T: PollStream<Output> + PollSink<Input, Error> + 'a, Output, Input, Error>(
    raw: RawChannel<T, Output, Input, Error>,
) -> (r: RawChannel<dyn PollStreamSink<Output, Input, Error> + 'a, Output, Input, Error>)
    ensures
        r@ == raw@,
        same_stream(&r, &raw),
        same_sink(&r, &raw),
{
    let typed: Box<T> = ManuallyDrop::into_inner(raw.inner);
    let object: Box<dyn PollStreamSink<Output, Input, Error> + 'a> = typed;
    RawChannel { header: raw.header, inner: ManuallyDrop::new(object) }
}

impl<T, Output, Input, Error> RawChannel<T, Output, Input, Error> {
    /// Erases a stream: the channel carries a stream table and no sink table.
    pub fn new_read<'a>(inner: T) -> (r: RawChannel<dyn PollStream<Output> + 'a, Output, Input, Error>) where
        T: PollStream<Output> + 'a,

        ensures
            r@ == read_only(),
            same_stream(&r, &inner),
    {
        let raw = RawChannel {
            header: FramedHeader { stream_vtable: Some(StreamVtable::new::<T>()), sink_vtable: None },
            inner: ManuallyDrop::new(Box::new(inner)),
        };
        erase_read(raw)
    }

    /// Erases a sink: the channel carries a sink table and no stream table.
    pub fn new_write<'a>(inner: T) -> (r: RawChannel<dyn PollSink<Input, Error> + 'a, Output, Input, Error>) where
        T: PollSink<Input, Error> + 'a,

        ensures
            r@ == write_only(),
            same_sink(&r, &inner),
    {
        let raw = RawChannel {
            header: FramedHeader { stream_vtable: None, sink_vtable: Some(SinkVtable::new::<T>()) },
            inner: ManuallyDrop::new(Box::new(inner)),
        };
        erase_write(raw)
    }

    /// Erases an object that is both: the channel carries both tables.
    pub fn new_framed<'a>(inner: T) -> (r: RawChannel<
        dyn PollStreamSink<Output, Input, Error> + 'a,
        Output,
        Input,
        Error,
    >) where T: PollStream<Output> + PollSink<Input, Error> + 'a,

        ensures
            r@ == read_write(),
            same_stream(&r, &inner),
            same_sink(&r, &inner),
    {
        let raw = RawChannel {
            header: FramedHeader {
                stream_vtable: Some(StreamVtable::new::<T>()),
                sink_vtable: Some(SinkVtable::new::<T>()),
            },
            inner: ManuallyDrop::new(Box::new(inner)),
        };
        erase_framed(raw)
    }
}

impl<T: ?Sized + PollStream<Output>, Output, Input, Error> RawChannel<T, Output, Input, Error> {
    /// Looks up the stream table and calls its entry: polls the object for its next
    /// item.
    pub fn poll_next(&mut self, cx: &mut Context<'_>) -> (r: Poll<Option<Output>>)
        requires
            old(self)@.stream,
        ensures
            final(self)@ == old(self)@,
            polled(old(self), r, final(self)),
    {
        let vtable = self.header.stream_vtable.as_ref().unwrap();
        vtable.poll_next(held_mut(&mut self.inner), cx)
    }
}

impl<T: ?Sized + PollSink<Input, Error>, Output, Input, Error> RawChannel<T, Output, Input, Error> {
    /// Looks up the sink table and calls its entry for `poll_ready`.
    pub fn poll_ready(&mut self, cx: &mut Context<'_>) -> (r: Poll<Result<(), Error>>)
        requires
            old(self)@.sink,
        ensures
            final(self)@ == old(self)@,
            sank(old(self), SinkEvent::Ready(r), final(self)),
    {
        let vtable = self.header.sink_vtable.as_ref().unwrap();
        vtable.poll_ready(held_mut(&mut self.inner), cx)
    }

    /// Looks up the sink table and calls its entry for `start_send`: hands `item` to
    /// the object.
    pub fn start_send(&mut self, item: Input) -> (r: Result<(), Error>)
        requires
            old(self)@.sink,
        ensures
            final(self)@ == old(self)@,
            sank(old(self), SinkEvent::Send(item, r), final(self)),
    {
        let vtable = self.header.sink_vtable.as_ref().unwrap();
        vtable.start_send(held_mut(&mut self.inner), item)
    }

    /// Looks up the sink table and calls its entry for `poll_flush`.
    pub fn poll_flush(&mut self, cx: &mut Context<'_>) -> (r: Poll<Result<(), Error>>)
        requires
            old(self)@.sink,
        ensures
            final(self)@ == old(self)@,
            sank(old(self), SinkEvent::Flush(r), final(self)),
    {
        let vtable = self.header.sink_vtable.as_ref().unwrap();
        vtable.poll_flush(held_mut(&mut self.inner), cx)
    }

    /// Looks up the sink table and calls its entry for `poll_close`.
    pub fn poll_close(&mut self, cx: &mut Context<'_>) -> (r: Poll<Result<(), Error>>)
        requires
            old(self)@.sink,
        ensures
            final(self)@ == old(self)@,
            sank(old(self), SinkEvent::Close(r), final(self)),
    {
        let vtable = self.header.sink_vtable.as_ref().unwrap();
        vtable.poll_close(held_mut(&mut self.inner), cx)
    }
}

} // verus!
