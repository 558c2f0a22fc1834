use vstd::prelude::*;
use std::task::{Context, Poll};

use crate::poll::{PollSink, SinkAnswers, SinkEvent, Tables, same_sink, sank, write_only};
use crate::raw::RawChannel;

verus! {

/// A sink of erased type, taking `Input`s; it holds its object for `'a`.
#[verifier::reject_recursive_types(Input)]
#[verifier::reject_recursive_types(Error)]
pub struct ErasureWrite<'a, Input, Error> {
    raw: RawChannel<dyn PollSink<Input, Error> + 'a, (), Input, Error>,
}

impl<'a, Input, Error> View for ErasureWrite<'a, Input, Error> {
    type V = Tables;

    closed spec fn view(&self) -> Tables {
        self.raw@
    }
}

/// The handle answers as the object behind it does.
impl<'a, Input, Error> SinkAnswers<Input, Error> for ErasureWrite<'a, Input, Error> {
    closed spec fn sink_answer(&self, past: Seq<SinkEvent<Input, Error>>, e: SinkEvent<Input, Error>) -> bool {
        self.raw.sink_answer(past, e)
    }
}

impl<'a, Input, Error> ErasureWrite<'a, Input, Error> {
    /// Erases the sink `inner`: only the sink table is present.
    pub fn new<T>(inner: T) -> (r: Self) where T: PollSink<Input, Error> + 'a
        ensures
            r@ == write_only(),
            same_sink(&r, &inner),
    {
        ErasureWrite { raw: RawChannel::new_write(inner) }
    }

    /// Reads which tables the handle carries.
    pub fn tables(&self) -> (t: Tables)
        ensures
            t == self@,
    {
        self.raw.tables()
    }

    /// Asks the erased sink whether it is ready to take an item.
    pub fn poll_ready(&mut self, cx: &mut Context<'_>) -> (r: Poll<Result<(), Error>>)
        requires
            old(self)@.sink,
        ensures
            final(self)@ == old(self)@,
            sank(old(self), SinkEvent::Ready(r), final(self)),
    {
        self.raw.poll_ready(cx)
    }

    /// Asks the erased sink to close.
    pub fn poll_close(&mut self, cx: &mut Context<'_>) -> (r: Poll<Result<(), Error>>)
        requires
            old(self)@.sink,
        ensures
            final(self)@ == old(self)@,
            sank(old(self), SinkEvent::Close(r), final(self)),
    {
        self.raw.poll_close(cx)
    }

    /// Asks the erased sink to flush what it has taken.
    pub fn poll_flush(&mut self, cx: &mut Context<'_>) -> (r: Poll<Result<(), Error>>)
        requires
            old(self)@.sink,
        ensures
            final(self)@ == old(self)@,
            sank(old(self), SinkEvent::Flush(r), final(self)),
    {
        self.raw.poll_flush(cx)
    }

    /// Hands `item` to the erased sink.
    pub fn start_send(&mut self, item: Input) -> (r: Result<(), Error>)
        requires
            old(self)@.sink,
        ensures
            final(self)@ == old(self)@,
            sank(old(self), SinkEvent::Send(item, r), final(self)),
    {
        self.raw.start_send(item)
    }
}

} // verus!
