use vstd::prelude::*;
use std::task::{Context, Poll};

use crate::poll::{PollStream, StreamAnswers, Tables, polled, read_only, same_stream};
use crate::raw::RawChannel;

verus! {

/// A stream of erased type, yielding `Output`s; it holds its object for `'a`.
#[verifier::reject_recursive_types(Output)]
pub struct ErasureRead<'a, Output> {
    raw: RawChannel<dyn PollStream<Output> + 'a, Output, (), ()>,
}

impl<'a, Output> View for ErasureRead<'a, Output> {
    type V = Tables;

    closed spec fn view(&self) -> Tables {
        self.raw@
    }
}

/// The handle answers as the object behind it does.
impl<'a, Output> StreamAnswers<Output> for ErasureRead<'a, Output> {
    closed spec fn next_answer(&self, past: Seq<Poll<Option<Output>>>, r: Poll<Option<Output>>) -> bool {
        self.raw.next_answer(past, r)
    }
}

impl<'a, Output> ErasureRead<'a, Output> {
    /// Erases the stream `inner`: only the stream table is present.
    pub fn new<T>(inner: T) -> (r: Self) where T: PollStream<Output> + 'a
        ensures
            r@ == read_only(),
            same_stream(&r, &inner),
    {
        ErasureRead { raw: RawChannel::new_read(inner) }
    }

    /// Reads which tables the handle carries.
    pub fn tables(&self) -> (t: Tables)
        ensures
            t == self@,
    {
        self.raw.tables()
    }

    /// Polls the erased stream for its next item.
    pub fn poll_next(&mut self, cx: &mut Context<'_>) -> (r: Poll<Option<Output>>)
        requires
            old(self)@.stream,
        ensures
            final(self)@ == old(self)@,
            polled(old(self), r, final(self)),
    {
        self.raw.poll_next(cx)
    }
}

} // verus!
