use vstd::prelude::*;
use std::marker::PhantomData;
use std::mem::ManuallyDrop;
use std::task::{Context, Poll};

use crate::poll::{FutureAnswers, PollFuture, polled_future, same_future};
use crate::raw::held_mut;

verus! {

/// Erases any future: `fut.to_any_future()` is a future of the same output whose type
/// names only that output.
pub trait AnyFutureEx<Output>: PollFuture<Output> {
    fn to_any_future(self) -> (r: AnyFuture<Output>) where Self: Sized + 'static
        ensures
            same_future(&r, &self),
    {
        AnyFuture::new(self)
    }
}

impl<T: ?Sized + PollFuture<Output>, Output> AnyFutureEx<Output> for T {

}

/// The table that leads to the poll operation of an erased future.
pub struct AnyFutureVTable<Output> {
    _output: PhantomData<Output>,
}

impl<Output> AnyFutureVTable<Output> {
    /// The table of a future of type `Fut`.
    pub fn new<Fut: ?Sized + PollFuture<Output>>() -> Self {
        AnyFutureVTable { _output: PhantomData }
    }

    /// The table's entry: polls the future.
    pub fn poll_next<Fut: ?Sized + PollFuture<Output>>(&self, inner: &mut Fut, cx: &mut Context<'_>) -> (r: Poll<Output>)
        ensures
            polled_future(old(inner), r, final(inner)),
    {
        inner.poll(cx)
    }
}

/// A future together with its table. The future is never released: dropping this
/// leaves it in place, undropped.
struct AnyFutureImpl<Fut: ?Sized, Output> {
    vtable: AnyFutureVTable<Output>,
    inner: ManuallyDrop<Box<Fut>>,
}

/// The future answers as the boxed one does.
impl<Fut: ?Sized + FutureAnswers<Output>, Output> FutureAnswers<Output> for AnyFutureImpl<Fut, Output> {
    closed spec fn poll_answer(&self, past: Seq<Poll<Output>>, r: Poll<Output>) -> bool {
        (*self.inner@).poll_answer(past, r)
    }
}

impl<Fut: ?Sized + PollFuture<Output>, Output> AnyFutureImpl<Fut, Output> {
    /// Calls the table's entry on the future.
    fn poll_next(&mut self, cx: &mut Context<'_>) -> (r: Poll<Output>)
        ensures
            polled_future(old(self), r, final(self)),
    {
        self.vtable.poll_next(held_mut(&mut self.inner), cx)
    }
}

/// Erases the type of a future: the unsizing coercion of its `Box<Fut>` into a boxed
/// trait object (std's `CoerceUnsized` for `Box`), the table moved as it is. The trait
/// object is the same boxed value and its methods are those of `Fut`; the contract
/// claims that the future therefore answers as before, and nothing else.
#[verifier::external_body]
fn erase_future<Fut: PollFuture<Output> + 'static, Output>(boxed: AnyFutureImpl<Fut, Output>) -> (r: AnyFutureImpl<
    dyn PollFuture<Output>,
    Output,
>)
    ensures
        same_future(&r, &boxed),
{
    let typed: Box<Fut> = ManuallyDrop::into_inner(boxed.inner);
    let object: Box<dyn PollFuture<Output>> = typed;
    AnyFutureImpl { vtable: boxed.vtable, inner: ManuallyDrop::new(object) }
}

/// A future of erased type, completing with an `Output`.
#[verifier::reject_recursive_types(Output)]
pub struct AnyFuture<Output> {
    ptr: AnyFutureImpl<dyn PollFuture<Output>, Output>,
}

/// The handle answers as the future behind it does.
impl<Output> FutureAnswers<Output> for AnyFuture<Output> {
    closed spec fn poll_answer(&self, past: Seq<Poll<Output>>, r: Poll<Output>) -> bool {
        self.ptr.poll_answer(past, r)
    }
}

impl<Output> AnyFuture<Output> {
    fn new<Fut>(inner: Fut) -> (r: Self) where Fut: PollFuture<Output> + 'static
        ensures
            same_future(&r, &inner),
    {
        let vtable = AnyFutureVTable::new::<Fut>();
        let boxed = AnyFutureImpl { vtable, inner: ManuallyDrop::new(Box::new(inner)) };
        AnyFuture { ptr: erase_future(boxed) }
    }

    /// Polls the erased future.
    pub fn poll(&mut self, cx: &mut Context<'_>) -> (r: Poll<Output>)
        ensures
            polled_future(old(self), r, final(self)),
    {
        self.ptr.poll_next(cx)
    }
}

} // verus!
