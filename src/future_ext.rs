use crate::error::AsyncError;
use std::future::Future;
use std::marker::PhantomData;
use vstd::prelude::*;

verus! {

/// What one drive of an inner operation reports: a result, or that it is
/// still suspended.
pub enum Progress<T> {
    Ready(T),
    Pending,
}

/// Adds `.with_context(..)` to every operation that produces a `Result`.
pub trait AsyncResultExt<T, E>: Future<Output = Result<T, E>> + Sized {
    /// Wraps this operation so that a failure comes out with a context string,
    /// computed by `ctx` from the failure only when there is one.
    fn with_context<C>(self, ctx: C) -> (r: WithContext<Self, E, C>)
        where C: FnOnce(&E) -> String,
        ensures
            r.spec_future() == self,
            r.context_fn() == Some(ctx),
    {
        WithContext::new(self, ctx)
    }
}

impl<T, E, Fut> AsyncResultExt<T, E> for Fut where Fut: Future<Output = Result<T, E>> + Sized {}

/// The context-attaching relay: the wrapped operation, and the one-shot
/// function that computes a context from a failure.
pub struct WithContext<Fut, E, C> {
    pub future: Fut,
    context: Option<C>,
    _marker: PhantomData<E>,
}

impl<Fut, E, C> WithContext<Fut, E, C> {
    /// The wrapped operation.
    pub closed spec fn spec_future(&self) -> Fut {
        self.future
    }

    /// The context function, until a failure has consumed it.
    pub closed spec fn context_fn(&self) -> Option<C> {
        self.context
    }

    /// Whether the context function is still held, that is, no failure has
    /// been relayed yet.
    pub fn has_context(&self) -> (r: bool)
        ensures
            r == self.context_fn() is Some,
    {
        self.context.is_some()
    }

    /// Wraps `future`, holding `ctx` for its failure.
    pub fn new(future: Fut, ctx: C) -> (r: Self)
        ensures
            r.spec_future() == future,
            r.context_fn() == Some(ctx),
    {
        WithContext { future, context: Some(ctx), _marker: PhantomData }
    }

    /// Relays what one drive of the wrapped operation reported. A suspension is
    /// passed on and a success passes through, both leaving the context function
    /// untouched and uncalled. A failure consumes the context function, calls it
    /// once on the failure, and comes out wrapped with that context; no observer
    /// runs here. A failure after the function is used up is a misuse, which the
    /// precondition rules out.
    pub fn on_inner<T>(&mut self, inner: Progress<Result<T, E>>) -> (r: Progress<
        Result<T, AsyncError<E>>,
    >) where C: FnOnce(&E) -> String
        requires
            inner matches Progress::Ready(Err(e)) ==> (old(self).context_fn() matches Some(f)
                && f.requires((&e,))),
        ensures
            inner is Pending ==> r is Pending && *final(self) == *old(self),
            inner matches Progress::Ready(Ok(v)) ==> r == Progress::<Result<T, AsyncError<E>>>::Ready(
                Ok(v),
            ) && *final(self) == *old(self),
            inner matches Progress::Ready(Err(e)) ==> {
                &&& final(self).spec_future() == old(self).spec_future()
                &&& final(self).context_fn() is None
                &&& r matches Progress::Ready(Err(w))
                &&& w.spec_error() == e
                &&& old(self).context_fn() matches Some(f) && exists|s: String| #[trigger]
                    f.ensures((&e,), s) && w.spec_context() == Some(s@)
            },
    {
        match inner {
            Progress::Pending => Progress::Pending,
            Progress::Ready(Ok(v)) => Progress::Ready(Ok(v)),
            Progress::Ready(Err(e)) => {
                let f = self.context.take().unwrap();
                let ctx = f(&e);
                Progress::Ready(Err(AsyncError::new(e).with_context(ctx)))
            },
        }
    }
}

/// Adds `.and_then_async(..)` to every operation that produces a `Result`.
pub trait AsyncResultChainExt<T, E>: Future<Output = Result<T, E>> + Sized {
    /// Sequences this operation with the one that `f` makes from its success
    /// value; a failure of this one ends the chain and `f` is never called.
    fn and_then_async<Fut, F, U>(self, f: F) -> (r: AndThenAsync<Self, Fut, F>)
        where F: FnOnce(T) -> Fut, Fut: Future<Output = Result<U, E>>,
        ensures
            r.state == AndThenAsyncState::<Self, Fut, F>::First(self, Some(f)),
    {
        AndThenAsync::new(self, f)
    }
}

impl<T, E, F> AsyncResultChainExt<T, E> for F where F: Future<Output = Result<T, E>> + Sized {}

/// Where a chain stands: driving the first operation (with the continuation
/// not yet used), driving the second, or finished.
pub enum AndThenAsyncState<Fut1, Fut2, F> {
    First(Fut1, Option<F>),
    Second(Fut2),
    Done,
}

/// Two dependent operations run one after the other.
pub struct AndThenAsync<Fut1, Fut2, F> {
    pub state: AndThenAsyncState<Fut1, Fut2, F>,
}

impl<Fut1, Fut2, F> AndThenAsync<Fut1, Fut2, F> {
    /// The chain may be driven: it is not finished, and while on the first
    /// operation it still holds its continuation.
    pub open spec fn drivable(&self) -> bool {
        match self.state {
            AndThenAsyncState::First(_, c) => c is Some,
            AndThenAsyncState::Second(_) => true,
            AndThenAsyncState::Done => false,
        }
    }

    /// Starts a chain on `first`, holding `f` for its success value.
    pub fn new(first: Fut1, f: F) -> (r: Self)
        ensures
            r.state == AndThenAsyncState::<Fut1, Fut2, F>::First(first, Some(f)),
            r.drivable(),
    {
        AndThenAsync { state: AndThenAsyncState::First(first, Some(f)) }
    }

    /// Whether the chain has finished; driving it after that is a misuse.
    pub fn is_done(&self) -> (r: bool)
        ensures
            r == self.state is Done,
    {
        match self.state {
            AndThenAsyncState::Done => true,
            _ => false,
        }
    }

    /// Takes the first operation's result. A success is handed to the
    /// continuation, called exactly once, and the chain moves on to the operation
    /// it returns, to be driven in the same resumption (`None` comes back). A
    /// failure finishes the chain and comes back unchanged; the continuation is
    /// dropped uncalled.
    pub fn on_first_ready<T, U, E>(&mut self, outcome: Result<T, E>) -> (r: Option<Result<U, E>>)
        where F: FnOnce(T) -> Fut2
        requires
            old(self).state matches AndThenAsyncState::First(_, Some(f)) && (outcome matches Ok(v)
                ==> f.requires((v,))),
        ensures
            old(self).state matches AndThenAsyncState::First(_, Some(f)) && match outcome {
                Ok(v) => {
                    &&& r is None
                    &&& final(self).state matches AndThenAsyncState::Second(next)
                    &&& f.ensures((v,), next)
                },
                Err(e) => r == Some(Err::<U, E>(e)) && final(self).state is Done,
            },
            final(self).state is Second ==> final(self).drivable(),
    {
        let cont = match &mut self.state {
            AndThenAsyncState::First(_, c) => c.take(),
            _ => None,
        };
        match cont {
            Some(f) => match outcome {
                Ok(v) => {
                    let next = f(v);
                    self.state = AndThenAsyncState::Second(next);
                    None
                },
                Err(e) => {
                    self.state = AndThenAsyncState::Done;
                    Some(Err(e))
                },
            },
            None => None,
        }
    }

    /// Takes the second operation's result: the chain finishes and the result
    /// comes back as it is, success or failure.
    pub fn on_second_ready<U, E>(&mut self, outcome: Result<U, E>) -> (r: Result<U, E>)
        requires
            old(self).state is Second,
        ensures
            r == outcome,
            final(self).state is Done,
    {
        self.state = AndThenAsyncState::Done;
        outcome
    }
}

/// A finished chain can no longer be driven: neither `on_first_ready` nor
/// `on_second_ready` may be called on it, so a verified caller never drives a
/// chain after it is done, and an unverified driver must stop with a panic.
pub proof fn lemma_done_is_final<Fut1, Fut2, F>(chain: AndThenAsync<Fut1, Fut2, F>)
    requires
        chain.state is Done,
    ensures
        !chain.drivable(),
        !(chain.state matches AndThenAsyncState::First(_, Some(_))),
        !(chain.state is Second),
{
}

} // verus!
