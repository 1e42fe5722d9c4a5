use vstd::prelude::*;
use core::task::{Context, Poll, Waker};
use futures::future::{FutureExt, LocalFutureObj};
use futures::task::UnsafeFutureObj;

pub mod waker;
pub mod local_pool;
pub mod local_pool_busy;

pub use crate::local_pool::{LocalPool, Spawner};
pub use crate::local_pool_busy::{LocalPool as BusyLocalPool, PoolError, Spawner as BusySpawner};
pub use crate::waker::{AlwaysWake, SimpleWaker, SingleWake};

verus! {

/// std's `Poll`, with its two variants visible to contracts.
#[verifier::external_type_specification]
pub struct ExPoll<T>(Poll<T>);

/// std's `Waker`, carried through unopened.
#[verifier::external_type_specification]
#[verifier::external_body]
pub struct ExWaker(Waker);

#[verifier::external_type_specification]
#[verifier::external_body]
pub struct ExContext<'a>(Context<'a>);

/// Relies on std's Context::from_waker: a context that hands out the given waker.
pub assume_specification<'a>[ Context::<'a>::from_waker ](waker: &'a Waker) -> Context<'a>;

/// Relies on futures::task::noop_waker_ref: a shared waker whose wake does nothing and
/// which allocates nothing.
#[verifier::external_body]
fn noop_waker() -> (r: &'static Waker) {
    futures::task::noop_waker_ref()
}

/// A context whose waker does nothing. Every pool polls its tasks with it: futures' no-op
/// waker behaves as `AlwaysWake` does, while a handle built over `AlwaysWake` itself needs
/// raw pointers, which this library does not hold.
pub(crate) fn noop_context() -> (r: Context<'static>) {
    Context::from_waker(noop_waker())
}

/// Runs `f` once with a context whose waker does nothing, and returns what `f` returns.
pub fn poll_fn<T, F: FnOnce(&mut Context<'_>) -> T>(f: F) -> (r: T)
    requires
        forall|cx: &mut Context<'_>| f.requires((cx,)),
    ensures
        exists|cx: &mut Context<'_>| f.ensures((cx,), r),
{
    let mut cx = noop_context();
    f(&mut cx)
}

/// futures' type-erased task, carried through unopened.
#[verifier::external_type_specification]
#[verifier::external_body]
#[verifier::reject_recursive_types(T)]
pub struct ExLocalFutureObj<'a, T>(LocalFutureObj<'a, T>);

/// Relies on futures' LocalFutureObj::new: boxes nothing, only erases the task's type.
#[verifier::external_body]
pub(crate) fn new_task<'a, T, F: UnsafeFutureObj<'a, T> + 'a>(f: F) -> (r: LocalFutureObj<'a, T>) {
    LocalFutureObj::new(f)
}

/// Relies on futures' FutureExt::poll_unpin: polls the task once with the given context.
#[verifier::external_body]
pub(crate) fn poll_task<'a, T>(task: &mut LocalFutureObj<'a, T>, cx: &mut Context<'_>) -> (r: Poll<T>) {
    task.poll_unpin(cx)
}

/// The completion that one poll step surfaces: its result, or `Pending` when the step
/// found the pool empty or completed nothing.
pub open spec fn one_completion<Ret>(p: Poll<Option<Ret>>) -> Poll<Ret> {
    match p {
        Poll::Ready(Some(v)) => Poll::Ready(v),
        _ => Poll::Pending,
    }
}

/// Reduces a poll step to at most one completion.
pub fn completion<Ret>(p: Poll<Option<Ret>>) -> (r: Poll<Ret>)
    ensures
        r == one_completion(p),
{
    match p {
        Poll::Ready(Some(v)) => Poll::Ready(v),
        Poll::Ready(None) => Poll::Pending,
        Poll::Pending => Poll::Pending,
    }
}

/// What a run holds after one more poll step: a completion is appended, anything else
/// leaves the results as they were.
pub open spec fn gathered<Ret>(results: Seq<Ret>, p: Poll<Option<Ret>>) -> Seq<Ret> {
    match p {
        Poll::Ready(Some(v)) => results.push(v),
        _ => results,
    }
}

/// Records one poll step of a run; true when the step found the pool empty, which ends
/// the run.
pub fn gather<Ret>(results: &mut Vec<Ret>, p: Poll<Option<Ret>>) -> (finished: bool)
    ensures
        final(results)@ == gathered(old(results)@, p),
        finished == (p == Poll::<Option<Ret>>::Ready(None)),
{
    match p {
        Poll::Ready(Some(v)) => {
            results.push(v);
            false
        },
        Poll::Ready(None) => true,
        Poll::Pending => false,
    }
}

/// `one_completion` yields a value exactly for `Ready(Some(_))`; for `Ready(None)` and
/// `Pending` alike it yields `Pending`.
pub proof fn completion_only_from_a_result<Ret>(p: Poll<Option<Ret>>)
    ensures
        one_completion(p) is Ready <==> (p matches Poll::Ready(Some(_))),
        p == Poll::<Option<Ret>>::Ready(None) ==> one_completion(p) == Poll::<Ret>::Pending,
{
}

/// `gathered` appends the value of `Ready(Some(v))` at the end, and leaves the sequence as it
/// is for `Ready(None)` and `Pending`.
pub proof fn run_gains_one_per_completion<Ret>(results: Seq<Ret>, p: Poll<Option<Ret>>)
    ensures
        p matches Poll::Ready(Some(v)) ==> gathered(results, p) == results.push(v),
        !(p matches Poll::Ready(Some(_))) ==> gathered(results, p) == results,
        gathered(results, p).len() == results.len() + if p matches Poll::Ready(Some(_)) { 1int } else { 0int },
{
}

/// `gathered` keeps an empty sequence empty under `Ready(None)`, applied once or twice.
pub proof fn drained_run_is_empty<Ret>(results: Seq<Ret>)
    requires
        results.len() == 0,
    ensures
        gathered(results, Poll::<Option<Ret>>::Ready(None)).len() == 0,
        gathered(gathered(results, Poll::<Option<Ret>>::Ready(None)), Poll::<Option<Ret>>::Ready(None)).len() == 0,
{
}

} // verus!
