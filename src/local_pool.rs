use vstd::prelude::*;
use core::task::{Context, Poll};
use crossbeam::channel::{Receiver, SendError, Sender, TryRecvError};
use futures::future::{FutureObj, LocalFutureObj};
use futures::stream::{FuturesUnordered, StreamExt};
use futures::task::{SpawnError, UnsafeFutureObj};
use crate::{completion, new_task, noop_context, one_completion};

verus! {

#[verifier::external_type_specification]
#[verifier::external_body]
#[verifier::reject_recursive_types(Fut)]
pub struct ExFuturesUnordered<Fut>(FuturesUnordered<Fut>);

#[verifier::external_type_specification]
#[verifier::external_body]
#[verifier::reject_recursive_types(T)]
pub struct ExSender<T>(Sender<T>);

#[verifier::external_type_specification]
#[verifier::external_body]
#[verifier::reject_recursive_types(T)]
pub struct ExReceiver<T>(Receiver<T>);

#[verifier::external_type_specification]
#[verifier::external_body]
#[verifier::reject_recursive_types(T)]
pub struct ExSendError<T>(SendError<T>);

#[verifier::external_type_specification]
#[verifier::external_body]
pub struct ExTryRecvError(TryRecvError);

#[verifier::external_type_specification]
#[verifier::external_body]
#[verifier::reject_recursive_types(T)]
pub struct ExFutureObj<'a, T>(FutureObj<'a, T>);

#[verifier::external_type_specification]
#[verifier::external_body]
pub struct ExSpawnError(SpawnError);

/// Relies on futures' SpawnError::shutdown: the error that reports a pool gone.
pub assume_specification[ SpawnError::shutdown ]() -> SpawnError;

/// Relies on crossbeam's channel::unbounded: a connected sender and receiver.
#[verifier::external_body]
fn unbounded<T>() -> (r: (Sender<T>, Receiver<T>)) {
    crossbeam::channel::unbounded()
}

/// Relies on crossbeam's Sender::clone: another sender on the same channel.
#[verifier::external_body]
fn clone_sender<T>(tx: &Sender<T>) -> (r: Sender<T>) {
    tx.clone()
}

/// Relies on crossbeam's Sender::send: an error once every receiver is gone.
#[verifier::external_body]
fn send<T>(tx: &Sender<T>, msg: T) -> (r: Result<(), SendError<T>>) {
    tx.send(msg)
}

/// Relies on crossbeam's Receiver::try_recv: the next queued message, if any.
#[verifier::external_body]
fn try_recv<T>(rx: &Receiver<T>) -> (r: Result<T, TryRecvError>) {
    rx.try_recv()
}

/// Relies on crossbeam's Receiver::len: the number of messages queued when it is read.
#[verifier::external_body]
fn queued<T>(rx: &Receiver<T>) -> (r: usize) {
    rx.len()
}

/// The pool's unordered set of live tasks, with a count of the tasks it holds.
#[verifier::reject_recursive_types(Ret)]
struct TaskSet<'a, Ret> {
    inner: FuturesUnordered<LocalFutureObj<'a, Ret>>,
    held: Ghost<nat>,
}

impl<'a, Ret> TaskSet<'a, Ret> {
    /// The number of tasks in the set.
    closed spec fn len(&self) -> nat {
        self.held@
    }

    /// Relies on futures' FuturesUnordered::new: an empty set.
    #[verifier::external_body]
    fn new() -> (r: Self)
        ensures
            r.len() == 0,
    {
        TaskSet { inner: FuturesUnordered::new(), held: Ghost(0) }
    }

    /// Relies on futures' FuturesUnordered::push: the set holds one more task.
    #[verifier::external_body]
    fn push(&mut self, fut: LocalFutureObj<'a, Ret>)
        ensures
            final(self).len() == old(self).len() + 1,
    {
        self.inner.push(fut)
    }

    /// Relies on futures' StreamExt::poll_next_unpin on a FuturesUnordered: `Ready(None)`
    /// exactly when the set is empty; a result of a task that completed, which leaves the
    /// set; or `Pending` when none completed, with every task kept.
    #[verifier::external_body]
    fn poll_next(&mut self, cx: &mut Context<'_>) -> (r: Poll<Option<Ret>>)
        ensures
            r == Poll::<Option<Ret>>::Ready(None) <==> old(self).len() == 0,
            r matches Poll::Ready(Some(_)) ==> final(self).len() + 1 == old(self).len(),
            !(r matches Poll::Ready(Some(_))) ==> final(self).len() == old(self).len(),
    {
        self.inner.poll_next_unpin(cx)
    }
}

/// Relies on futures' FutureObj::new: erases the task's type, keeping it `Send`.
#[verifier::external_body]
fn new_sendable_task<Ret, F: UnsafeFutureObj<'static, Ret> + Send>(f: F) -> (r: FutureObj<'static, Ret>) {
    FutureObj::new(f)
}

/// Relies on futures' `From<FutureObj>` for LocalFutureObj: the same task, no longer `Send`.
#[verifier::external_body]
fn into_local<'a, Ret>(fut: FutureObj<'static, Ret>) -> (r: LocalFutureObj<'a, Ret>) {
    LocalFutureObj::from(fut)
}

/// The spawner's report of a send: a channel whose pool is gone reports shutdown.
pub fn sent_outcome<T>(sent: Result<(), SendError<T>>) -> (r: Result<(), SpawnError>)
    ensures
        r is Ok <==> sent is Ok,
{
    match sent {
        Ok(()) => Ok(()),
        Err(_) => Err(SpawnError::shutdown()),
    }
}

/// A single-threaded pool over an unordered set of tasks, fed directly by its owner and
/// through a channel by spawners on any thread.
#[verifier::reject_recursive_types(Ret)]
pub struct LocalPool<'a, Ret> {
    pool: TaskSet<'a, Ret>,
    rx: Receiver<FutureObj<'static, Ret>>,
    tx: Sender<FutureObj<'static, Ret>>,
}

/// A handle that sends tasks to a pool's channel.
#[verifier::reject_recursive_types(Ret)]
pub struct Spawner<Ret> {
    tx: Sender<FutureObj<'static, Ret>>,
}

impl<Ret> Clone for Spawner<Ret> {
    fn clone(&self) -> (r: Self) {
        Spawner { tx: clone_sender(&self.tx) }
    }
}

impl<Ret> Spawner<Ret> {
    /// Sends a task to the pool; a shutdown error once the pool is gone.
    pub fn spawn<F: UnsafeFutureObj<'static, Ret> + Send + 'static>(&self, f: F) -> (r: Result<(), SpawnError>) {
        sent_outcome(send(&self.tx, new_sendable_task(f)))
    }
}

impl<'a, Ret> LocalPool<'a, Ret> {
    /// The number of tasks in the pool's set; tasks still queued on the channel are not
    /// counted until a poll step admits them.
    pub closed spec fn len(&self) -> nat {
        self.pool.len()
    }

    /// An empty pool with an empty channel.
    pub fn new() -> (r: Self)
        ensures
            r.len() == 0,
    {
        let (tx, rx) = unbounded();
        LocalPool { pool: TaskSet::new(), rx, tx }
    }

    /// A handle that feeds this pool from any thread.
    pub fn spawner(&self) -> (r: Spawner<Ret>) {
        Spawner { tx: clone_sender(&self.tx) }
    }

    /// Adds a task to the set directly.
    pub fn spawn<F: UnsafeFutureObj<'a, Ret> + 'a>(&mut self, f: F)
        ensures
            final(self).len() == old(self).len() + 1,
    {
        self.pool.push(new_task(f))
    }

    /// Moves the tasks queued on the channel when the call starts into the set.
    fn take_queued(&mut self)
        ensures
            final(self).len() >= old(self).len(),
    {
        let n = queued(&self.rx);
        let mut i: usize = 0;
        while i < n
            invariant
                i <= n,
                self.len() >= old(self).len(),
            decreases n - i,
        {
            match try_recv(&self.rx) {
                Ok(fut) => {
                    self.pool.push(into_local(fut));
                    i = i + 1;
                },
                Err(_) => {
                    i = n;
                },
            }
        }
    }

    /// Admits the queued tasks, then polls the set once: `Ready(None)` when the set is
    /// empty, `Pending` when nothing completed, else the result of one task that completed,
    /// which leaves the pool. The context's waker does nothing: it is futures' no-op waker,
    /// which behaves as `AlwaysWake` and needs no raw pointer here.
    pub fn poll_once(&mut self) -> (r: Poll<Option<Ret>>)
        ensures
            r == Poll::<Option<Ret>>::Ready(None) ==> old(self).len() == 0 && final(self).len() == 0,
            old(self).len() > 0 ==> r != Poll::<Option<Ret>>::Ready(None),
            r matches Poll::Ready(Some(_)) ==> final(self).len() + 1 >= old(self).len(),
            r is Pending ==> final(self).len() >= old(self).len() && final(self).len() > 0,
    {
        self.take_queued();
        let mut cx = noop_context();
        self.pool.poll_next(&mut cx)
    }

    /// Surfaces at most one completion: `Ready` with its result, else `Pending`, also when
    /// the pool is empty.
    pub fn try_run_one(&mut self) -> (r: Poll<Ret>)
        ensures
            exists|p: Poll<Option<Ret>>| {
                &&& r == one_completion(p)
                &&& p matches Poll::Ready(Some(_)) ==> final(self).len() + 1 >= old(self).len()
                &&& !(p matches Poll::Ready(Some(_))) ==> final(self).len() >= old(self).len()
                &&& old(self).len() > 0 ==> p != Poll::<Option<Ret>>::Ready(None)
            },
            r is Pending ==> final(self).len() >= old(self).len(),
            r is Ready ==> final(self).len() + 1 >= old(self).len(),
    {
        let p = self.poll_once();
        completion(p)
    }
}

impl<'a, Ret> Default for LocalPool<'a, Ret> {
    fn default() -> (r: Self) {
        Self::new()
    }
}

} // verus!
