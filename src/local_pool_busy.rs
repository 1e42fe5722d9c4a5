use vstd::prelude::*;
use std::sync::{Arc, Weak};
use core::task::{Context, Poll};
use crossbeam::queue::ArrayQueue;
use futures::future::LocalFutureObj;
use futures::task::UnsafeFutureObj;
use crate::{completion, new_task, noop_context, poll_task};

verus! {

#[verifier::external_type_specification]
#[verifier::external_body]
#[verifier::reject_recursive_types(T)]
pub struct ExArrayQueue<T>(ArrayQueue<T>);

/// A non-owning reference to a shared queue. std's `Weak` carries an allocator parameter,
/// so it is held here rather than declared.
#[verifier::external_body]
#[verifier::reject_recursive_types(T)]
struct WeakQueue<T> {
    inner: Weak<ArrayQueue<T>>,
}

impl<T> Clone for WeakQueue<T> {
    /// Relies on std's Weak::clone: another non-owning reference to the same queue.
    #[verifier::external_body]
    fn clone(&self) -> (r: Self) {
        WeakQueue { inner: Weak::clone(&self.inner) }
    }
}

/// Relies on crossbeam's ArrayQueue::new, which panics on a zero capacity.
#[verifier::external_body]
fn new_queue<T>(cap: usize) -> (r: Arc<ArrayQueue<T>>)
    requires
        cap > 0,
{
    Arc::new(ArrayQueue::new(cap))
}

/// Relies on crossbeam's ArrayQueue::push: a full queue hands the value back unchanged.
#[verifier::external_body]
fn queue_push<T>(q: &ArrayQueue<T>, value: T) -> (r: Result<(), T>)
    ensures
        r matches Err(v) ==> v == value,
{
    q.push(value)
}

/// Relies on crossbeam's ArrayQueue::pop: the front value, or `None` on an empty queue.
#[verifier::external_body]
fn queue_pop<T>(q: &ArrayQueue<T>) -> (r: Option<T>) {
    q.pop()
}

/// Relies on crossbeam's ArrayQueue::len: the number of values held when it is read.
#[verifier::external_body]
fn queue_len<T>(q: &ArrayQueue<T>) -> (r: usize) {
    q.len()
}

/// Relies on std's Arc::downgrade: a reference that does not keep the queue alive.
#[verifier::external_body]
fn downgrade<T>(q: &Arc<ArrayQueue<T>>) -> (r: WeakQueue<T>) {
    WeakQueue { inner: Arc::downgrade(q) }
}

/// Relies on std's Weak::upgrade: `None` once every strong owner is gone.
#[verifier::external_body]
fn upgrade<T>(w: &WeakQueue<T>) -> (r: Option<Arc<ArrayQueue<T>>>) {
    w.inner.upgrade()
}

/// Why a task could not be admitted to a bounded pool.
#[derive(Debug, Clone, Copy, PartialEq, Eq, Structural)]
pub enum PoolError {
    /// The pool that the spawner was made from no longer exists.
    Shutdown,
    /// The pool's queue was at its fixed capacity.
    QueueFull,
}

/// The outcome of offering a task to the queue: `QueueFull` when the queue refused it.
pub fn push_outcome<T>(pushed: Result<(), T>) -> (r: Result<(), PoolError>)
    ensures
        pushed is Ok <==> r is Ok,
        pushed is Err <==> r == Err::<(), PoolError>(PoolError::QueueFull),
{
    match pushed {
        Ok(()) => Ok(()),
        Err(_) => Err(PoolError::QueueFull),
    }
}

/// A single-threaded task pool over a bounded queue that spawners on other threads can feed.
/// Only the capacity is modelled: the queue's contents change under other threads' pushes.
#[verifier::reject_recursive_types(Ret)]
pub struct LocalPool<'a, Ret> {
    pool: Arc<ArrayQueue<LocalFutureObj<'a, Ret>>>,
    cap: Ghost<nat>,
}

/// A handle that adds tasks to a bounded pool without keeping the pool alive.
#[verifier::reject_recursive_types(Ret)]
pub struct Spawner<'a, Ret> {
    tx: WeakQueue<LocalFutureObj<'a, Ret>>,
    cap: Ghost<nat>,
}

impl<'a, Ret> Spawner<'a, Ret> {
    /// The capacity of the pool this spawner feeds, fixed when the pool was made.
    pub closed spec fn capacity(&self) -> nat {
        self.cap@
    }
}

impl<'a, Ret> Clone for Spawner<'a, Ret> {
    fn clone(&self) -> (r: Self)
        ensures
            r.capacity() == self.capacity(),
    {
        Spawner { tx: self.tx.clone(), cap: Ghost(self.cap@) }
    }
}

/// Admits a task to the queue that a spawner reached, if it reached one: `Shutdown` when it
/// reached none, `QueueFull` when the queue refused the task.
pub fn enqueue<'a, Ret>(
    queue: Option<Arc<ArrayQueue<LocalFutureObj<'a, Ret>>>>,
    task: LocalFutureObj<'a, Ret>,
) -> (r: Result<(), PoolError>)
    ensures
        queue is None <==> r == Err::<(), PoolError>(PoolError::Shutdown),
        queue is Some ==> (r is Ok || r == Err::<(), PoolError>(PoolError::QueueFull)),
{
    match queue {
        None => Err(PoolError::Shutdown),
        Some(q) => push_outcome(queue_push(&q, task)),
    }
}

impl<'a> Spawner<'a, ()> {
    /// Adds a task to the back of the pool's queue; `Shutdown` once the pool is gone,
    /// `QueueFull` at capacity.
    pub fn spawn<F: UnsafeFutureObj<'a, ()> + Send + 'a>(&self, f: F) -> (r: Result<(), PoolError>) {
        let queue = upgrade(&self.tx);
        enqueue(queue, new_task(f))
    }
}

impl<'a, Ret> LocalPool<'a, Ret> {
    /// The most tasks the pool's queue holds, fixed when the pool was made.
    pub closed spec fn capacity(&self) -> nat {
        self.cap@
    }

    /// An empty pool whose queue holds at most `cap` tasks.
    pub fn new(cap: usize) -> (r: Self)
        requires
            cap > 0,
        ensures
            r.capacity() == cap,
    {
        LocalPool { pool: new_queue(cap), cap: Ghost(cap as nat) }
    }

    /// A handle that feeds this pool's queue without keeping the pool alive.
    pub fn spawner(&self) -> (r: Spawner<'a, Ret>)
        ensures
            r.capacity() == self.capacity(),
    {
        Spawner { tx: downgrade(&self.pool), cap: Ghost(self.cap@) }
    }

    /// Adds a task at the back of the queue; `QueueFull` at capacity.
    pub fn spawn<F: UnsafeFutureObj<'a, Ret> + 'a>(&mut self, f: F) -> (r: Result<(), PoolError>)
        ensures
            r is Ok || r == Err::<(), PoolError>(PoolError::QueueFull),
            final(self).capacity() == old(self).capacity(),
    {
        push_outcome(queue_push(&self.pool, new_task(f)))
    }

    /// Polls the task at the front once. A task that is still suspended goes to the back;
    /// `Ready(None)` when the queue was empty.
    pub fn poll_once(&mut self) -> (r: Result<Poll<Option<Ret>>, PoolError>)
        ensures
            r != Err::<Poll<Option<Ret>>, PoolError>(PoolError::Shutdown),
            final(self).capacity() == old(self).capacity(),
    {
        step(&self.pool, queue_pop(&self.pool))
    }

    /// Polls tasks from the front, at most as many as the queue held at the start, and
    /// returns the first completion; `Pending` when none completed, `Ready(None)` when the
    /// queue started empty.
    pub fn poll_though(&mut self) -> (r: Result<Poll<Option<Ret>>, PoolError>)
        ensures
            r != Err::<Poll<Option<Ret>>, PoolError>(PoolError::Shutdown),
            final(self).capacity() == old(self).capacity(),
    {
        let len = queue_len(&self.pool);
        let mut cx = noop_context();
        sweep_from(&self.pool, len, &mut cx)
    }

    /// Surfaces at most one completion: `Ready` with its result, else `Pending`, also when
    /// the pool is empty.
    pub fn try_run_one(&mut self) -> (r: Result<Poll<Ret>, PoolError>)
        ensures
            r != Err::<Poll<Ret>, PoolError>(PoolError::Shutdown),
            final(self).capacity() == old(self).capacity(),
    {
        match self.poll_though() {
            Ok(p) => Ok(completion(p)),
            Err(e) => Err(e),
        }
    }
}

/// Puts a task that is still suspended back at the end of the queue; hands a result on.
pub fn requeue<'a, Ret>(q: &ArrayQueue<LocalFutureObj<'a, Ret>>, task: LocalFutureObj<'a, Ret>, p: Poll<Ret>)
    -> (r: Result<Poll<Option<Ret>>, PoolError>)
    ensures
        p matches Poll::Ready(v) ==> r == Ok::<Poll<Option<Ret>>, PoolError>(Poll::Ready(Some(v))),
        p is Pending ==> r == Ok::<Poll<Option<Ret>>, PoolError>(Poll::Pending)
            || r == Err::<Poll<Option<Ret>>, PoolError>(PoolError::QueueFull),
{
    match p {
        Poll::Ready(v) => Ok(Poll::Ready(Some(v))),
        Poll::Pending => match queue_push(q, task) {
            Ok(()) => Ok(Poll::Pending),
            Err(_) => Err(PoolError::QueueFull),
        },
    }
}

/// One step on the task taken from the front of the queue: `Ready(None)` exactly when there
/// was none; else the task is polled once with a context whose waker does nothing (futures'
/// no-op waker, which behaves as `AlwaysWake`) and requeued if still suspended.
pub fn step<'a, Ret>(q: &ArrayQueue<LocalFutureObj<'a, Ret>>, popped: Option<LocalFutureObj<'a, Ret>>)
    -> (r: Result<Poll<Option<Ret>>, PoolError>)
    ensures
        popped is None <==> r == Ok::<Poll<Option<Ret>>, PoolError>(Poll::Ready(None)),
        r != Err::<Poll<Option<Ret>>, PoolError>(PoolError::Shutdown),
{
    match popped {
        None => Ok(Poll::Ready(None)),
        Some(task) => {
            let mut cx = noop_context();
            let mut task = task;
            let p = poll_task(&mut task, &mut cx);
            requeue(q, task, p)
        },
    }
}

/// A sweep over at most `len` tasks from the front of the queue, `len` being its length
/// when the sweep starts: `Ready(None)` exactly when `len` is zero, else the first
/// completion, or `Pending` when none completed.
pub fn sweep_from<'a, Ret>(q: &ArrayQueue<LocalFutureObj<'a, Ret>>, len: usize, cx: &mut Context<'_>)
    -> (r: Result<Poll<Option<Ret>>, PoolError>)
    ensures
        len == 0 <==> r == Ok::<Poll<Option<Ret>>, PoolError>(Poll::Ready(None)),
        r != Err::<Poll<Option<Ret>>, PoolError>(PoolError::Shutdown),
{
    if len == 0 {
        return Ok(Poll::Ready(None));
    }
    let mut i: usize = 0;
    while i < len
        invariant
            i <= len,
        decreases len - i,
    {
        match queue_pop(q) {
            None => {},
            Some(task) => {
                let mut task = task;
                let p = poll_task(&mut task, cx);
                match requeue(q, task, p) {
                    Ok(Poll::Pending) => {},
                    other => {
                        return other;
                    },
                }
            },
        }
        i = i + 1;
    }
    Ok(Poll::Pending)
}

} // verus!
