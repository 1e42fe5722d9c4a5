use crossbeam::queue::ArrayQueue;
use futures::future::{ready, LocalFutureObj};
use futures::task::{noop_waker_ref, Context, Poll};
use minimal_executor::local_pool_busy::{enqueue, push_outcome, requeue, step, sweep_from};
use minimal_executor::PoolError;
use std::sync::Arc;

fn task(v: u8) -> LocalFutureObj<'static, u8> {
    LocalFutureObj::new(Box::pin(ready(v)))
}

fn suspended() -> LocalFutureObj<'static, u8> {
    LocalFutureObj::new(Box::pin(futures::future::pending::<u8>()))
}

#[test]
fn push_outcome_reports_a_refused_task() {
    assert_eq!(push_outcome::<u8>(Ok(())), Ok(()));
    assert_eq!(push_outcome(Err(5u8)), Err(PoolError::QueueFull));
}

#[test]
fn step_without_task_reports_empty() {
    let q: ArrayQueue<LocalFutureObj<'static, u8>> = ArrayQueue::new(2);
    assert_eq!(step(&q, None), Ok(Poll::Ready(None)));
}

#[test]
fn step_on_ready_task_returns_its_result() {
    let q: ArrayQueue<LocalFutureObj<'static, u8>> = ArrayQueue::new(2);
    assert_eq!(step(&q, Some(task(6))), Ok(Poll::Ready(Some(6))));
    assert_eq!(q.len(), 0);
}

#[test]
fn step_on_suspended_task_requeues_it() {
    let q: ArrayQueue<LocalFutureObj<'static, u8>> = ArrayQueue::new(1);
    assert_eq!(step(&q, Some(suspended())), Ok(Poll::Pending));
    assert_eq!(q.len(), 1);
}

#[test]
fn requeue_on_full_queue_reports_overflow() {
    let q: ArrayQueue<LocalFutureObj<'static, u8>> = ArrayQueue::new(1);
    assert!(q.push(suspended()).is_ok());
    assert_eq!(requeue(&q, suspended(), Poll::Pending), Err(PoolError::QueueFull));
    assert_eq!(requeue(&q, suspended(), Poll::Ready(3)), Ok(Poll::Ready(Some(3))));
}

#[test]
fn sweep_from_zero_reports_empty() {
    let q: ArrayQueue<LocalFutureObj<'static, u8>> = ArrayQueue::new(2);
    assert!(q.push(task(1)).is_ok());
    let mut cx = Context::from_waker(noop_waker_ref());
    assert_eq!(sweep_from(&q, 0, &mut cx), Ok(Poll::Ready(None)));
    assert_eq!(q.len(), 1);
}

#[test]
fn sweep_from_returns_first_completion() {
    let q: ArrayQueue<LocalFutureObj<'static, u8>> = ArrayQueue::new(3);
    assert!(q.push(suspended()).is_ok());
    assert!(q.push(task(8)).is_ok());
    assert!(q.push(task(9)).is_ok());
    let mut cx = Context::from_waker(noop_waker_ref());
    assert_eq!(sweep_from(&q, 3, &mut cx), Ok(Poll::Ready(Some(8))));
    assert_eq!(q.len(), 2);
}

#[test]
fn sweep_from_over_suspended_tasks_is_pending() {
    let q: ArrayQueue<LocalFutureObj<'static, u8>> = ArrayQueue::new(2);
    assert!(q.push(suspended()).is_ok());
    assert!(q.push(suspended()).is_ok());
    let mut cx = Context::from_waker(noop_waker_ref());
    assert_eq!(sweep_from(&q, 2, &mut cx), Ok(Poll::Pending));
    assert_eq!(q.len(), 2);
}

#[test]
fn enqueue_reports_shutdown_without_queue() {
    assert_eq!(enqueue(None, task(1)), Err(PoolError::Shutdown));
    let q = Arc::new(ArrayQueue::new(1));
    assert_eq!(enqueue(Some(q.clone()), task(1)), Ok(()));
    assert_eq!(enqueue(Some(q), task(2)), Err(PoolError::QueueFull));
}
