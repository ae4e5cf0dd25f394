use future_pool::VectorFuturePool;
use futures::StreamExt;
use std::future::Future;

async fn plus<T: std::ops::Add>(a: T, b: T) -> T::Output {
    a + b
}

/// Runs every task to completion, filling the in-flight set back up to
/// capacity between batches, and collects all outputs in completion order.
async fn drain_all<T: Future>(pool: &mut VectorFuturePool<T>) -> Vec<T::Output> {
    let mut out: Vec<T::Output> = Vec::new();
    while !pool.fully_drained() {
        pool.fill_pool();
        let batch = pool.take_batch();
        let mut part: Vec<T::Output> = batch.collect().await;
        out.append(&mut part);
    }
    out
}

/// Pulls one completed output from the pool: fill, wait for the next
/// completion, hand the remainder of the in-flight set back to the pool.
async fn next_item<T: Future>(pool: &mut VectorFuturePool<T>) -> Option<T::Output> {
    pool.fill_pool();
    let mut batch = pool.take_batch();
    let item = batch.next().await;
    if pool.restore_batch(batch).is_err() {
        panic!("the multiplexer outgrew the capacity");
    }
    item
}

#[test]
fn check_init() {
    VectorFuturePool::new(vec![plus(1, 2), plus(1, 1), plus(1, 3), plus(1, 4)], 2);
}

#[test]
fn check_drain() {
    let mut pool = VectorFuturePool::new(vec![plus(1, 2), plus(1, 1), plus(1, 3), plus(1, 4)], 2);
    let mut result = futures::executor::block_on(drain_all(&mut pool));
    result.sort();
    assert_eq!(result, vec![2, 3, 4, 5]);
}

#[test]
fn check_add() {
    let mut pool = VectorFuturePool::new(vec![plus(1, 2), plus(1, 1), plus(1, 3), plus(1, 4)], 2);
    pool.elements.push(plus(1, 0));
    let mut result = futures::executor::block_on(drain_all(&mut pool));
    result.sort();
    assert_eq!(result, vec![1, 2, 3, 4, 5]);
}

#[test]
fn check_execute() {
    let mut pool = VectorFuturePool::new(vec![plus(1, 2), plus(1, 1), plus(1, 3), plus(1, 4)], 2);
    pool.fill_pool();
    let batch = pool.take_batch();
    let _result: Vec<i32> = futures::executor::block_on(batch.collect::<Vec<i32>>());
}

#[test]
fn check_next() {
    let mut pool = VectorFuturePool::new(vec![plus(1, 2), plus(1, 1), plus(1, 3), plus(1, 4)], 2);
    while let Some(_) = futures::executor::block_on(next_item(&mut pool)) {}
    assert!(pool.is_empty());
}

#[test]
fn fill_respects_capacity() {
    let mut pool = VectorFuturePool::new(vec![plus(1, 2), plus(1, 1), plus(1, 3), plus(1, 4)], 2);
    pool.fill_pool();
    assert_eq!(pool.active_len(), 2);
    assert_eq!(pool.pending_len(), 2);
}

#[test]
fn batch_of_fewer_tasks_than_capacity_drains_all() {
    let mut pool = VectorFuturePool::new(vec![plus(1, 2), plus(1, 1)], 4);
    pool.fill_pool();
    assert_eq!(pool.active_len(), 2);
    let batch = pool.take_batch();
    let mut result: Vec<i32> = futures::executor::block_on(batch.collect::<Vec<i32>>());
    result.sort();
    assert_eq!(result, vec![2, 3]);
    assert!(pool.fully_drained());
}

#[test]
fn batch_of_more_tasks_than_capacity_leaves_rest_pending() {
    let mut pool = VectorFuturePool::new(vec![plus(1, 2), plus(1, 1), plus(1, 3), plus(1, 4)], 2);
    pool.fill_pool();
    let batch = pool.take_batch();
    let mut result: Vec<i32> = futures::executor::block_on(batch.collect::<Vec<i32>>());
    result.sort();
    assert_eq!(result, vec![2, 3]);
    assert_eq!(pool.pending_len(), 2);
    assert!(!pool.is_empty());
}

#[test]
fn appended_tasks_are_drained() {
    let mut pool = VectorFuturePool::new(vec![], 3);
    pool.append(plus(5, 5));
    pool.append(plus(6, 6));
    let mut result = futures::executor::block_on(drain_all(&mut pool));
    result.sort();
    assert_eq!(result, vec![10, 12]);
    assert!(pool.is_empty());
}

#[test]
fn emptiness_reflects_construction() {
    let empty_pool: VectorFuturePool<_> = VectorFuturePool::new(Vec::<std::future::Ready<i32>>::new(), 3);
    assert!(empty_pool.is_empty());
    let loaded_pool = VectorFuturePool::new(vec![plus(0, 0)], 3);
    assert!(!loaded_pool.is_empty());
}

#[test]
fn pulling_until_exhaustion_counts_every_task() {
    let mut pool = VectorFuturePool::new(vec![plus(1, 2), plus(1, 1), plus(1, 3), plus(1, 4)], 2);
    let mut count: usize = 0;
    while let Some(_) = futures::executor::block_on(next_item(&mut pool)) {
        count += 1;
    }
    assert_eq!(count, 4);
    assert!(pool.is_empty());
    assert!(pool.fully_drained());
}

#[test]
fn zero_capacity_never_admits() {
    let mut pool = VectorFuturePool::new(vec![plus(1, 2), plus(1, 1)], 0);
    pool.fill_pool();
    assert_eq!(pool.active_len(), 0);
    assert_eq!(pool.pending_len(), 2);
    let batch = pool.take_batch();
    let result: Vec<i32> = futures::executor::block_on(batch.collect::<Vec<i32>>());
    assert!(result.is_empty());
    assert!(!pool.is_empty());
}

#[test]
fn restored_batch_keeps_its_remaining_tasks() {
    let mut pool = VectorFuturePool::new(vec![plus(1, 2), plus(1, 1), plus(1, 3), plus(1, 4)], 3);
    pool.fill_pool();
    assert_eq!(pool.active_len(), 3);
    let mut batch = pool.take_batch();
    assert_eq!(pool.active_len(), 0);
    let first = futures::executor::block_on(batch.next());
    assert!(first.is_some());
    match pool.restore_batch(batch) {
        Ok(n) => assert_eq!(n, 2),
        Err(_) => panic!("two tasks fit a capacity of three"),
    }
    assert_eq!(pool.active_len(), 2);
    let mut rest = futures::executor::block_on(drain_all(&mut pool));
    rest.push(first.unwrap());
    rest.sort();
    assert_eq!(rest, vec![2, 3, 4, 5]);
}

#[test]
fn single_capacity_runs_tasks_one_at_a_time() {
    let mut pool = VectorFuturePool::new(vec![plus(10, 1), plus(20, 2), plus(30, 3)], 1);
    pool.fill_pool();
    assert_eq!(pool.active_len(), 1);
    let mut result = futures::executor::block_on(drain_all(&mut pool));
    result.sort();
    assert_eq!(result, vec![11, 22, 33]);
}
