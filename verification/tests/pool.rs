use thread_pool::pool::{Builder, ThreadPool, WorkerStep};

fn step_value(step: WorkerStep<u32>) -> Option<Option<u32>> {
    match step {
        WorkerStep::Exit => None,
        WorkerStep::Run(t) => Some(Some(t)),
        WorkerStep::Wait => Some(None),
    }
}

#[test]
fn new_pool_is_empty() {
    let pool: ThreadPool<u32> = ThreadPool::new(4);
    assert_eq!(pool.max_thead_count(), 4);
    assert_eq!(pool.active_thread_count(), 0);
    assert_eq!(pool.queue_count(), 0);
    assert_eq!(pool.running_count(), 0);
    assert_eq!(pool.thread_name(), None);
    assert_eq!(pool.thread_stack_size(), None);
}

#[test]
fn with_name_names_workers() {
    let pool: ThreadPool<u32> = ThreadPool::with_name("worker".to_string(), 2);
    assert_eq!(pool.thread_name(), Some("worker"));
    assert_eq!(pool.max_thead_count(), 2);
}

#[test]
fn builder_carries_settings() {
    let pool: ThreadPool<u32> = Builder::new()
        .num_threads(3)
        .thread_name("w".to_string())
        .thread_stack_size(65536)
        .build();
    assert_eq!(pool.max_thead_count(), 3);
    assert_eq!(pool.thread_name(), Some("w"));
    assert_eq!(pool.thread_stack_size(), Some(65536));
}

#[test]
fn builder_without_count_uses_cpus() {
    let pool: ThreadPool<u32> = Builder::default().build();
    assert!(pool.max_thead_count() >= 1);
    let copy = Builder::new().thread_stack_size(7).clone();
    let pool2: ThreadPool<u32> = copy.num_threads(1).build();
    assert_eq!(pool2.thread_stack_size(), Some(7));
}

#[test]
fn execute_starts_workers_up_to_the_limit() {
    let mut pool: ThreadPool<u32> = ThreadPool::new(2);
    assert!(pool.execute(1));
    assert!(pool.execute(2));
    assert!(!pool.execute(3));
    assert_eq!(pool.active_thread_count(), 2);
    assert_eq!(pool.queue_count(), 3);
}

#[test]
fn tasks_are_taken_in_order() {
    let mut pool: ThreadPool<u32> = ThreadPool::new(1);
    pool.execute(10);
    pool.execute(20);
    assert_eq!(step_value(pool.next_task()), Some(Some(10)));
    assert_eq!(step_value(pool.next_task()), Some(Some(20)));
    assert_eq!(pool.running_count(), 2);
    assert_eq!(step_value(pool.next_task()), Some(None));
    pool.task_done();
    pool.task_done();
    assert_eq!(pool.queue_count(), 0);
    assert_eq!(step_value(pool.next_task()), None);
    assert_eq!(pool.active_thread_count(), 0);
}

#[test]
fn task_round_trip_restores_counts() {
    let mut pool: ThreadPool<u32> = ThreadPool::new(3);
    assert!(pool.execute(7));
    assert_eq!(step_value(pool.next_task()), Some(Some(7)));
    pool.task_done();
    assert_eq!(pool.queue_count(), 0);
    assert_eq!(pool.running_count(), 0);
    assert_eq!(pool.active_thread_count(), 1);
}

#[test]
fn worker_leaves_only_when_idle() {
    let mut pool: ThreadPool<u32> = ThreadPool::new(1);
    pool.execute(1);
    assert_eq!(step_value(pool.next_task()), Some(Some(1)));
    assert_eq!(step_value(pool.next_task()), Some(None));
    pool.task_done();
    assert_eq!(step_value(pool.next_task()), None);
    assert!(pool.execute(2));
    assert_eq!(pool.active_thread_count(), 1);
}

#[test]
fn build_with_cpu_count_uses_cpus_when_no_count_requested() {
    let pool: ThreadPool<u32> = Builder::new().build_with_cpu_count(6);
    assert_eq!(pool.max_thead_count(), 6);
    assert_eq!(pool.active_thread_count(), 0);
    assert_eq!(pool.queue_count(), 0);
    let pool2: ThreadPool<u32> = Builder::new().num_threads(2).build_with_cpu_count(6);
    assert_eq!(pool2.max_thead_count(), 2);
}

#[test]
fn queue_count_is_handed_in_less_finished() {
    let mut pool: ThreadPool<u32> = ThreadPool::new(2);
    for t in 0..5 {
        pool.execute(t);
    }
    assert_eq!(step_value(pool.next_task()), Some(Some(0)));
    assert_eq!(step_value(pool.next_task()), Some(Some(1)));
    pool.task_done();
    assert_eq!(pool.queue_count(), 4);
    assert_eq!(pool.active_thread_count(), 2);
    assert!(pool.active_thread_count() <= pool.max_thead_count());
}
