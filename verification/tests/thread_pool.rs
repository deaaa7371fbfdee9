use trsfer::thread_pool::{Assignment, Message, Task, WorkerPool, WorkerState};

#[test]
fn a_task_runs_its_action_on_the_resource() {
    let task = Task::new(|resource: &mut Vec<u32>| resource.push(7));
    let mut resource = vec![1];
    task.run(&mut resource);
    assert_eq!(resource, vec![1, 7]);
}

#[test]
fn a_boxed_task_runs_too() {
    let action: Box<dyn FnOnce(&mut u32) + Send> = Box::new(|n: &mut u32| *n += 2);
    let task = Task::new(action);
    let mut n = 40;
    task.run(&mut n);
    assert_eq!(n, 42);
}

#[test]
fn the_factory_runs_once_for_each_worker() {
    let made = std::cell::Cell::new(0u32);
    let pool: WorkerPool<u32, u8> = WorkerPool::new(3, || {
        made.set(made.get() + 1);
        made.get()
    });
    assert_eq!(made.get(), 3);
    assert_eq!(pool.num_workers(), 3);
    assert_eq!(pool.queued(), 0);
    for worker in 0..3 {
        assert_eq!(pool.state(worker), Some(WorkerState::Idle));
    }
    assert_eq!(pool.state(3), None);
}

#[test]
fn a_pool_without_workers_takes_tasks_and_gives_none() {
    let mut pool: WorkerPool<u32, u8> = WorkerPool::new(0, || 0);
    pool.execute(1);
    assert_eq!(pool.queued(), 1);
    assert!(pool.take(0).is_none());
    pool.terminate();
    assert_eq!(pool.queued(), 1);
}

#[test]
fn tasks_leave_the_queue_oldest_first() {
    let mut pool: WorkerPool<char, u32> = WorkerPool::new(1, || 'r');
    pool.execute(10);
    pool.execute(20);
    pool.execute(30);
    let mut order = Vec::new();
    while let Some(Assignment::Run(job, resource)) = pool.take(0) {
        order.push(job);
        assert!(pool.finish(0, resource).is_none());
    }
    assert_eq!(order, vec![10, 20, 30]);
}

#[test]
fn a_busy_worker_is_given_nothing() {
    let mut pool: WorkerPool<String, u32> = WorkerPool::new(2, || String::from("connection"));
    pool.execute(1);
    pool.execute(2);
    let resource = match pool.take(0) {
        Some(Assignment::Run(1, resource)) => resource,
        _ => panic!("expected the first task"),
    };
    assert_eq!(pool.state(0), Some(WorkerState::Busy));
    assert!(pool.take(0).is_none());
    assert_eq!(pool.queued(), 1);
    assert!(pool.finish(0, resource).is_none());
    assert_eq!(pool.state(0), Some(WorkerState::Idle));
    assert!(matches!(pool.take(0), Some(Assignment::Run(2, _))));
}

#[test]
fn as_many_tasks_as_workers_each_get_their_own_resource() {
    let next = std::cell::Cell::new(0usize);
    let workers = 4;
    let mut pool: WorkerPool<usize, usize> = WorkerPool::new(workers, || {
        next.set(next.get() + 1);
        next.get() - 1
    });
    for task in 0..workers {
        pool.execute(task);
    }
    // A probe: the resource that each task holds while it runs.
    let mut running: Vec<(usize, usize)> = Vec::new();
    for worker in (0..workers).rev() {
        match pool.take(worker) {
            Some(Assignment::Run(task, resource)) => {
                assert_eq!(resource, worker);
                assert!(running.iter().all(|&(_, held)| held != resource));
                running.push((task, resource));
            }
            _ => panic!("expected a task"),
        }
    }
    assert_eq!(running.len(), workers);
    assert_eq!(pool.queued(), 0);
    for worker in 0..workers {
        assert_eq!(pool.state(worker), Some(WorkerState::Busy));
        assert!(pool.take(worker).is_none());
    }
    for (_, resource) in running {
        assert!(pool.finish(resource, resource).is_none());
    }
    for worker in 0..workers {
        assert_eq!(pool.state(worker), Some(WorkerState::Idle));
    }
}

#[test]
fn a_resource_is_refused_from_a_worker_that_is_not_busy() {
    let mut pool: WorkerPool<u32, u32> = WorkerPool::new(1, || 5);
    assert_eq!(pool.finish(0, 9), Some(9));
    assert_eq!(pool.finish(1, 9), Some(9));
    assert_eq!(pool.state(0), Some(WorkerState::Idle));
    pool.execute(1);
    match pool.take(0) {
        Some(Assignment::Run(1, 5)) => {}
        _ => panic!("the resource of the worker is the one the factory made"),
    }
}

#[test]
fn terminate_stops_each_worker_after_the_queued_tasks() {
    let mut pool: WorkerPool<u32, u32> = WorkerPool::new(2, || 0);
    pool.execute(1);
    pool.terminate();
    assert_eq!(pool.queued(), 3);
    let resource = match pool.take(1) {
        Some(Assignment::Run(1, resource)) => resource,
        _ => panic!("the task was queued before the order to stop"),
    };
    assert!(matches!(pool.take(0), Some(Assignment::Terminate)));
    assert_eq!(pool.state(0), Some(WorkerState::Stopped));
    assert!(pool.take(0).is_none());
    assert!(pool.finish(1, resource).is_none());
    assert!(matches!(pool.take(1), Some(Assignment::Terminate)));
    assert_eq!(pool.state(1), Some(WorkerState::Stopped));
    assert_eq!(pool.queued(), 0);
    assert!(pool.take(1).is_none());
}

#[test]
fn a_number_that_names_no_worker_is_given_nothing() {
    let mut pool: WorkerPool<u32, u32> = WorkerPool::new(2, || 0);
    pool.execute(1);
    assert!(pool.take(2).is_none());
    assert!(pool.take(usize::MAX).is_none());
    assert_eq!(pool.queued(), 1);
}

#[test]
fn a_message_is_a_task_or_the_order_to_stop() {
    let messages = [Message::Task(1u8), Message::Terminate];
    assert!(matches!(messages[0], Message::Task(1)));
    assert!(matches!(messages[1], Message::Terminate));
}
