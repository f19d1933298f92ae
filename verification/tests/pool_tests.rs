use runtime_bridge::Bridge;
use runtime_bridge::Event;
use runtime_bridge::EventKind;
use runtime_bridge::Pool;
use runtime_bridge::WorkerState;

fn ready_pool(loader: u64, threads: usize) -> Pool {
    let mut b = Bridge::new();
    b.load_module(1).unwrap();
    b.setup_class_loader(Some(loader)).unwrap();
    b.create_runtime(true, None, threads).unwrap()
}

#[test]
fn four_workers_hundred_tasks_lifecycle() {
    let mut pool = ready_pool(7, 4);
    assert_eq!(pool.worker_count(), 4);
    for i in 0..4 {
        pool.begin_attach(i);
        pool.finish_attach(i, true);
    }
    let mut completed: usize = 0;
    for t in 0..100 {
        pool.run_task(t % 4);
        completed += 1;
    }
    assert_eq!(completed, 100);
    assert_eq!(pool.count_events(EventKind::TaskExecuted), 100);
    for i in 0..4 {
        pool.begin_detach(i);
        pool.finish_stop(i);
    }
    assert_eq!(pool.count_events(EventKind::Attach), 4);
    assert_eq!(pool.count_events(EventKind::Detach), 4);
    for i in 0..4 {
        assert_eq!(pool.workers[i].state, WorkerState::Terminated);
    }
}

#[test]
fn log_orders_attach_task_detach() {
    let mut pool = ready_pool(3, 1);
    pool.begin_attach(0);
    pool.finish_attach(0, true);
    pool.run_task(0);
    pool.run_task(0);
    pool.begin_detach(0);
    pool.finish_stop(0);
    assert_eq!(
        pool.log,
        vec![
            Event { worker: 0, kind: EventKind::Attach },
            Event { worker: 0, kind: EventKind::TaskExecuted },
            Event { worker: 0, kind: EventKind::TaskExecuted },
            Event { worker: 0, kind: EventKind::Detach },
        ]
    );
}

#[test]
fn attached_workers_install_captured_loader() {
    let mut pool = ready_pool(21, 3);
    for i in 0..3 {
        pool.begin_attach(i);
        pool.finish_attach(i, true);
        assert_eq!(pool.workers[i].context_loader, Some(21));
        assert_eq!(pool.workers[i].attached_at, Some(i));
    }
}

#[test]
fn failed_attach_isolates_one_worker() {
    let mut pool = ready_pool(9, 2);
    pool.begin_attach(0);
    pool.finish_attach(0, false);
    pool.begin_attach(1);
    pool.finish_attach(1, true);
    assert_eq!(pool.workers[0].state, WorkerState::Failed);
    assert_eq!(pool.workers[0].context_loader, None);
    // the pool keeps serving tasks on its other worker
    pool.run_task(1);
    pool.run_task(1);
    assert_eq!(pool.count_events(EventKind::TaskExecuted), 2);
    // the failed worker never has a recorded event at all
    assert!(pool.log.iter().all(|e| e.worker != 0));
}

#[test]
fn fresh_pool_has_no_events() {
    let pool = ready_pool(5, 8);
    assert_eq!(pool.log.len(), 0);
    assert_eq!(pool.count_events(EventKind::Attach), 0);
    for i in 0..8 {
        assert_eq!(pool.workers[i].state, WorkerState::Created);
        assert_eq!(pool.workers[i].context_loader, None);
    }
}
