use rust_servers::pool::{Scheduler, WorkerAction, WorkerState};

#[test]
fn new_pool_has_idle_workers_and_no_jobs() {
    let s = Scheduler::new(4);
    assert_eq!(s.size(), 4);
    assert!(s.is_open());
    assert_eq!(s.submitted(), 0);
    assert_eq!(s.pending(), 0);
    for id in 0..4 {
        assert_eq!(s.worker_state(id), WorkerState::Idle);
    }
    assert!(!s.all_stopped());
}

#[test]
fn jobs_are_numbered_in_submission_order() {
    let mut s = Scheduler::new(1);
    assert_eq!(s.submit(), 0);
    assert_eq!(s.submit(), 1);
    assert_eq!(s.submit(), 2);
    assert_eq!(s.submitted(), 3);
    assert_eq!(s.pending(), 3);
}

#[test]
fn jobs_start_in_submission_order() {
    let mut s = Scheduler::new(2);
    let a = s.submit();
    let b = s.submit();
    let c = s.submit();
    assert_eq!(s.next_action(1), WorkerAction::Run(a));
    assert_eq!(s.next_action(0), WorkerAction::Run(b));
    assert_eq!(s.worker_state(1), WorkerState::Busy(a));
    assert_eq!(s.worker_state(0), WorkerState::Busy(b));
    s.finish(0);
    assert_eq!(s.worker_state(0), WorkerState::Idle);
    assert_eq!(s.next_action(0), WorkerAction::Run(c));
    assert_eq!(s.pending(), 0);
}

#[test]
fn idle_worker_waits_while_open_and_queue_empty() {
    let mut s = Scheduler::new(3);
    assert_eq!(s.next_action(2), WorkerAction::Wait);
    assert_eq!(s.worker_state(2), WorkerState::Idle);
    let j = s.submit();
    assert_eq!(s.next_action(2), WorkerAction::Run(j));
}

#[test]
fn closed_pool_drains_queue_before_workers_exit() {
    let mut s = Scheduler::new(1);
    let a = s.submit();
    let b = s.submit();
    s.close();
    assert!(!s.is_open());
    assert_eq!(s.next_action(0), WorkerAction::Run(a));
    s.finish(0);
    assert_eq!(s.next_action(0), WorkerAction::Run(b));
    s.finish(0);
    assert_eq!(s.next_action(0), WorkerAction::Exit);
    assert_eq!(s.worker_state(0), WorkerState::Stopped);
    assert!(s.all_stopped());
}

#[test]
fn graceful_shutdown_stops_every_worker_after_all_jobs() {
    let mut s = Scheduler::new(4);
    for _ in 0..10 {
        s.submit();
    }
    s.close();
    let mut ran = Vec::new();
    let mut stopped = 0;
    while stopped < 4 {
        for id in 0..4 {
            match s.worker_state(id) {
                WorkerState::Idle => match s.next_action(id) {
                    WorkerAction::Run(j) => ran.push(j),
                    WorkerAction::Exit => stopped += 1,
                    WorkerAction::Wait => panic!("a closed pool never makes a worker wait"),
                },
                WorkerState::Busy(_) => s.finish(id),
                WorkerState::Stopped => {}
            }
        }
    }
    assert!(s.all_stopped());
    assert_eq!(ran, (0..10).collect::<Vec<u64>>());
    assert_eq!(s.pending(), 0);
}

#[test]
fn worker_count_never_changes() {
    let mut s = Scheduler::new(2);
    s.submit();
    s.next_action(0);
    s.finish(0);
    s.close();
    s.next_action(0);
    s.next_action(1);
    assert_eq!(s.size(), 2);
}
