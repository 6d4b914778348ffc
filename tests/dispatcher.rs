use http_server::dispatcher::{Claim, Dispatcher, Outcome, PoolError, WorkerState};

fn run_claim(d: &mut Dispatcher<u32>, id: usize) -> Option<u32> {
    assert_eq!(d.worker_state(id), WorkerState::Idle);
    match d.claim(id) {
        Claim::Run(j) => Some(j),
        Claim::Wait => None,
        Claim::Stop => None,
    }
}

#[test]
fn zero_size_pool_is_refused() {
    let r: Result<Dispatcher<u32>, PoolError> = Dispatcher::new(0);
    assert!(matches!(r, Err(PoolError::ZeroSize)));
}

#[test]
fn new_pool_has_idle_workers() {
    let d: Dispatcher<u32> = Dispatcher::new(4).ok().unwrap();
    assert_eq!(d.size(), 4);
    assert_eq!(d.pending_len(), 0);
    assert!(!d.is_closed());
    for id in 0..4 {
        assert_eq!(d.worker_state(id), WorkerState::Idle);
    }
    assert!(!d.all_stopped());
}

#[test]
fn every_job_runs_exactly_once() {
    for n in 1..5usize {
        for m in 0..12u32 {
            let mut d: Dispatcher<u32> = Dispatcher::new(n).ok().unwrap();
            for j in 0..m {
                assert!(d.submit(j).is_ok());
            }
            d.close();
            let mut ran: Vec<u32> = Vec::new();
            let mut stopped = 0;
            while stopped < n {
                for id in 0..n {
                    if d.worker_state(id) != WorkerState::Idle {
                        continue;
                    }
                    match d.claim(id) {
                        Claim::Run(j) => {
                            ran.push(j);
                            d.finish(id, Outcome::Completed);
                        }
                        Claim::Wait => panic!("a closed queue never says wait"),
                        Claim::Stop => stopped += 1,
                    }
                }
            }
            assert!(d.all_stopped());
            assert_eq!(ran, (0..m).collect::<Vec<u32>>());
        }
    }
}

#[test]
fn extra_job_waits_for_a_free_worker() {
    let mut d: Dispatcher<u32> = Dispatcher::new(2).ok().unwrap();
    for j in 0..3 {
        assert!(d.submit(j).is_ok());
    }
    assert_eq!(run_claim(&mut d, 0), Some(0));
    assert_eq!(run_claim(&mut d, 1), Some(1));
    assert_eq!(d.worker_state(0), WorkerState::Busy);
    assert_eq!(d.worker_state(1), WorkerState::Busy);
    assert_eq!(d.pending_len(), 1);
    assert!(d.submit(3).is_ok());
    assert_eq!(d.pending_len(), 2);
    d.finish(1, Outcome::Completed);
    assert_eq!(run_claim(&mut d, 1), Some(2));
}

#[test]
fn idle_worker_waits_on_empty_open_queue() {
    let mut d: Dispatcher<u32> = Dispatcher::new(1).ok().unwrap();
    assert!(matches!(d.claim(0), Claim::Wait));
    assert_eq!(d.worker_state(0), WorkerState::Idle);
}

#[test]
fn close_drains_queue_before_stopping() {
    let mut d: Dispatcher<u32> = Dispatcher::new(1).ok().unwrap();
    assert!(d.submit(7).is_ok());
    assert!(d.submit(8).is_ok());
    d.close();
    assert_eq!(d.submit(9), Err(9));
    d.close();
    assert!(d.is_closed());
    assert_eq!(run_claim(&mut d, 0), Some(7));
    d.finish(0, Outcome::Completed);
    assert_eq!(run_claim(&mut d, 0), Some(8));
    d.finish(0, Outcome::Completed);
    assert!(matches!(d.claim(0), Claim::Stop));
    assert_eq!(d.worker_state(0), WorkerState::Stopped);
    assert!(d.all_stopped());
}

#[test]
fn faulted_job_leaves_worker_running() {
    let mut d: Dispatcher<u32> = Dispatcher::new(1).ok().unwrap();
    assert!(d.submit(1).is_ok());
    assert!(d.submit(2).is_ok());
    assert_eq!(run_claim(&mut d, 0), Some(1));
    d.finish(0, Outcome::Faulted);
    assert_eq!(d.worker_state(0), WorkerState::Idle);
    assert_eq!(run_claim(&mut d, 0), Some(2));
}

#[test]
fn two_workers_three_jobs_scenario() {
    let mut d: Dispatcher<&str> = Dispatcher::new(2).ok().unwrap();
    assert!(d.submit("A").is_ok());
    assert!(d.submit("B").is_ok());
    assert!(d.submit("C").is_ok());
    let a = d.claim(0);
    let b = d.claim(1);
    assert!(matches!(a, Claim::Run("A")));
    assert!(matches!(b, Claim::Run("B")));
    // C waits: both workers are busy with the slow jobs.
    assert_eq!(d.pending_len(), 1);
    let mut recorded: Vec<&str> = Vec::new();
    recorded.push("A");
    d.finish(0, Outcome::Completed);
    let c = d.claim(0);
    assert!(matches!(c, Claim::Run("C")));
    recorded.push("C");
    d.finish(0, Outcome::Completed);
    recorded.push("B");
    d.finish(1, Outcome::Completed);
    d.close();
    assert!(matches!(d.claim(0), Claim::Stop));
    assert!(matches!(d.claim(1), Claim::Stop));
    recorded.sort();
    assert_eq!(recorded, vec!["A", "B", "C"]);
}
