use filer_core::job::Action;
use filer_core::job::JobExecutor;

/// Drive the coordinator until it goes idle, collecting the dispatch order
/// and the highest number of jobs in flight at any point.  Each dispatched
/// job is "executed" immediately by handing its permit back after at most
/// `hold` further dispatches, which models jobs that overlap.
fn drain(ex: &mut JobExecutor<u32>, hold: usize) -> (Vec<u32>, usize) {
    let mut order = Vec::new();
    let mut held = 0usize;
    let mut peak = 0usize;
    loop {
        match ex.next_action() {
            Action::Dispatch(job) => {
                order.push(job);
                held += 1;
                if held > peak {
                    peak = held;
                }
                if held > hold {
                    ex.complete();
                    held -= 1;
                }
                if ex.after_dispatch() {
                    break;
                }
            }
            Action::WaitForJob => break,
            Action::WaitForPermit => {
                assert!(held > 0, "no permit out, yet none free");
                ex.complete();
                held -= 1;
            }
        }
    }
    while held > 0 {
        ex.complete();
        held -= 1;
    }
    (order, peak)
}

#[test]
fn test_concurrency_bound() {
    // Capacity 3, ten jobs, every permit held as long as possible: never
    // more than three in flight at once.
    let mut ex = JobExecutor::new(3);
    for j in 0..10u32 {
        ex.push(j);
    }
    assert!(ex.start());
    let (order, peak) = drain(&mut ex, usize::MAX);
    assert_eq!(order.len(), 10);
    assert!(peak <= 3);
    assert_eq!(peak, 3);
    assert_eq!(ex.available_permits(), 3);
    assert_eq!(ex.in_flight(), 0);
}

#[test]
fn test_fifo_order() {
    // Jobs pushed 1, 2, 3 with no front-insertion dispatch as 1, 2, 3.
    let mut ex = JobExecutor::new(2);
    ex.push(1);
    ex.push(2);
    ex.push(3);
    assert!(ex.start());
    let (order, _) = drain(&mut ex, 0);
    assert_eq!(order, vec![1, 2, 3]);
}

#[test]
fn test_front_list_order() {
    // With 1, 2, 3 queued and nothing dispatched, a front list of 10, 11
    // dispatches as 10, 11, 1, 2, 3.
    let mut ex = JobExecutor::new(1);
    ex.push(1);
    ex.push(2);
    ex.push(3);
    ex.push_front_list(vec![10, 11]);
    assert!(ex.start());
    let (order, _) = drain(&mut ex, 0);
    assert_eq!(order, vec![10, 11, 1, 2, 3]);
}

#[test]
fn test_single_start_winner() {
    // Of ten start calls, exactly the first wins until the executor goes
    // idle again.
    let mut ex = JobExecutor::<u32>::new(4);
    let mut wins = 0usize;
    for _ in 0..10 {
        if ex.start() {
            wins += 1;
        }
    }
    assert_eq!(wins, 1);
    assert!(ex.is_running());
}

#[test]
fn test_idle_resume() {
    // After the queue drains and the coordinator goes idle, a new push and
    // a new start dispatch the new job: nothing stalls.
    let mut ex = JobExecutor::new(2);
    ex.push(5);
    assert!(ex.start());
    let (order, _) = drain(&mut ex, 0);
    assert_eq!(order, vec![5]);
    assert!(!ex.is_running());

    ex.push(6);
    assert!(ex.start(), "a fresh start must win after going idle");
    let (order2, _) = drain(&mut ex, 0);
    assert_eq!(order2, vec![6]);
    assert!(!ex.is_running());
}

#[test]
fn test_all_jobs_execute_exactly_once() {
    // Every pushed job is dispatched exactly once when the queue drains.
    let mut ex = JobExecutor::new(3);
    for j in 0..25u32 {
        ex.push(j);
    }
    assert!(ex.start());
    let (order, _) = drain(&mut ex, 1);
    let mut seen = vec![0usize; 25];
    for j in &order {
        seen[*j as usize] += 1;
    }
    assert!(seen.iter().all(|&c| c == 1));
    assert_eq!(ex.queue_len(), 0);
}

#[test]
fn test_start_on_empty_queue_waits() {
    // A coordinator started on an empty queue waits for work instead of
    // going idle; the lifecycle flag stays set.
    let mut ex = JobExecutor::<u32>::new(1);
    assert!(ex.start());
    assert!(matches!(ex.next_action(), Action::WaitForJob));
    assert!(ex.is_running());
    ex.push(9);
    let (order, _) = drain(&mut ex, 0);
    assert_eq!(order, vec![9]);
}

#[test]
fn test_permit_exhaustion_blocks_dispatch() {
    // With one permit held and capacity 1, the coordinator must wait for a
    // completion before the next dispatch.
    let mut ex = JobExecutor::new(1);
    ex.push(1);
    ex.push(2);
    assert!(ex.start());
    match ex.next_action() {
        Action::Dispatch(j) => assert_eq!(j, 1),
        _ => panic!("expected a dispatch"),
    }
    assert!(!ex.after_dispatch());
    assert!(matches!(ex.next_action(), Action::WaitForPermit));
    ex.complete();
    match ex.next_action() {
        Action::Dispatch(j) => assert_eq!(j, 2),
        _ => panic!("expected a dispatch"),
    }
    assert!(ex.after_dispatch());
    ex.complete();
    assert_eq!(ex.available_permits(), 1);
}
