use neodos::work_queue::{WorkQueue, WorkQueueManager, CAPACITY};
use std::cell::Cell;

#[test]
fn wq_push_pop() {
    let mut wq: WorkQueue<u64> = WorkQueue::new();
    assert!(wq.push(42));
    assert!(wq.pending());
    let data = wq.pop().unwrap();
    assert_eq!(data, 42);
    assert!(wq.pop().is_none());
    assert!(!wq.pending());
}

#[test]
fn wq_fifo_order() {
    let mut wq: WorkQueue<(u64, u64)> = WorkQueue::new();
    assert!(wq.push((1, 0)));
    assert!(wq.push((2, 1)));
    assert!(wq.push((3, 2)));
    assert_eq!(wq.pending_count(), 3);
    let (d1, k1) = wq.pop().unwrap();
    assert_eq!(d1 * 10 + k1, 10);
    let (d2, k2) = wq.pop().unwrap();
    assert_eq!(d2 * 10 + k2, 21);
    let (d3, k3) = wq.pop().unwrap();
    assert_eq!(d3 * 10 + k3, 32);
    assert!(wq.pop().is_none());
    assert_eq!(wq.pending_count(), 0);
}

#[test]
fn wq_empty_queue() {
    let mut wq: WorkQueue<u8> = WorkQueue::new();
    assert!(wq.is_empty());
    assert!(wq.pop().is_none());
    assert_eq!(wq.pending_count(), 0);
    assert!(!wq.pending());
}

#[test]
fn wq_overflow() {
    let mut wq: WorkQueue<usize> = WorkQueue::new();
    let mut pushed = 0;
    for i in 0..CAPACITY + 10 {
        if wq.push(i) {
            pushed += 1;
        } else {
            break;
        }
    }
    assert_eq!(pushed, CAPACITY - 1);
    assert_eq!(wq.pending_count(), CAPACITY - 1);
    for _ in 0..pushed {
        assert!(wq.pop().is_some());
    }
    assert!(wq.pop().is_none());
}

#[test]
fn wq_high_low_isolation() {
    let h_count = Cell::new(0u64);
    let l_count = Cell::new(0u64);
    let mut mgr: WorkQueueManager<bool> = WorkQueueManager::new();
    mgr.push_high(true);
    mgr.push_high(true);
    mgr.push_low(false);
    assert_eq!(mgr.high.pending_count(), 2);
    assert_eq!(mgr.low.pending_count(), 1);

    let run = |high: bool| {
        if high {
            h_count.set(h_count.get() + 1);
        } else {
            l_count.set(l_count.get() + 1);
        }
    };
    let high_count = mgr.process_high(&run).len();
    assert_eq!(high_count, 2);
    assert_eq!(h_count.get(), 2);
    assert_eq!(l_count.get(), 0);
    assert_eq!(mgr.high.pending_count(), 0);

    let low_count = mgr.process_low(&run).len();
    assert_eq!(low_count, 1);
    assert_eq!(l_count.get(), 1);
    assert_eq!(mgr.low.pending_count(), 0);
}

#[test]
fn wq_pending_flag() {
    let mut wq: WorkQueue<u8> = WorkQueue::new();
    assert!(!wq.pending());
    wq.push(0);
    assert!(wq.pending());
    wq.pop();
    assert!(!wq.pending());
}

#[test]
fn drain_runs_items_in_order() {
    let seen = std::cell::RefCell::new(Vec::new());
    let mut wq: WorkQueue<u32> = WorkQueue::new();
    for i in 0..5 {
        assert!(wq.push(i));
    }
    let n = wq.drain(&|x: u32| seen.borrow_mut().push(x)).len();
    assert_eq!(n, 5);
    assert_eq!(*seen.borrow(), vec![0, 1, 2, 3, 4]);
    assert!(wq.is_empty());
}

#[test]
fn queue_wraps_around() {
    let mut wq: WorkQueue<usize> = WorkQueue::new();
    for round in 0..3 {
        for i in 0..CAPACITY - 1 {
            assert!(wq.push(round * 100 + i));
        }
        assert!(!wq.push(9999));
        for i in 0..CAPACITY - 1 {
            assert_eq!(wq.pop(), Some(round * 100 + i));
        }
        assert!(wq.pop().is_none());
    }
}

#[test]
fn process_all_runs_high_first() {
    let order = std::cell::RefCell::new(Vec::new());
    let mut mgr: WorkQueueManager<&'static str> = WorkQueueManager::new();
    mgr.push_low("low1");
    mgr.push_high("high1");
    mgr.push_low("low2");
    mgr.push_high("high2");
    let (h, l) = mgr.process_all(&|s: &'static str| order.borrow_mut().push(s));
    assert_eq!((h.len(), l.len()), (2, 2));
    assert_eq!(*order.borrow(), vec!["high1", "high2", "low1", "low2"]);
}

#[test]
fn outcomes_follow_queue_order() {
    let mut mgr: WorkQueueManager<u32> = WorkQueueManager::new();
    mgr.push_low(10);
    mgr.push_high(1);
    mgr.push_high(2);
    mgr.push_low(20);
    let (h, l) = mgr.process_all(&|x: u32| x * 3);
    assert_eq!(h, vec![3, 6]);
    assert_eq!(l, vec![30, 60]);
    assert!(mgr.high.is_empty() && mgr.low.is_empty());
    assert!(!mgr.high.pending() && !mgr.low.pending());
}
