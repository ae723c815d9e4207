use nx_sync::condvar::CONDVAR_DEFAULT;
use nx_sync::condvar::Condvar;
use nx_sync::condvar::TIMEOUT_INFINITE;
use nx_sync::condvar::Timeout;
use nx_sync::condvar::WaitStatus;
use nx_sync::condvar::cancel_wait;
use nx_sync::condvar::fire_timeout;
use nx_sync::condvar::signal;
use nx_sync::condvar::signal_one;
use nx_sync::condvar::wait;
use nx_sync::mutex::LockOutcome;
use nx_sync::mutex::Mutex;
use nx_sync::mutex::UnlockOutcome;
use nx_sync::word::INVALID_TAG;

#[test]
fn timeout_encoding_round_trip() {
    assert_eq!(Timeout::NoWait.encode(), 0);
    assert_eq!(Timeout::Infinite.encode(), TIMEOUT_INFINITE);
    assert_eq!(Timeout::Finite { ns: 1_500 }.encode(), 1_500);
    assert_eq!(Timeout::decode(0), Timeout::NoWait);
    assert_eq!(Timeout::decode(TIMEOUT_INFINITE), Timeout::Infinite);
    assert_eq!(Timeout::decode(250), Timeout::Finite { ns: 250 });
}

#[test]
fn wait_releases_the_mutex() {
    let mut cv = Condvar::new();
    let mut m = Mutex::new();
    assert_eq!(m.lock(10, 5), LockOutcome::Acquired);
    let r = wait(&mut cv, &mut m, 10, 5, Timeout::Infinite);
    assert_eq!(r, WaitStatus::Suspended);
    assert!(!m.is_locked_by_current_thread(10));
    assert_eq!(m.word, INVALID_TAG);
    assert_eq!(cv.waiters.len(), 1);
}

#[test]
fn wait_release_wakes_a_mutex_waiter() {
    // The release inside wait is a full unlock: a thread suspended on the
    // mutex is woken and handed ownership in the same step.
    let mut cv = Condvar::new();
    let mut m = Mutex::new();
    m.lock(10, 5);
    assert_eq!(m.lock(12, 6), LockOutcome::Suspended);
    let r = wait(&mut cv, &mut m, 10, 5, Timeout::Infinite);
    assert_eq!(r, WaitStatus::Suspended);
    assert!(m.is_locked_by_current_thread(12));
    assert_eq!(m.waiters.len(), 0);
    assert_eq!(cv.waiters.len(), 1);
}

#[test]
fn no_lost_wakeup() {
    // A waits on the condvar; B holds the mutex, signals one, then unlocks:
    // A ends up owning the mutex.
    let mut cv = Condvar::new();
    let mut m = Mutex::new();
    m.lock(10, 5);
    assert_eq!(wait(&mut cv, &mut m, 10, 5, Timeout::Infinite), WaitStatus::Suspended);
    assert_eq!(m.lock(11, 5), LockOutcome::Acquired);
    let woken = signal(&mut cv, &mut m, 1);
    assert_eq!(woken, vec![10]);
    assert_eq!(cv.waiters.len(), 0);
    // B still holds the mutex, so A contends for it instead of running.
    assert!(m.is_locked_by_current_thread(11));
    assert!(!m.is_locked_by_current_thread(10));
    assert_eq!(m.waiters.len(), 1);
    assert_eq!(m.unlock(11), UnlockOutcome::Released { woken: Some(10) });
    assert!(m.is_locked_by_current_thread(10));
}

#[test]
fn signal_non_positive_wakes_all_waiters() {
    // Three threads blocked in wait; signalling with a non-positive count
    // moves every one of them towards ownership, and repeated unlocks by the
    // owner of the moment let each return from its wait.
    let mut cv = Condvar::new();
    let mut m = Mutex::new();
    for (tag, prio) in [(21u32, 1u32), (22, 2), (23, 3)] {
        assert_eq!(m.lock(tag, prio), LockOutcome::Acquired);
        assert_eq!(wait(&mut cv, &mut m, tag, prio, Timeout::Infinite), WaitStatus::Suspended);
    }
    assert_eq!(cv.waiters.len(), 3);
    assert_eq!(m.lock(30, 9), LockOutcome::Acquired);
    let woken = signal(&mut cv, &mut m, 0);
    assert_eq!(woken.len(), 3);
    assert_eq!(cv.waiters.len(), 0);
    assert_eq!(m.waiters.len(), 3);
    // Priority order: highest first.
    assert_eq!(woken, vec![23, 22, 21]);
    let mut granted = Vec::new();
    let mut owner = 30u32;
    while let UnlockOutcome::Released { woken: Some(next) } = m.unlock(owner) {
        assert!(m.is_locked_by_current_thread(next));
        granted.push(next);
        owner = next;
    }
    granted.sort();
    assert_eq!(granted, vec![21, 22, 23]);
}

#[test]
fn signal_negative_count_wakes_all_too() {
    let mut cv = Condvar::new();
    let mut m = Mutex::new();
    m.lock(5, 1);
    assert_eq!(wait(&mut cv, &mut m, 5, 1, Timeout::Infinite), WaitStatus::Suspended);
    m.lock(6, 2);
    assert_eq!(wait(&mut cv, &mut m, 6, 2, Timeout::Infinite), WaitStatus::Suspended);
    let woken = signal(&mut cv, &mut m, -1);
    assert_eq!(woken, vec![6, 5]);
    assert_eq!(cv.waiters.len(), 0);
    // The mutex was free: the first woken thread acquired it, the second
    // contends.
    assert!(m.is_locked_by_current_thread(6));
    assert_eq!(m.waiters.len(), 1);
}

#[test]
fn signal_on_empty_condvar_is_a_no_op() {
    let mut cv = Condvar::new();
    let mut m = Mutex::new();
    let woken = signal(&mut cv, &mut m, 1);
    assert!(woken.is_empty());
    assert_eq!(m.word, INVALID_TAG);
}

#[test]
fn signal_one_moves_highest_priority_waiter() {
    let mut cv = Condvar::new();
    let mut m = Mutex::new();
    m.lock(5, 1);
    assert_eq!(wait(&mut cv, &mut m, 5, 1, Timeout::Infinite), WaitStatus::Suspended);
    m.lock(6, 9);
    assert_eq!(wait(&mut cv, &mut m, 6, 9, Timeout::Infinite), WaitStatus::Suspended);
    let woken = signal_one(&mut cv, &mut m);
    assert_eq!(woken, 6);
    assert!(m.is_locked_by_current_thread(6));
    assert_eq!(cv.waiters.len(), 1);
}

#[test]
fn timeout_returns_without_ownership() {
    // A finite wait that fires its timeout leaves the thread without the
    // mutex: the ownership check right after the timeout is false.
    let mut cv = Condvar::new();
    let mut m = Mutex::new();
    m.lock(20, 4);
    assert_eq!(
        wait(&mut cv, &mut m, 20, 4, Timeout::Finite { ns: 1_000 }),
        WaitStatus::Suspended
    );
    fire_timeout(&mut cv, 20);
    assert_eq!(cv.waiters.len(), 0);
    assert!(!m.is_locked_by_current_thread(20));
    assert_eq!(m.waiters.len(), 0);
}

#[test]
fn no_wait_timeout_returns_at_once_without_the_mutex() {
    let mut cv = Condvar::new();
    let mut m = Mutex::new();
    m.lock(20, 4);
    let r = wait(&mut cv, &mut m, 20, 4, Timeout::NoWait);
    assert_eq!(r, WaitStatus::TimedOut { woken: None });
    assert_eq!(cv.waiters.len(), 0);
    assert!(!m.is_locked_by_current_thread(20));
    assert_eq!(m.word, INVALID_TAG);
}

#[test]
fn cancelled_wait_leaves_the_queue() {
    let mut cv = Condvar::new();
    let mut m = Mutex::new();
    m.lock(20, 4);
    assert_eq!(wait(&mut cv, &mut m, 20, 4, Timeout::Infinite), WaitStatus::Suspended);
    cancel_wait(&mut cv, 20);
    assert_eq!(cv.waiters.len(), 0);
    assert!(!m.is_locked_by_current_thread(20));
}

#[test]
fn condvar_word_resets_when_nobody_remains() {
    let mut cv = Condvar::new();
    let mut m = Mutex::new();
    assert_eq!(cv.word, CONDVAR_DEFAULT);
    m.lock(5, 1);
    assert_eq!(wait(&mut cv, &mut m, 5, 1, Timeout::Infinite), WaitStatus::Suspended);
    // The word's value is kernel-managed and opaque while waiters exist.
    cv.word = 77;
    let woken = signal(&mut cv, &mut m, 0);
    assert_eq!(woken, vec![5]);
    assert_eq!(cv.word, CONDVAR_DEFAULT);
}
