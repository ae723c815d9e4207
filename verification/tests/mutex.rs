use nx_sync::mutex::LockAttempt;
use nx_sync::mutex::LockOutcome;
use nx_sync::mutex::Mutex;
use nx_sync::mutex::UnlockOutcome;
use nx_sync::mutex::lock_attempt;
use nx_sync::result::TryLockError;
use nx_sync::result::try_lock_result;
use nx_sync::word::HANDLE_WAIT_MASK;
use nx_sync::word::INVALID_TAG;
use nx_sync::word::MutexState;
use nx_sync::word::decode;
use nx_sync::word::encode;
use nx_sync::word::tag_valid;

#[test]
fn word_encode_decode_round_trip() {
    assert_eq!(encode(MutexState::Unlocked), INVALID_TAG);
    assert_eq!(encode(MutexState::Owned { owner: 5, waiters: false }), 5);
    assert_eq!(
        encode(MutexState::Owned { owner: 5, waiters: true }),
        5 | HANDLE_WAIT_MASK
    );
    assert_eq!(decode(INVALID_TAG), MutexState::Unlocked);
    assert_eq!(decode(5), MutexState::Owned { owner: 5, waiters: false });
    assert_eq!(
        decode(5 | HANDLE_WAIT_MASK),
        MutexState::Owned { owner: 5, waiters: true }
    );
}

#[test]
fn tag_validity() {
    assert!(tag_valid(5));
    assert!(tag_valid(0));
    assert!(!tag_valid(0x4000_0005));
    assert!(!tag_valid(0xBFFF_FFFF));
    assert!(!tag_valid(INVALID_TAG));
}

#[test]
fn retry_loop_decisions() {
    // What one iteration of the acquisition loop decides after each possible
    // observation of the word.
    assert_eq!(lock_attempt(INVALID_TAG, 5), LockAttempt::Acquire { new_word: 5 });
    assert_eq!(
        lock_attempt(6, 5),
        LockAttempt::MarkContended { new_word: 6 | HANDLE_WAIT_MASK, owner: 6 }
    );
    assert_eq!(
        lock_attempt(6 | HANDLE_WAIT_MASK, 5),
        LockAttempt::Escalate { owner: 6 }
    );
}

#[test]
fn fast_path_lock_unlock() {
    let mut m = Mutex::new();
    assert_eq!(m.word, INVALID_TAG);
    assert_eq!(m.lock(5, 1), LockOutcome::Acquired);
    assert_eq!(m.word, 5);
    assert!(m.is_locked_by_current_thread(5));
    assert!(!m.is_locked_by_current_thread(6));
    assert_eq!(m.unlock(5), UnlockOutcome::Released { woken: None });
    assert_eq!(m.word, INVALID_TAG);
    assert!(!m.is_locked_by_current_thread(5));
}

#[test]
fn mutual_exclusion_observed() {
    // At most one thread ever observes itself as owner.
    let mut m = Mutex::new();
    m.lock(5, 1);
    m.lock(6, 2);
    m.lock(7, 3);
    let owners = [5u32, 6, 7]
        .iter()
        .filter(|&&t| m.is_locked_by_current_thread(t))
        .count();
    assert_eq!(owners, 1);
    assert!(m.is_locked_by_current_thread(5));
}

#[test]
fn contended_lock_sets_wait_bit_and_suspends() {
    let mut m = Mutex::new();
    assert_eq!(m.lock(5, 1), LockOutcome::Acquired);
    assert_eq!(m.lock(6, 2), LockOutcome::Suspended);
    assert_eq!(m.word, 5 | HANDLE_WAIT_MASK);
    assert_eq!(m.waiters.len(), 1);
    assert!(m.is_locked_by_current_thread(5));
}

#[test]
fn unlock_wakes_highest_priority_waiter() {
    let mut m = Mutex::new();
    m.lock(5, 1);
    m.lock(6, 10);
    m.lock(7, 20);
    assert_eq!(m.unlock(5), UnlockOutcome::Released { woken: Some(7) });
    assert!(m.is_locked_by_current_thread(7));
    // One waiter remains, so the transferred word keeps the waiter bit.
    assert_eq!(m.word, 7 | HANDLE_WAIT_MASK);
    assert_eq!(m.unlock(7), UnlockOutcome::Released { woken: Some(6) });
    assert!(m.is_locked_by_current_thread(6));
    assert_eq!(m.word, 6);
    assert_eq!(m.unlock(6), UnlockOutcome::Released { woken: None });
    assert_eq!(m.word, INVALID_TAG);
}

#[test]
fn unlock_without_ownership_is_a_no_op() {
    // Neither the word nor the arbitration queue is touched, and no waiter
    // is woken, when a non-owner unlocks.
    let mut m = Mutex::new();
    m.lock(5, 1);
    m.lock(6, 2);
    let word_before = m.word;
    let waiters_before = m.waiters.len();
    assert_eq!(m.unlock(6), UnlockOutcome::NotOwner);
    assert_eq!(m.unlock(9), UnlockOutcome::NotOwner);
    assert_eq!(m.word, word_before);
    assert_eq!(m.waiters.len(), waiters_before);

    let mut free = Mutex::new();
    assert_eq!(free.unlock(5), UnlockOutcome::NotOwner);
    assert_eq!(free.word, INVALID_TAG);
}

#[test]
fn try_lock_never_blocks() {
    // Success exactly on an unlocked word; a failure changes nothing and
    // never enqueues the caller in the kernel.
    let mut m = Mutex::new();
    assert!(m.try_lock(9));
    assert!(m.is_locked_by_current_thread(9));
    assert!(!m.try_lock(8));
    assert_eq!(m.waiters.len(), 0);
    assert_eq!(m.word, 9);

    // Contended case: the word and queue stay exactly as they were.
    m.lock(6, 2);
    let word_before = m.word;
    assert!(!m.try_lock(8));
    assert_eq!(m.word, word_before);
    assert_eq!(m.waiters.len(), 1);
}

#[test]
fn cancelled_waiter_leaves_quietly() {
    let mut m = Mutex::new();
    m.lock(5, 1);
    m.lock(6, 2);
    m.lock(7, 3);
    m.cancel_lock(7);
    assert_eq!(m.waiters.len(), 1);
    // The wait bit may be stale after a cancellation; the next unlock still
    // behaves.
    assert_eq!(m.unlock(5), UnlockOutcome::Released { woken: Some(6) });
    assert!(m.is_locked_by_current_thread(6));
}

#[test]
fn try_lock_result_vocabulary() {
    let mut m = Mutex::new();
    assert_eq!(try_lock_result(m.try_lock(5)), Ok(()));
    assert_eq!(try_lock_result(m.try_lock(6)), Err(TryLockError::WouldBlock));
}
