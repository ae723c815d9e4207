//! The condition-variable protocol: atomic release-and-wait, and
//! priority-ordered signalling.
//!
//! A [`Condvar`] is a 32-bit word whose bits are kernel-managed and opaque to
//! this layer, together with the kernel's queue of threads suspended in a
//! wait-process-wide-key call on it. Waiting atomically releases the
//! associated mutex and suspends the caller; signalling wakes waiters in
//! priority order, and each woken thread re-acquires the mutex through the
//! mutex protocol's own slow path. A condition variable must be paired with
//! one mutex across all of its waits; the operations here take that mutex
//! explicitly.

use vstd::prelude::*;

use crate::mutex::LockOutcome;
use crate::mutex::Mutex;
use crate::mutex::UnlockOutcome;
use crate::mutex::unlock_transition;
use crate::word::tag_is_valid;

verus! {

/// Timeout of a wait call.
#[derive(Clone, Copy, Debug, PartialEq, Eq, Structural)]
pub enum Timeout {
    /// Do not block: release the mutex and return immediately.
    NoWait,
    /// Block for at most `ns` nanoseconds.
    Finite { ns: u64 },
    /// Block until signalled or terminated.
    Infinite,
}

/// Wire encoding of the timeout argument of wait-process-wide-key: zero means
/// no wait, the all-ones sentinel means infinite.
pub const TIMEOUT_INFINITE: u64 = 0xFFFF_FFFF_FFFF_FFFF;

impl Timeout {
    /// A finite timeout is strictly between the two sentinels.
    pub open spec fn wf(self) -> bool {
        match self {
            Timeout::Finite { ns } => 0 < ns < TIMEOUT_INFINITE,
            _ => true,
        }
    }

    /// The nanosecond value handed to the kernel.
    pub open spec fn spec_encode(self) -> u64 {
        match self {
            Timeout::NoWait => 0,
            Timeout::Finite { ns } => ns,
            Timeout::Infinite => TIMEOUT_INFINITE,
        }
    }

    /// Encode the timeout into the kernel's argument form.
    pub fn encode(self) -> (raw: u64)
        ensures
            raw == self.spec_encode(),
    {
        match self {
            Timeout::NoWait => 0,
            Timeout::Finite { ns } => ns,
            Timeout::Infinite => TIMEOUT_INFINITE,
        }
    }

    /// Decode the kernel's argument form; inverse of [`Timeout::encode`] on
    /// well-formed timeouts.
    pub fn decode(raw: u64) -> (t: Timeout)
        ensures
            t == spec_decode_timeout(raw),
            t.wf(),
            t.spec_encode() == raw,
    {
        if raw == 0 {
            Timeout::NoWait
        } else if raw == TIMEOUT_INFINITE {
            Timeout::Infinite
        } else {
            Timeout::Finite { ns: raw }
        }
    }
}

/// The timeout a raw nanosecond argument denotes.
pub open spec fn spec_decode_timeout(raw: u64) -> Timeout {
    if raw == 0 {
        Timeout::NoWait
    } else if raw == TIMEOUT_INFINITE {
        Timeout::Infinite
    } else {
        Timeout::Finite { ns: raw }
    }
}

/// A well-formed timeout survives the round trip through the wire form.
pub proof fn lemma_timeout_round_trip(t: Timeout)
    requires
        t.wf(),
    ensures
        spec_decode_timeout(t.spec_encode()) == t,
{
}

/// A thread suspended in wait-process-wide-key.
#[derive(Clone, Copy, Debug, PartialEq, Eq, Structural)]
pub struct CvWaiter {
    /// The suspended thread's tag.
    pub tag: u32,
    /// Its dynamic priority, for wake selection.
    pub prio: u32,
    /// The timeout it passed to wait.
    pub timeout: Timeout,
}

/// Some entry of `s` carries `tag`.
pub open spec fn cv_contains_tag(s: Seq<CvWaiter>, tag: u32) -> bool {
    exists|i: int| 0 <= i < s.len() && s[i].tag == tag
}

/// No two entries of `s` carry the same tag.
pub open spec fn cv_tags_distinct(s: Seq<CvWaiter>) -> bool {
    forall|i: int, j: int| 0 <= i < j < s.len() ==> s[i].tag != s[j].tag
}

/// Every entry of `s` is well formed.
pub open spec fn cv_entries_wf(s: Seq<CvWaiter>) -> bool {
    forall|i: int| 0 <= i < s.len() ==> (#[trigger] s[i]).timeout.wf() && tag_is_valid(s[i].tag)
}

/// The entry at `i` has maximal priority within `s`.
pub open spec fn cv_is_max_prio(s: Seq<CvWaiter>, i: int) -> bool {
    forall|j: int| 0 <= j < s.len() ==> s[j].prio <= s[i].prio
}

/// Index of the entry carrying `tag`; meaningful only while `tag` is present
/// and tags are distinct.
pub open spec fn cv_index_of(s: Seq<CvWaiter>, tag: u32) -> int {
    choose|i: int| 0 <= i < s.len() && s[i].tag == tag
}

/// Priority recorded for the waiter carrying `tag`.
pub open spec fn cv_prio_of(s: Seq<CvWaiter>, tag: u32) -> u32 {
    s[cv_index_of(s, tag)].prio
}

/// With distinct tags, an entry's recorded priority is looked up exactly.
proof fn lemma_prio_of_entry(s: Seq<CvWaiter>, e: CvWaiter)
    requires
        cv_tags_distinct(s),
        s.contains(e),
    ensures
        cv_contains_tag(s, e.tag),
        cv_prio_of(s, e.tag) == e.prio,
{
    let j = choose|j: int| 0 <= j < s.len() && s[j] == e;
    assert(0 <= j < s.len() && s[j].tag == e.tag);
    let i = cv_index_of(s, e.tag);
    assert(0 <= i < s.len() && s[i].tag == e.tag);
    if i < j {
        assert(s[i].tag != s[j].tag);
    } else if j < i {
        assert(s[j].tag != s[i].tag);
    }
}

/// Removing an entry leaves only entries of the original queue.
proof fn lemma_remove_entries_contained(s: Seq<CvWaiter>, i: int)
    requires
        0 <= i < s.len(),
    ensures
        forall|j: int| 0 <= j < s.remove(i).len() ==> s.contains(#[trigger] s.remove(i)[j]),
{
    let r = s.remove(i);
    assert forall|j: int| 0 <= j < r.len() implies s.contains(r[j]) by {
        if j < i {
            assert(r[j] == s[j]);
        } else {
            assert(r[j] == s[j + 1]);
        }
    }
}

/// What a wait call returned, from the waiting thread's point of view.
#[derive(Clone, Copy, Debug, PartialEq, Eq, Structural)]
pub enum WaitStatus {
    /// The caller is suspended on the condition variable; it resumes when a
    /// signal, its timeout, or termination removes it from the queue.
    Suspended,
    /// A no-wait call: the mutex was released and the call returned at once,
    /// without the mutex. `woken` is the waiter the release transferred the
    /// mutex to, if any.
    TimedOut { woken: Option<u32> },
}

/// A condition-variable word together with the kernel's queue of threads
/// suspended in wait-process-wide-key on it.
pub struct Condvar {
    /// The shared 32-bit condvar word. Its value is kernel-managed opaque
    /// state; this layer never interprets its bits, and the kernel resets it
    /// to the default once no waiter remains.
    pub word: u32,
    /// Threads suspended in wait-process-wide-key on this word.
    pub waiters: Vec<CvWaiter>,
}

/// The default value the kernel resets an idle condvar word to.
pub const CONDVAR_DEFAULT: u32 = 0;

impl Condvar {
    /// Whether `tag` is suspended on this condition variable.
    pub open spec fn has_waiter(self, tag: u32) -> bool {
        cv_contains_tag(self.waiters@, tag)
    }

    /// Every state the protocol can reach: waiter tags are well formed and
    /// pairwise distinct, timeouts well formed.
    pub open spec fn wf(self) -> bool {
        &&& cv_tags_distinct(self.waiters@)
        &&& cv_entries_wf(self.waiters@)
    }

    /// A freshly initialised condition variable.
    pub fn new() -> (cv: Condvar)
        ensures
            cv.wf(),
            cv.word == CONDVAR_DEFAULT,
            cv.waiters@.len() == 0,
    {
        Condvar { word: CONDVAR_DEFAULT, waiters: Vec::new() }
    }
}

/// The threads suspended on the condition variable are exactly the threads
/// "blocked in wait": none of them holds the associated mutex and none of
/// them is simultaneously waiting for it.
pub open spec fn cv_apart_from_mutex(cv: Condvar, m: Mutex) -> bool {
    forall|t: u32|
        #[trigger] cv.has_waiter(t) ==> !m.is_owned_by(t) && !m.has_waiter(t)
}

/// Atomically release the mutex and suspend the caller on the condition
/// variable.
///
/// Must be called with `m` held by `tag`. The release happens exactly as an
/// unlock by the owner, including the transfer of ownership to a suspended
/// mutex waiter; from that instant the caller no longer holds the mutex. A
/// zero timeout never enqueues the caller: the call returns at once, timed
/// out, and the caller does not hold the mutex. Any other timeout suspends
/// the caller until a signal, the timeout, or termination removes it.
pub fn wait(cv: &mut Condvar, m: &mut Mutex, tag: u32, prio: u32, timeout: Timeout) -> (r:
    WaitStatus)
    requires
        old(cv).wf(),
        old(m).wf(),
        cv_apart_from_mutex(*old(cv), *old(m)),
        tag_is_valid(tag),
        timeout.wf(),
        old(m).is_owned_by(tag),
    ensures
        final(cv).wf(),
        final(m).wf(),
        cv_apart_from_mutex(*final(cv), *final(m)),
        !final(m).is_owned_by(tag),
        !final(m).has_waiter(tag),
        final(cv).word == old(cv).word,
        exists|wk: Option<u32>|
            unlock_transition(*old(m), *final(m), tag, UnlockOutcome::Released { woken: wk })
                && (timeout == Timeout::NoWait ==> r == (WaitStatus::TimedOut { woken: wk })),
        timeout == Timeout::NoWait ==> final(cv).waiters@ == old(cv).waiters@,
        timeout != Timeout::NoWait ==> r == WaitStatus::Suspended && final(cv).waiters@ == old(
            cv,
        ).waiters@.push(CvWaiter { tag, prio, timeout }) && final(cv).has_waiter(tag),
{
    proof {
        // The caller owns the mutex, so it is not among the condvar waiters.
        assert(!old(cv).has_waiter(tag));
    }
    // The kernel releases the mutex on the caller's behalf, waking the next
    // arbitrate-lock waiter exactly as an unlock by the owner would.
    let released = m.unlock(tag);
    let woken = match released {
        UnlockOutcome::Released { woken } => woken,
        UnlockOutcome::NotOwner => {
            proof {
                assert(false);
            }
            None
        }
    };
    let r = match timeout {
        Timeout::NoWait => {
            // Do not block: the caller returns at once, without the mutex.
            WaitStatus::TimedOut { woken }
        }
        _ => {
            proof {
                lemma_cv_push_keeps_queue(cv.waiters@, CvWaiter { tag, prio, timeout });
            }
            cv.waiters.push(CvWaiter { tag, prio, timeout });
            WaitStatus::Suspended
        }
    };
    proof {
        assert forall|t: u32| #[trigger] cv.has_waiter(t) implies !m.is_owned_by(t)
            && !m.has_waiter(t) by {
            if t != tag {
                assert(old(cv).has_waiter(t));
            }
        }
    }
    r
}

/// What waking one thread does, as a relation between the states before and
/// after: a maximal-priority waiter leaves the condition variable and
/// re-acquires the mutex through the mutex protocol, either owning it at once
/// or joining its arbitration queue.
pub open spec fn signal_one_transition(
    cv_pre: Condvar,
    m_pre: Mutex,
    cv_post: Condvar,
    m_post: Mutex,
    woken: u32,
) -> bool {
    exists|i: int|
        {
            &&& 0 <= i < cv_pre.waiters@.len()
            &&& #[trigger] cv_is_max_prio(cv_pre.waiters@, i)
            &&& woken == cv_pre.waiters@[i].tag
            &&& cv_post.waiters@ == cv_pre.waiters@.remove(i)
            &&& crate::mutex::lock_transition(
                m_pre,
                m_post,
                cv_pre.waiters@[i].tag,
                cv_pre.waiters@[i].prio,
                if m_pre.owner() is None {
                    LockOutcome::Acquired
                } else {
                    LockOutcome::Suspended
                },
            )
        }
}

/// Wake the single highest-priority waiter (ties kernel-defined).
///
/// The woken thread is removed from the condition variable and immediately
/// contends for the mutex: it acquires it if the mutex is free, otherwise it
/// is suspended in the mutex's arbitration queue. Either way the wakeup is
/// never lost: the woken thread afterwards owns the mutex or waits for it.
pub fn signal_one(cv: &mut Condvar, m: &mut Mutex) -> (woken: u32)
    requires
        old(cv).wf(),
        old(m).wf(),
        cv_apart_from_mutex(*old(cv), *old(m)),
        old(cv).waiters@.len() > 0,
    ensures
        final(cv).wf(),
        final(m).wf(),
        cv_apart_from_mutex(*final(cv), *final(m)),
        signal_one_transition(*old(cv), *old(m), *final(cv), *final(m), woken),
        old(cv).has_waiter(woken),
        !final(cv).has_waiter(woken),
        final(m).is_owned_by(woken) || final(m).has_waiter(woken),
        old(m).state() == crate::word::MutexState::Unlocked ==> final(m).is_owned_by(woken),
        old(m).owner() is Some ==> final(m).owner() == old(m).owner(),
        final(cv).waiters@.len() == old(cv).waiters@.len() - 1,
        final(cv).word == old(cv).word,
        forall|j: int|
            0 <= j < final(cv).waiters@.len() ==> (#[trigger] final(cv).waiters@[j]).prio
                <= cv_prio_of(old(cv).waiters@, woken),
        forall|j: int|
            0 <= j < final(cv).waiters@.len() ==> old(cv).waiters@.contains(
                #[trigger] final(cv).waiters@[j],
            ),
        forall|t: u32| t != woken ==> (final(cv).has_waiter(t) <==> old(cv).has_waiter(t)),
        forall|t: u32|
            t != woken ==> ((final(m).has_waiter(t) <==> old(m).has_waiter(t))
                && (final(m).is_owned_by(t) <==> old(m).is_owned_by(t))),
{
    let i = cv_index_of_max_prio(&cv.waiters);
    proof {
        lemma_cv_remove_keeps_queue(cv.waiters@, i as int);
        lemma_remove_entries_contained(cv.waiters@, i as int);
        assert(cv.waiters@.contains(cv.waiters@[i as int]));
        lemma_prio_of_entry(cv.waiters@, cv.waiters@[i as int]);
        // The chosen waiter is a condvar waiter, hence neither the owner of
        // the mutex nor suspended on it.
        assert(old(cv).has_waiter(cv.waiters@[i as int].tag));
    }
    let w = cv.waiters.remove(i);
    // Re-acquisition follows the mutex protocol's own paths: fast path on a
    // free word, arbitration queue otherwise.
    let outcome = m.lock(w.tag, w.prio);
    proof {
        assert forall|t: u32| #[trigger] cv.has_waiter(t) implies !m.is_owned_by(t)
            && !m.has_waiter(t) by {
            assert(old(cv).has_waiter(t));
        }
    }
    w.tag
}

/// Wake up to `count` waiters, all of them when `count <= 0`, in priority
/// order.
///
/// Returns the woken tags in wake order. Every woken thread leaves the
/// condition variable and afterwards owns the mutex or waits in its
/// arbitration queue; threads not woken stay exactly where they were. If no
/// waiter remains afterwards, the kernel resets the condvar word to its
/// default. Signalling an empty condition variable is a no-op.
pub fn signal(cv: &mut Condvar, m: &mut Mutex, count: i32) -> (woken: Vec<u32>)
    requires
        old(cv).wf(),
        old(m).wf(),
        cv_apart_from_mutex(*old(cv), *old(m)),
    ensures
        final(cv).wf(),
        final(m).wf(),
        cv_apart_from_mutex(*final(cv), *final(m)),
        woken@.len() == spec_wake_count(count, old(cv).waiters@.len()),
        final(cv).waiters@.len() == old(cv).waiters@.len() - woken@.len(),
        count <= 0 ==> final(cv).waiters@.len() == 0,
        forall|k: int|
            0 <= k < woken@.len() ==> old(cv).has_waiter(#[trigger] woken@[k])
                && !final(cv).has_waiter(woken@[k])
                && (final(m).is_owned_by(woken@[k]) || final(m).has_waiter(woken@[k])),
        forall|t: u32| #[trigger] final(cv).has_waiter(t) ==> old(cv).has_waiter(t),
        old(m).owner() is Some ==> final(m).owner() == old(m).owner(),
        forall|t: u32| old(m).has_waiter(t) ==> #[trigger] final(m).has_waiter(t),
        forall|k: int|
            0 <= k < woken@.len() ==> cv_wake_dominates(
                old(cv).waiters@,
                final(cv).waiters@,
                #[trigger] woken@[k],
            ),
        final(cv).waiters@.len() > 0 ==> final(cv).word == old(cv).word,
        final(cv).waiters@.len() == 0 ==> final(cv).word == CONDVAR_DEFAULT,
{
    let total = cv.waiters.len();
    let goal: usize = if count <= 0 {
        total
    } else if (count as usize) < total {
        count as usize
    } else {
        total
    };
    let mut woken: Vec<u32> = Vec::new();
    let mut done: usize = 0;
    while done < goal
        invariant
            cv.wf(),
            m.wf(),
            cv_apart_from_mutex(*cv, *m),
            0 <= done <= goal <= old(cv).waiters@.len(),
            cv.waiters@.len() == old(cv).waiters@.len() - done,
            woken@.len() == done,
            cv.word == old(cv).word,
            forall|k: int|
                0 <= k < woken@.len() ==> old(cv).has_waiter(#[trigger] woken@[k]) && !cv
                    .has_waiter(woken@[k]) && (m.is_owned_by(woken@[k]) || m.has_waiter(
                    woken@[k],
                )),
            forall|t: u32| #[trigger] cv.has_waiter(t) ==> old(cv).has_waiter(t),
            old(m).owner() is Some ==> m.owner() == old(m).owner(),
            forall|t: u32| old(m).has_waiter(t) ==> #[trigger] m.has_waiter(t),
            old(cv).wf(),
            forall|j: int|
                0 <= j < cv.waiters@.len() ==> old(cv).waiters@.contains(
                    #[trigger] cv.waiters@[j],
                ),
            forall|k: int|
                0 <= k < woken@.len() ==> cv_wake_dominates(
                    old(cv).waiters@,
                    cv.waiters@,
                    #[trigger] woken@[k],
                ),
        decreases goal - done,
    {
        let ghost prev = cv.waiters@;
        let w = signal_one(cv, m);
        proof {
            lemma_wake_step_keeps_dominance(old(cv).waiters@, prev, cv.waiters@, woken@, w);
        }
        woken.push(w);
        done = done + 1;
    }
    if cv.waiters.len() == 0 {
        // Kernel side effect: with nobody left waiting, the condvar word is
        // reset to its default value.
        cv.word = CONDVAR_DEFAULT;
    }
    woken
}

/// The woken thread `t` ranked at least as high as everything left behind:
/// its priority, as recorded in the original queue `orig`, bounds every entry
/// still in `remaining`.
pub open spec fn cv_wake_dominates(orig: Seq<CvWaiter>, remaining: Seq<CvWaiter>, t: u32) -> bool {
    forall|j: int|
        0 <= j < remaining.len() ==> (#[trigger] remaining[j]).prio <= cv_prio_of(orig, t)
}

/// One wake step keeps the dominance bookkeeping of a multi-wake signal: the
/// queue still holds only entries of the original queue, the newly woken
/// thread dominates what remains, and every earlier woken thread still does.
proof fn lemma_wake_step_keeps_dominance(
    orig: Seq<CvWaiter>,
    prev: Seq<CvWaiter>,
    cur: Seq<CvWaiter>,
    woken: Seq<u32>,
    w: u32,
)
    requires
        cv_tags_distinct(orig),
        cv_tags_distinct(prev),
        forall|j: int| 0 <= j < prev.len() ==> orig.contains(#[trigger] prev[j]),
        forall|j: int| 0 <= j < cur.len() ==> prev.contains(#[trigger] cur[j]),
        forall|j: int| 0 <= j < cur.len() ==> (#[trigger] cur[j]).prio <= cv_prio_of(prev, w),
        cv_contains_tag(prev, w),
        forall|k: int| 0 <= k < woken.len() ==> cv_wake_dominates(orig, prev, #[trigger] woken[k]),
    ensures
        forall|j: int| 0 <= j < cur.len() ==> orig.contains(#[trigger] cur[j]),
        cv_wake_dominates(orig, cur, w),
        forall|k: int| 0 <= k < woken.len() ==> cv_wake_dominates(orig, cur, #[trigger] woken[k]),
{
    assert forall|j: int| 0 <= j < cur.len() implies orig.contains(#[trigger] cur[j]) by {
        let idx = choose|idx: int| 0 <= idx < prev.len() && prev[idx] == cur[j];
        assert(orig.contains(prev[idx]));
    }
    let i = cv_index_of(prev, w);
    assert(0 <= i < prev.len() && prev[i].tag == w);
    let e = prev[i];
    assert(prev.contains(e));
    lemma_prio_of_entry(prev, e);
    assert(orig.contains(e));
    lemma_prio_of_entry(orig, e);
    assert(cv_prio_of(orig, w) == cv_prio_of(prev, w));
    assert forall|k: int|
        0 <= k < woken.len() implies cv_wake_dominates(orig, cur, #[trigger] woken[k]) by {
        assert forall|j: int|
            0 <= j < cur.len() implies (#[trigger] cur[j]).prio <= cv_prio_of(orig, woken[k]) by {
            let idx = choose|idx: int| 0 <= idx < prev.len() && prev[idx] == cur[j];
            assert(prev[idx].prio <= cv_prio_of(orig, woken[k]));
        }
    }
}

/// How many waiters a signal with argument `count` wakes out of `len`:
/// non-positive counts wake all, others at most `count`.
pub open spec fn spec_wake_count(count: i32, len: nat) -> nat {
    if count <= 0 {
        len
    } else if count as nat <= len {
        count as nat
    } else {
        len
    }
}

/// Remove a waiter whose finite timeout expired, with no signal having
/// arrived.
///
/// The thread's wait call returns timed out; it does not hold the associated
/// mutex and does not contend for it ([`lemma_waiting_thread_lacks_ownership`]
/// states that it did not hold it while suspended either).
pub fn fire_timeout(cv: &mut Condvar, tag: u32)
    requires
        old(cv).wf(),
        cv_has_finite_waiter(old(cv).waiters@, tag),
    ensures
        final(cv).wf(),
        !final(cv).has_waiter(tag),
        final(cv).waiters@.len() == old(cv).waiters@.len() - 1,
        final(cv).word == old(cv).word,
        forall|t: u32| t != tag ==> (final(cv).has_waiter(t) <==> old(cv).has_waiter(t)),
{
    remove_waiter(cv, tag);
}

/// Remove a waiter whose thread was marked for termination.
///
/// The thread's wait call surfaces the termination as a fatal condition; it
/// never retries and never re-acquires the mutex.
pub fn cancel_wait(cv: &mut Condvar, tag: u32)
    requires
        old(cv).wf(),
        old(cv).has_waiter(tag),
    ensures
        final(cv).wf(),
        !final(cv).has_waiter(tag),
        final(cv).waiters@.len() == old(cv).waiters@.len() - 1,
        final(cv).word == old(cv).word,
        forall|t: u32| t != tag ==> (final(cv).has_waiter(t) <==> old(cv).has_waiter(t)),
{
    remove_waiter(cv, tag);
}

/// No lost wakeup: with thread `a` blocked in wait on the condition variable
/// and thread `b` holding the associated mutex, `b` signalling one waiter and
/// then unlocking hands the mutex to `a` — the signal moves `a` into the
/// mutex's arbitration queue, and the unlock transfers ownership to it.
pub proof fn lemma_no_lost_wakeup(
    cv0: Condvar,
    m0: Mutex,
    cv1: Condvar,
    m1: Mutex,
    m2: Mutex,
    a: u32,
    b: u32,
    r: UnlockOutcome,
)
    requires
        cv0.wf(),
        m0.wf(),
        m1.wf(),
        cv_apart_from_mutex(cv0, m0),
        cv0.waiters@.len() == 1,
        cv0.waiters@[0].tag == a,
        m0.is_owned_by(b),
        m0.waiters@.len() == 0,
        signal_one_transition(cv0, m0, cv1, m1, a),
        unlock_transition(m1, m2, b, r),
    ensures
        r == (UnlockOutcome::Released { woken: Some(a) }),
        m2.is_owned_by(a),
{
    assert(cv0.has_waiter(a));
    let i = choose|i: int|
        {
            &&& 0 <= i < cv0.waiters@.len()
            &&& #[trigger] cv_is_max_prio(cv0.waiters@, i)
            &&& a == cv0.waiters@[i].tag
            &&& cv1.waiters@ == cv0.waiters@.remove(i)
            &&& crate::mutex::lock_transition(
                m0,
                m1,
                cv0.waiters@[i].tag,
                cv0.waiters@[i].prio,
                if m0.owner() is None {
                    LockOutcome::Acquired
                } else {
                    LockOutcome::Suspended
                },
            )
        };
    assert(i == 0);
    // The signal pushed `a` onto the mutex's arbitration queue, with the
    // owner bits of the word untouched.
    assert(m1.waiters@ == m0.waiters@.push(crate::waitq::Waiter {
        tag: a,
        prio: cv0.waiters@[0].prio,
    }));
    crate::mutex::lemma_contended_word(m0.word);
    assert(m1.is_owned_by(b));
    // The unlock then finds exactly one suspended thread: `a`.
    let j = choose|j: int|
        {
            &&& 0 <= j < m1.waiters@.len()
            &&& #[trigger] crate::waitq::is_max_prio(m1.waiters@, j)
            &&& m2.waiters@ == m1.waiters@.remove(j)
            &&& m2.word == if m1.waiters@.len() > 1 {
                m1.waiters@[j].tag | crate::word::HANDLE_WAIT_MASK
            } else {
                m1.waiters@[j].tag
            }
            &&& r == (UnlockOutcome::Released { woken: Some(m1.waiters@[j].tag) })
        };
    assert(j == 0);
    assert(m2.word == a);
    assert(tag_is_valid(a));
    assert(a & crate::word::HANDLE_WAIT_MASK == 0 && a != (crate::word::INVALID_TAG
        & !crate::word::HANDLE_WAIT_MASK) ==> a != crate::word::INVALID_TAG && a
        & !crate::word::HANDLE_WAIT_MASK == a) by (bit_vector);
}

/// `tag` is suspended with a finite timeout.
pub open spec fn cv_has_finite_waiter(s: Seq<CvWaiter>, tag: u32) -> bool {
    exists|i: int|
        0 <= i < s.len() && s[i].tag == tag && s[i].timeout matches Timeout::Finite { ns }
}

/// A thread suspended on the condition variable does not hold the associated
/// mutex: when its wait ends without a signal, it returns without ownership.
pub proof fn lemma_waiting_thread_lacks_ownership(cv: Condvar, m: Mutex, tag: u32)
    requires
        cv_apart_from_mutex(cv, m),
        cv.has_waiter(tag),
    ensures
        !m.is_owned_by(tag),
        !m.has_waiter(tag),
{
}

fn remove_waiter(cv: &mut Condvar, tag: u32)
    requires
        old(cv).wf(),
        old(cv).has_waiter(tag),
    ensures
        final(cv).wf(),
        !final(cv).has_waiter(tag),
        final(cv).waiters@.len() == old(cv).waiters@.len() - 1,
        final(cv).word == old(cv).word,
        forall|t: u32| t != tag ==> (final(cv).has_waiter(t) <==> old(cv).has_waiter(t)),
{
    let i = cv_index_of_tag(&cv.waiters, tag);
    proof {
        lemma_cv_remove_keeps_queue(cv.waiters@, i as int);
    }
    cv.waiters.remove(i);
}

/// Removing an entry keeps the queue well formed, removes exactly that
/// entry's tag, and introduces no new tags.
pub proof fn lemma_cv_remove_keeps_queue(s: Seq<CvWaiter>, i: int)
    requires
        0 <= i < s.len(),
        cv_tags_distinct(s),
        cv_entries_wf(s),
    ensures
        cv_tags_distinct(s.remove(i)),
        cv_entries_wf(s.remove(i)),
        !cv_contains_tag(s.remove(i), s[i].tag),
        forall|t: u32| cv_contains_tag(s.remove(i), t) ==> cv_contains_tag(s, t),
        forall|t: u32| cv_contains_tag(s, t) && t != s[i].tag ==> cv_contains_tag(s.remove(i), t),
{
    let r = s.remove(i);
    assert forall|a: int| 0 <= a < r.len() implies (#[trigger] r[a]).timeout.wf() && tag_is_valid(
        r[a].tag,
    ) && r[a].tag != s[i].tag by {
        if a < i {
            assert(r[a] == s[a]);
        } else {
            assert(r[a] == s[a + 1]);
        }
    }
    assert forall|a: int, b: int| 0 <= a < b < r.len() implies r[a].tag != r[b].tag by {
        if b < i {
            assert(r[a] == s[a] && r[b] == s[b]);
        } else if a < i {
            assert(r[a] == s[a] && r[b] == s[b + 1]);
        } else {
            assert(r[a] == s[a + 1] && r[b] == s[b + 1]);
        }
    }
    assert forall|t: u32| cv_contains_tag(s, t) && t != s[i].tag implies cv_contains_tag(r, t) by {
        let k = choose|k: int| 0 <= k < s.len() && s[k].tag == t;
        if k < i {
            assert(r[k] == s[k]);
        } else {
            assert(r[k - 1] == s[k]);
        }
    }
}

/// Appending a fresh, well-formed entry keeps the queue well formed.
pub proof fn lemma_cv_push_keeps_queue(s: Seq<CvWaiter>, w: CvWaiter)
    requires
        cv_tags_distinct(s),
        cv_entries_wf(s),
        tag_is_valid(w.tag),
        w.timeout.wf(),
        !cv_contains_tag(s, w.tag),
    ensures
        cv_tags_distinct(s.push(w)),
        cv_entries_wf(s.push(w)),
        cv_contains_tag(s.push(w), w.tag),
        forall|t: u32| cv_contains_tag(s.push(w), t) <==> cv_contains_tag(s, t) || t == w.tag,
{
    let r = s.push(w);
    assert(r[s.len() as int] == w);
    assert forall|a: int, b: int| 0 <= a < b < r.len() implies r[a].tag != r[b].tag by {
        if b < s.len() {
            assert(r[a] == s[a] && r[b] == s[b]);
        } else {
            assert(r[a] == s[a] && r[b] == w);
        }
    }
    assert forall|t: u32| cv_contains_tag(r, t) implies cv_contains_tag(s, t) || t == w.tag by {
        let k = choose|k: int| 0 <= k < r.len() && r[k].tag == t;
        if k < s.len() {
            assert(s[k].tag == t);
        }
    }
    assert forall|t: u32| cv_contains_tag(s, t) implies cv_contains_tag(r, t) by {
        let k = choose|k: int| 0 <= k < s.len() && s[k].tag == t;
        assert(r[k].tag == t);
    }
}

/// Index of a maximal-priority entry.
fn cv_index_of_max_prio(v: &Vec<CvWaiter>) -> (i: usize)
    requires
        v@.len() > 0,
    ensures
        0 <= i < v@.len(),
        cv_is_max_prio(v@, i as int),
{
    let mut best: usize = 0;
    let mut k: usize = 1;
    while k < v.len()
        invariant
            0 < k <= v@.len(),
            0 <= best < k,
            forall|j: int| 0 <= j < k ==> v@[j].prio <= v@[best as int].prio,
        decreases v@.len() - k,
    {
        if v[k].prio > v[best].prio {
            best = k;
        }
        k = k + 1;
    }
    best
}

/// Index of the entry carrying `tag`.
fn cv_index_of_tag(v: &Vec<CvWaiter>, tag: u32) -> (i: usize)
    requires
        cv_contains_tag(v@, tag),
    ensures
        0 <= i < v@.len(),
        v@[i as int].tag == tag,
{
    let mut k: usize = 0;
    while k < v.len()
        invariant
            0 <= k <= v@.len(),
            cv_contains_tag(v@, tag),
            forall|j: int| 0 <= j < k ==> v@[j].tag != tag,
        decreases v@.len() - k,
    {
        if v[k].tag == tag {
            return k;
        }
        k = k + 1;
    }
    proof {
        let w = choose|i: int| 0 <= i < v@.len() && v@[i].tag == tag;
        assert(false);
    }
    0
}

} // verus!
