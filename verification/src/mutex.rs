//! The mutex protocol: fast-path acquisition on the word, kernel arbitration
//! under contention.
//!
//! A [`Mutex`] couples the shared 32-bit word with the kernel's view of it:
//! the queue of threads suspended in an arbitrate-lock call on this word. The
//! operations are the protocol's transitions, each stated exactly against the
//! decoded word; [`lock_attempt`] is the decision one iteration of the
//! user-space retry loop takes after observing a word value.
//!
//! On the hardware the word is touched through three primitives:
//! load-exclusive, which reads the word and establishes a reservation;
//! store-exclusive, which commits a new value only if no other write broke
//! the reservation, with release ordering so that the old owner's writes are
//! visible to the next; and clear-exclusive, which abandons a reservation
//! without writing. A broken reservation only sends the loop back to a fresh
//! load and the same decision on the fresh value, so the transitions here are
//! exactly the iterations that commit, and they cover every interleaving the
//! primitives allow.

use vstd::prelude::*;

use crate::waitq::Waiter;
use crate::waitq::contains_tag;
use crate::waitq::index_of_max_prio;
use crate::waitq::index_of_tag;
use crate::waitq::is_max_prio;
use crate::waitq::lemma_push_keeps_queue;
use crate::waitq::lemma_remove_keeps_queue;
use crate::waitq::tags_distinct;
use crate::waitq::tags_valid;
use crate::word::HANDLE_WAIT_MASK;
use crate::word::INVALID_TAG;
use crate::word::MutexState;
use crate::word::spec_decode;
use crate::word::spec_owner;
use crate::word::tag_is_valid;
use crate::word::word_wf;

verus! {

/// What a lock call did: acquired on the fast path, or suspended in the
/// kernel until ownership is transferred to the caller.
#[derive(Clone, Copy, Debug, PartialEq, Eq, Structural)]
pub enum LockOutcome {
    /// The caller owns the mutex.
    Acquired,
    /// The caller is suspended in arbitrate-lock; it resumes as owner when a
    /// later unlock transfers the mutex to it.
    Suspended,
}

/// What an unlock call did.
#[derive(Clone, Copy, Debug, PartialEq, Eq, Structural)]
pub enum UnlockOutcome {
    /// The caller was not the recorded owner; nothing was changed.
    NotOwner,
    /// The mutex was released; `woken` is the waiter the kernel transferred
    /// ownership to, if any thread was waiting.
    Released { woken: Option<u32> },
}

/// The decision one iteration of the lock retry loop takes after reading the
/// word.
#[derive(Clone, Copy, Debug, PartialEq, Eq, Structural)]
pub enum LockAttempt {
    /// The word showed the mutex unlocked: store the caller's own tag.
    Acquire { new_word: u32 },
    /// Locked by `owner` with no waiter bit: store the word back with the
    /// waiter bit set, then escalate to arbitrate-lock.
    MarkContended { new_word: u32, owner: u32 },
    /// Locked by `owner` with the waiter bit already set: escalate to
    /// arbitrate-lock directly.
    Escalate { owner: u32 },
}

/// Decide what to do with an observed word value when trying to lock.
///
/// This is exactly the case split of the acquisition loop: the caller then
/// attempts the indicated exclusive store (retrying the whole decision if the
/// monitor was broken) or asks the kernel to arbitrate against `owner`.
pub fn lock_attempt(value: u32, tag: u32) -> (r: LockAttempt)
    requires
        tag_is_valid(tag),
    ensures
        match spec_decode(value) {
            MutexState::Unlocked => r == (LockAttempt::Acquire { new_word: tag }),
            MutexState::Owned { owner, waiters } => if waiters {
                r == (LockAttempt::Escalate { owner })
            } else {
                r == (LockAttempt::MarkContended { new_word: value | HANDLE_WAIT_MASK, owner })
            },
        },
{
    if value == INVALID_TAG {
        LockAttempt::Acquire { new_word: tag }
    } else if value & HANDLE_WAIT_MASK == 0 {
        proof {
            assert(value & HANDLE_WAIT_MASK == 0 ==> value & !HANDLE_WAIT_MASK == value)
                by (bit_vector);
        }
        LockAttempt::MarkContended { new_word: value | HANDLE_WAIT_MASK, owner: value }
    } else {
        LockAttempt::Escalate { owner: value & !HANDLE_WAIT_MASK }
    }
}

/// A mutex word together with the kernel's arbitration queue for it.
///
/// `word` is the shared 32-bit location that application code placed in
/// memory; `waiters` are the threads suspended in arbitrate-lock on it,
/// ordinarily mutated only by the kernel. Holding both in one value lets the
/// protocol's complete effect on the system be stated and proved.
pub struct Mutex {
    /// The shared mutex word, in wire form.
    pub word: u32,
    /// Threads suspended in arbitrate-lock on this word.
    pub waiters: Vec<Waiter>,
}

impl Mutex {
    /// The decoded form of the current word.
    pub open spec fn state(self) -> MutexState {
        spec_decode(self.word)
    }

    /// The thread recorded as owner, if the mutex is locked.
    pub open spec fn owner(self) -> Option<u32> {
        spec_owner(self.word)
    }

    /// Whether `tag` is the recorded owner.
    pub open spec fn is_owned_by(self, tag: u32) -> bool {
        self.owner() == Some(tag)
    }

    /// Whether `tag` is suspended in arbitrate-lock on this mutex.
    pub open spec fn has_waiter(self, tag: u32) -> bool {
        contains_tag(self.waiters@, tag)
    }

    /// Every state the protocol can reach.
    ///
    /// The word decodes to a well-formed state; waiter tags are well formed
    /// and pairwise distinct; a suspended thread implies the waiter bit; the
    /// owner is never simultaneously suspended.
    pub open spec fn wf(self) -> bool {
        &&& word_wf(self.word)
        &&& tags_distinct(self.waiters@)
        &&& tags_valid(self.waiters@)
        &&& self.waiters@.len() > 0 ==> self.state() == (MutexState::Owned {
            owner: self.word & !HANDLE_WAIT_MASK,
            waiters: true,
        })
        &&& match self.owner() {
            Some(o) => !contains_tag(self.waiters@, o),
            None => true,
        }
    }

    /// A freshly initialised mutex: unlocked, nobody waiting.
    pub fn new() -> (m: Mutex)
        ensures
            m.wf(),
            m.word == INVALID_TAG,
            m.waiters@.len() == 0,
            m.state() == MutexState::Unlocked,
    {
        Mutex { word: INVALID_TAG, waiters: Vec::new() }
    }

    /// Lock the mutex on behalf of the thread `tag` with dynamic priority
    /// `prio`.
    ///
    /// On an unlocked word the caller acquires on the fast path, with no
    /// kernel involvement. Otherwise the waiter bit is set and the caller is
    /// suspended in arbitrate-lock until a later unlock transfers ownership
    /// to it; it never acquires past a waiter already suspended and never
    /// spins. Locking a mutex the caller already owns or already waits on
    /// would suspend it forever, so those calls are excluded.
    pub fn lock(&mut self, tag: u32, prio: u32) -> (r: LockOutcome)
        requires
            old(self).wf(),
            tag_is_valid(tag),
            !old(self).is_owned_by(tag),
            !old(self).has_waiter(tag),
        ensures
            final(self).wf(),
            lock_transition(*old(self), *final(self), tag, prio, r),
            r == LockOutcome::Acquired ==> final(self).is_owned_by(tag) && final(self).state()
                == (MutexState::Owned { owner: tag, waiters: false }),
            r == LockOutcome::Suspended ==> final(self).has_waiter(tag) && final(self).owner()
                == old(self).owner(),
            r == LockOutcome::Acquired <==> old(self).state() == MutexState::Unlocked,
            forall|t: u32|
                t != tag ==> ((final(self).has_waiter(t) <==> old(self).has_waiter(t))
                    && (final(self).is_owned_by(t) <==> old(self).is_owned_by(t))),
    {
        let value = self.word;
        let attempt = lock_attempt(value, tag);
        match attempt {
            LockAttempt::Acquire { new_word } => {
                // Exclusive store of the caller's own tag: the fast path.
                self.word = new_word;
                proof {
                    assert(tag & HANDLE_WAIT_MASK == 0 && tag != (INVALID_TAG
                        & !HANDLE_WAIT_MASK) ==> tag != INVALID_TAG && tag & !HANDLE_WAIT_MASK
                        == tag) by (bit_vector);
                }
                LockOutcome::Acquired
            }
            LockAttempt::MarkContended { new_word, owner } => {
                // Exclusive store of the word with the waiter bit, then ask
                // the kernel to arbitrate: the caller suspends.
                self.word = new_word;
                proof {
                    lemma_contended_word(value);
                    lemma_push_keeps_queue(old(self).waiters@, Waiter { tag, prio });
                }
                self.waiters.push(Waiter { tag, prio });
                LockOutcome::Suspended
            }
            LockAttempt::Escalate { owner } => {
                // The waiter bit is already set: arbitrate directly.
                proof {
                    lemma_contended_word(value);
                    assert(value & HANDLE_WAIT_MASK != 0 ==> value | HANDLE_WAIT_MASK == value)
                        by (bit_vector);
                    lemma_push_keeps_queue(old(self).waiters@, Waiter { tag, prio });
                }
                self.waiters.push(Waiter { tag, prio });
                LockOutcome::Suspended
            }
        }
    }

    /// Try to lock the mutex without ever blocking.
    ///
    /// The fast path alone: if the word shows the mutex unlocked, the
    /// caller's tag is stored and the call succeeds; any other state fails
    /// immediately. No kernel call is made and the waiter queue is never
    /// touched, so the call returns after a single bounded attempt.
    pub fn try_lock(&mut self, tag: u32) -> (acquired: bool)
        requires
            old(self).wf(),
            tag_is_valid(tag),
        ensures
            final(self).wf(),
            try_lock_transition(*old(self), *final(self), tag, acquired),
            final(self).waiters@ == old(self).waiters@,
            acquired ==> final(self).is_owned_by(tag),
            !acquired ==> *final(self) == *old(self),
            acquired <==> old(self).state() == MutexState::Unlocked,
    {
        let value = self.word;
        if value == INVALID_TAG {
            self.word = tag;
            proof {
                assert(tag & HANDLE_WAIT_MASK == 0 && tag != (INVALID_TAG & !HANDLE_WAIT_MASK)
                    ==> tag != INVALID_TAG && tag & !HANDLE_WAIT_MASK == tag) by (bit_vector);
            }
            true
        } else {
            false
        }
    }

    /// Unlock the mutex on behalf of the thread `tag`.
    ///
    /// A caller that is not the recorded owner changes nothing: the call is
    /// a no-op by design, and in particular never invokes arbitration. An
    /// owner with no waiter bit releases on the fast path. With the waiter
    /// bit set the kernel selects a maximal-priority waiter, transfers
    /// ownership to it by rewriting the word, and wakes it; the bit stays
    /// set exactly when further waiters remain.
    pub fn unlock(&mut self, tag: u32) -> (r: UnlockOutcome)
        requires
            old(self).wf(),
            tag_is_valid(tag),
        ensures
            final(self).wf(),
            unlock_transition(*old(self), *final(self), tag, r),
            r == UnlockOutcome::NotOwner ==> *final(self) == *old(self),
            r == UnlockOutcome::NotOwner <==> !old(self).is_owned_by(tag),
            r == (UnlockOutcome::Released { woken: Option::<u32>::None }) ==> final(self).state()
                == MutexState::Unlocked,
            r matches UnlockOutcome::Released { woken: Some(w) } ==> final(self).is_owned_by(w)
                && old(self).has_waiter(w) && !final(self).has_waiter(w)
                && final(self).waiters@.len() == old(self).waiters@.len() - 1,
            forall|t: u32| #[trigger] final(self).has_waiter(t) ==> old(self).has_waiter(t),
    {
        let value = self.word;
        if value & !HANDLE_WAIT_MASK != tag {
            // Not the owner: return without side effects.
            return UnlockOutcome::NotOwner;
        }
        proof {
            assert(INVALID_TAG & !HANDLE_WAIT_MASK != tag && value & !HANDLE_WAIT_MASK == tag
                ==> value != INVALID_TAG) by (bit_vector)
                requires
                    tag & HANDLE_WAIT_MASK == 0 && tag != (INVALID_TAG & !HANDLE_WAIT_MASK)
                        && value & !HANDLE_WAIT_MASK == tag,
            ;
        }
        if value & HANDLE_WAIT_MASK == 0 {
            // Owner, no waiter bit: release on the fast path.
            self.word = INVALID_TAG;
            return UnlockOutcome::Released { woken: None };
        }
        // Waiter bit set: the kernel arbitrates the unlock.
        if self.waiters.len() == 0 {
            // A cancelled waiter can leave the bit set with nobody suspended;
            // the kernel finds no waiter and clears the word.
            self.word = INVALID_TAG;
            return UnlockOutcome::Released { woken: None };
        }
        let i = index_of_max_prio(&self.waiters);
        proof {
            lemma_remove_keeps_queue(self.waiters@, i as int);
        }
        let w = self.waiters.remove(i);
        self.word = if self.waiters.len() > 0 {
            proof {
                let wt = w.tag;
                assert(wt & HANDLE_WAIT_MASK == 0 && wt != (INVALID_TAG & !HANDLE_WAIT_MASK) ==> (
                wt | HANDLE_WAIT_MASK) != INVALID_TAG && ((wt | HANDLE_WAIT_MASK)
                    & !HANDLE_WAIT_MASK) == wt && (wt | HANDLE_WAIT_MASK) & HANDLE_WAIT_MASK != 0)
                    by (bit_vector);
            }
            w.tag | HANDLE_WAIT_MASK
        } else {
            proof {
                let wt = w.tag;
                assert(wt & HANDLE_WAIT_MASK == 0 && wt != (INVALID_TAG & !HANDLE_WAIT_MASK) ==> wt
                    != INVALID_TAG && wt & !HANDLE_WAIT_MASK == wt) by (bit_vector);
            }
            w.tag
        };
        UnlockOutcome::Released { woken: Some(w.tag) }
    }

    /// Remove a suspended thread from the arbitration queue without waking
    /// it, as the kernel does when the thread is marked for termination.
    ///
    /// The word is untouched; the waiter bit may therefore stay set with
    /// nobody suspended, which a later unlock resolves harmlessly.
    pub fn cancel_lock(&mut self, tag: u32)
        requires
            old(self).wf(),
            old(self).has_waiter(tag),
        ensures
            final(self).wf(),
            final(self).word == old(self).word,
            !final(self).has_waiter(tag),
            final(self).waiters@.len() == old(self).waiters@.len() - 1,
            forall|t: u32|
                t != tag ==> (final(self).has_waiter(t) <==> old(self).has_waiter(t)),
    {
        let i = index_of_tag(&self.waiters, tag);
        proof {
            lemma_remove_keeps_queue(self.waiters@, i as int);
        }
        self.waiters.remove(i);
    }

    /// Whether the mutex is locked by the thread `tag`: the caller's tag
    /// compared against the owner bits of the word. Purely informational.
    pub fn is_locked_by_current_thread(&self, tag: u32) -> (r: bool)
        requires
            tag_is_valid(tag),
        ensures
            r == self.is_owned_by(tag),
    {
        self.word & !HANDLE_WAIT_MASK == tag
    }
}

/// What a lock call does, as a relation between the states before and after.
pub open spec fn lock_transition(pre: Mutex, post: Mutex, tag: u32, prio: u32, r: LockOutcome)
    -> bool {
    match spec_decode(pre.word) {
        MutexState::Unlocked => {
            &&& r == LockOutcome::Acquired
            &&& post.word == tag
            &&& post.waiters@ == pre.waiters@
        }
        MutexState::Owned { owner, waiters } => {
            &&& r == LockOutcome::Suspended
            &&& post.word == pre.word | HANDLE_WAIT_MASK
            &&& post.waiters@ == pre.waiters@.push(Waiter { tag, prio })
        }
    }
}

/// What a try-lock call does: it succeeds exactly on an unlocked word and
/// otherwise leaves the mutex untouched; it never suspends anybody.
pub open spec fn try_lock_transition(pre: Mutex, post: Mutex, tag: u32, acquired: bool) -> bool {
    match spec_decode(pre.word) {
        MutexState::Unlocked => {
            &&& acquired
            &&& post.word == tag
            &&& post.waiters@ == pre.waiters@
        }
        MutexState::Owned { owner, waiters } => {
            &&& !acquired
            &&& post == pre
        }
    }
}

/// What an unlock call does.
pub open spec fn unlock_transition(pre: Mutex, post: Mutex, tag: u32, r: UnlockOutcome) -> bool {
    if pre.owner() != Some(tag) {
        // Unlocking without ownership is a no-op: no word change, no
        // arbitration, no waiter disturbed.
        &&& post == pre
        &&& r == UnlockOutcome::NotOwner
    } else if pre.waiters@.len() == 0 {
        &&& post.word == INVALID_TAG
        &&& post.waiters@ == pre.waiters@
        &&& r == (UnlockOutcome::Released { woken: None })
    } else {
        exists|i: int|
            {
                &&& 0 <= i < pre.waiters@.len()
                &&& #[trigger] is_max_prio(pre.waiters@, i)
                &&& post.waiters@ == pre.waiters@.remove(i)
                &&& post.word == if pre.waiters@.len() > 1 {
                    pre.waiters@[i].tag | HANDLE_WAIT_MASK
                } else {
                    pre.waiters@[i].tag
                }
                &&& r == (UnlockOutcome::Released { woken: Some(pre.waiters@[i].tag) })
            }
    }
}

/// Mutual exclusion: the word records at most one owner, so two distinct
/// threads never both observe themselves as owner of the same mutex.
pub proof fn lemma_mutual_exclusion(m: Mutex, t1: u32, t2: u32)
    requires
        t1 != t2,
    ensures
        !(m.is_owned_by(t1) && m.is_owned_by(t2)),
{
}

/// One unlock by the owner makes progress for every suspended thread: the
/// thread either becomes the owner, or it stays suspended while the
/// arbitration queue strictly shrinks.
pub proof fn lemma_unlock_makes_progress(pre: Mutex, post: Mutex, o: u32, r: UnlockOutcome, t: u32)
    requires
        pre.wf(),
        pre.is_owned_by(o),
        pre.has_waiter(t),
        unlock_transition(pre, post, o, r),
    ensures
        post.is_owned_by(t) || (post.has_waiter(t) && post.waiters@.len() == pre.waiters@.len()
            - 1),
{
    let i = choose|i: int|
        {
            &&& 0 <= i < pre.waiters@.len()
            &&& #[trigger] is_max_prio(pre.waiters@, i)
            &&& post.waiters@ == pre.waiters@.remove(i)
            &&& post.word == if pre.waiters@.len() > 1 {
                pre.waiters@[i].tag | HANDLE_WAIT_MASK
            } else {
                pre.waiters@[i].tag
            }
            &&& r == (UnlockOutcome::Released { woken: Some(pre.waiters@[i].tag) })
        };
    lemma_remove_keeps_queue(pre.waiters@, i);
    let wt = pre.waiters@[i].tag;
    assert(tag_is_valid(wt));
    assert(wt & HANDLE_WAIT_MASK == 0 && wt != (INVALID_TAG & !HANDLE_WAIT_MASK) ==> wt
        != INVALID_TAG && wt & !HANDLE_WAIT_MASK == wt && (wt | HANDLE_WAIT_MASK) != INVALID_TAG
        && (wt | HANDLE_WAIT_MASK) & !HANDLE_WAIT_MASK == wt) by (bit_vector);
    if wt != t {
        assert(post.has_waiter(t));
    }
}

/// The mutex's owner of the moment unlocks it.
pub open spec fn owner_unlock_step(pre: Mutex, post: Mutex) -> bool {
    exists|o: u32, r: UnlockOutcome|
        pre.is_owned_by(o) && #[trigger] unlock_transition(pre, post, o, r)
}

/// A run of states in which every state is well formed and each step is an
/// unlock by the owner of the moment.
pub open spec fn unlock_run(chain: Seq<Mutex>) -> bool
    decreases chain.len(),
{
    if chain.len() == 0 {
        true
    } else if chain.len() == 1 {
        chain[0].wf()
    } else {
        chain[0].wf() && owner_unlock_step(chain[0], chain[1]) && unlock_run(
            chain.subrange(1, chain.len() as int),
        )
    }
}

/// A run of unlocks, each by the mutex's owner of the moment, long enough to
/// drain the arbitration queue, grants the mutex to every thread that was
/// suspended at the start: no waiter is passed over forever.
pub proof fn lemma_unlock_run_wakes_every_waiter(chain: Seq<Mutex>, t: u32)
    requires
        unlock_run(chain),
        chain.len() > 0,
        chain[0].has_waiter(t),
        chain.len() > chain[0].waiters@.len(),
    ensures
        exists|k: int| 0 <= k < chain.len() && (#[trigger] chain[k]).is_owned_by(t),
    decreases chain.len(),
{
    assert(chain[0].waiters@.len() > 0);
    assert(owner_unlock_step(chain[0], chain[1]));
    let (o, r) = choose|o: u32, r: UnlockOutcome|
        chain[0].is_owned_by(o) && #[trigger] unlock_transition(chain[0], chain[1], o, r);
    lemma_unlock_makes_progress(chain[0], chain[1], o, r, t);
    if chain[1].is_owned_by(t) {
        assert(0 <= 1 < chain.len() && chain[1].is_owned_by(t));
    } else {
        let rest = chain.subrange(1, chain.len() as int);
        lemma_unlock_run_wakes_every_waiter(rest, t);
        let k = choose|k: int| 0 <= k < rest.len() && (#[trigger] rest[k]).is_owned_by(t);
        assert(chain[k + 1] == rest[k]);
        assert(chain[k + 1].is_owned_by(t));
    }
}

/// A contended word (locked, any waiter-bit state) stays well formed when the
/// waiter bit is added, and its owner bits are unchanged by that.
pub proof fn lemma_contended_word(value: u32)
    requires
        word_wf(value),
        value != INVALID_TAG,
    ensures
        (value | HANDLE_WAIT_MASK) != INVALID_TAG,
        ((value | HANDLE_WAIT_MASK) & !HANDLE_WAIT_MASK) == value & !HANDLE_WAIT_MASK,
        (value | HANDLE_WAIT_MASK) & HANDLE_WAIT_MASK != 0,
{
    let owner = value & !HANDLE_WAIT_MASK;
    assert((value & !HANDLE_WAIT_MASK) & HANDLE_WAIT_MASK == 0) by (bit_vector);
    assert(owner != (INVALID_TAG & !HANDLE_WAIT_MASK) ==> ((value | HANDLE_WAIT_MASK)
        != INVALID_TAG && ((value | HANDLE_WAIT_MASK) & !HANDLE_WAIT_MASK) == value
        & !HANDLE_WAIT_MASK && (value | HANDLE_WAIT_MASK) & HANDLE_WAIT_MASK != 0)) by (bit_vector)
        requires
            owner == value & !HANDLE_WAIT_MASK,
    ;
}

} // verus!
