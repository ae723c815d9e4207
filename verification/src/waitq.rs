//! Kernel-side waiter bookkeeping.
//!
//! Threads suspended in an arbitration call are recorded as [`Waiter`]
//! entries: the thread's tag together with the dynamic priority the kernel
//! uses for wake selection. The helpers here are shared by the mutex and the
//! condition-variable queues.

use vstd::prelude::*;

use crate::word::tag_is_valid;

verus! {

/// A thread suspended in the kernel, awaiting a wake-up.
#[derive(Clone, Copy, Debug, PartialEq, Eq, Structural)]
pub struct Waiter {
    /// The suspended thread's tag.
    pub tag: u32,
    /// The thread's dynamic priority at the time it suspended; larger means
    /// preferred by wake selection.
    pub prio: u32,
}

/// Some entry of `s` carries `tag`.
pub open spec fn contains_tag(s: Seq<Waiter>, tag: u32) -> bool {
    exists|i: int| 0 <= i < s.len() && s[i].tag == tag
}

/// No two entries of `s` carry the same tag.
pub open spec fn tags_distinct(s: Seq<Waiter>) -> bool {
    forall|i: int, j: int| 0 <= i < j < s.len() ==> s[i].tag != s[j].tag
}

/// Every entry of `s` carries a well-formed thread tag.
pub open spec fn tags_valid(s: Seq<Waiter>) -> bool {
    forall|i: int| 0 <= i < s.len() ==> tag_is_valid(s[i].tag)
}

/// The entry at `i` has maximal priority within `s`.
pub open spec fn is_max_prio(s: Seq<Waiter>, i: int) -> bool {
    forall|j: int| 0 <= j < s.len() ==> s[j].prio <= s[i].prio
}

/// Removing an entry keeps the queue well formed, removes exactly that
/// entry's tag, and introduces no new tags.
pub proof fn lemma_remove_keeps_queue(s: Seq<Waiter>, i: int)
    requires
        0 <= i < s.len(),
        tags_distinct(s),
        tags_valid(s),
    ensures
        tags_distinct(s.remove(i)),
        tags_valid(s.remove(i)),
        !contains_tag(s.remove(i), s[i].tag),
        forall|t: u32| contains_tag(s.remove(i), t) ==> contains_tag(s, t),
        forall|t: u32| contains_tag(s, t) && t != s[i].tag ==> contains_tag(s.remove(i), t),
{
    let r = s.remove(i);
    assert forall|a: int| 0 <= a < r.len() implies tag_is_valid(r[a].tag) && r[a].tag != s[i].tag by {
        if a < i {
            assert(r[a] == s[a]);
        } else {
            assert(r[a] == s[a + 1]);
        }
    }
    assert forall|a: int, b: int| 0 <= a < b < r.len() implies r[a].tag != r[b].tag by {
        if b < i {
            assert(r[a] == s[a] && r[b] == s[b]);
        } else if a < i {
            assert(r[a] == s[a] && r[b] == s[b + 1]);
        } else {
            assert(r[a] == s[a + 1] && r[b] == s[b + 1]);
        }
    }
    assert forall|t: u32| contains_tag(s, t) && t != s[i].tag implies contains_tag(r, t) by {
        let k = choose|k: int| 0 <= k < s.len() && s[k].tag == t;
        if k < i {
            assert(r[k] == s[k]);
        } else {
            assert(r[k - 1] == s[k]);
        }
    }
}

/// Appending a fresh, valid tag keeps the queue well formed.
pub proof fn lemma_push_keeps_queue(s: Seq<Waiter>, w: Waiter)
    requires
        tags_distinct(s),
        tags_valid(s),
        tag_is_valid(w.tag),
        !contains_tag(s, w.tag),
    ensures
        tags_distinct(s.push(w)),
        tags_valid(s.push(w)),
        contains_tag(s.push(w), w.tag),
        forall|t: u32| contains_tag(s.push(w), t) <==> contains_tag(s, t) || t == w.tag,
{
    let r = s.push(w);
    assert(r[s.len() as int] == w);
    assert forall|a: int, b: int| 0 <= a < b < r.len() implies r[a].tag != r[b].tag by {
        if b < s.len() {
            assert(r[a] == s[a] && r[b] == s[b]);
        } else {
            assert(r[a] == s[a] && r[b] == w);
        }
    }
    assert forall|t: u32| contains_tag(r, t) implies contains_tag(s, t) || t == w.tag by {
        let k = choose|k: int| 0 <= k < r.len() && r[k].tag == t;
        if k < s.len() {
            assert(s[k].tag == t);
        }
    }
    assert forall|t: u32| contains_tag(s, t) implies contains_tag(r, t) by {
        let k = choose|k: int| 0 <= k < s.len() && s[k].tag == t;
        assert(r[k].tag == t);
    }
}

/// Index of a maximal-priority entry; this is the entry the kernel's
/// priority-ordered wake selection picks (ties resolved arbitrarily).
pub fn index_of_max_prio(v: &Vec<Waiter>) -> (i: usize)
    requires
        v@.len() > 0,
    ensures
        0 <= i < v@.len(),
        is_max_prio(v@, i as int),
{
    let mut best: usize = 0;
    let mut k: usize = 1;
    while k < v.len()
        invariant
            0 < k <= v@.len(),
            0 <= best < k,
            forall|j: int| 0 <= j < k ==> v@[j].prio <= v@[best as int].prio,
        decreases v@.len() - k,
    {
        if v[k].prio > v[best].prio {
            best = k;
        }
        k = k + 1;
    }
    best
}

/// Whether some entry carries `tag`.
pub fn holds_tag(v: &Vec<Waiter>, tag: u32) -> (r: bool)
    ensures
        r == contains_tag(v@, tag),
{
    let mut k: usize = 0;
    while k < v.len()
        invariant
            0 <= k <= v@.len(),
            forall|j: int| 0 <= j < k ==> v@[j].tag != tag,
        decreases v@.len() - k,
    {
        if v[k].tag == tag {
            return true;
        }
        k = k + 1;
    }
    false
}

/// Index of the entry carrying `tag`.
pub fn index_of_tag(v: &Vec<Waiter>, tag: u32) -> (i: usize)
    requires
        contains_tag(v@, tag),
    ensures
        0 <= i < v@.len(),
        v@[i as int].tag == tag,
{
    let mut k: usize = 0;
    while k < v.len()
        invariant
            0 <= k <= v@.len(),
            contains_tag(v@, tag),
            forall|j: int| 0 <= j < k ==> v@[j].tag != tag,
        decreases v@.len() - k,
    {
        if v[k].tag == tag {
            return k;
        }
        k = k + 1;
    }
    proof {
        let w = choose|i: int| 0 <= i < v@.len() && v@[i].tag == tag;
        assert(false);
    }
    0
}

} // verus!
