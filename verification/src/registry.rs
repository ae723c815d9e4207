//! The process-wide thread registry.
//!
//! A process keeps one record per live thread so that operations that must
//! visit every thread — pausing all of them, diagnostics — can enumerate
//! them. The registry is an arena keyed by the thread's tag: entries are
//! unordered, a thread appears at most once between its insert and its
//! matching remove, and enumeration hands out a snapshot of the live tags.
//! Callers guard the registry with one exclusive lock; nothing here blocks.

use vstd::prelude::*;

verus! {

/// The set of live threads, each recorded once by its tag.
pub struct Registry {
    /// Tags of the registered threads, in insertion order; the order carries
    /// no meaning.
    pub tags: Vec<u32>,
}

impl Registry {
    /// A tag appears at most once.
    pub open spec fn wf(self) -> bool {
        forall|i: int, j: int| 0 <= i < j < self.tags@.len() ==> self.tags@[i] != self.tags@[j]
    }

    /// Whether `tag` is registered.
    pub open spec fn is_registered(self, tag: u32) -> bool {
        self.tags@.contains(tag)
    }

    /// An empty registry.
    pub fn new() -> (r: Registry)
        ensures
            r.wf(),
            r.tags@.len() == 0,
    {
        Registry { tags: Vec::new() }
    }

    /// Whether `tag` is registered.
    pub fn contains(&self, tag: u32) -> (r: bool)
        ensures
            r == self.is_registered(tag),
    {
        let mut k: usize = 0;
        while k < self.tags.len()
            invariant
                0 <= k <= self.tags@.len(),
                forall|j: int| 0 <= j < k ==> self.tags@[j] != tag,
            decreases self.tags@.len() - k,
        {
            if self.tags[k] == tag {
                proof {
                    assert(self.tags@[k as int] == tag);
                }
                return true;
            }
            k = k + 1;
        }
        proof {
            assert(forall|j: int| 0 <= j < self.tags@.len() ==> self.tags@[j] != tag);
        }
        false
    }

    /// Number of live threads.
    pub fn len(&self) -> (n: usize)
        ensures
            n == self.tags@.len(),
    {
        self.tags.len()
    }

    /// Register a thread that is not yet present.
    ///
    /// Inserting a thread twice is a caller contract violation and is
    /// excluded here outright, rather than trapped in one build and left
    /// undefined in the other.
    pub fn insert(&mut self, tag: u32)
        requires
            old(self).wf(),
            !old(self).is_registered(tag),
        ensures
            final(self).wf(),
            final(self).tags@ == old(self).tags@.push(tag),
            final(self).tags@.len() == old(self).tags@.len() + 1,
            final(self).is_registered(tag),
            forall|t: u32|
                final(self).is_registered(t) <==> old(self).is_registered(t) || t == tag,
    {
        self.tags.push(tag);
        proof {
            let s = self.tags@;
            assert(s[s.len() - 1] == tag);
            assert forall|t: u32| #[trigger] s.contains(t) implies old(self).tags@.contains(t) || t
                == tag by {
                let k = choose|k: int| 0 <= k < s.len() && s[k] == t;
                if k < s.len() - 1 {
                    assert(old(self).tags@[k] == t);
                }
            }
            assert forall|t: u32| old(self).tags@.contains(t) implies s.contains(t) by {
                let k = choose|k: int| 0 <= k < old(self).tags@.len() && old(self).tags@[k] == t;
                assert(s[k] == t);
            }
        }
    }

    /// Unregister a thread that is present.
    ///
    /// Removing an absent thread is a caller contract violation and is
    /// likewise excluded here.
    pub fn remove(&mut self, tag: u32)
        requires
            old(self).wf(),
            old(self).is_registered(tag),
        ensures
            final(self).wf(),
            final(self).tags@.len() == old(self).tags@.len() - 1,
            !final(self).is_registered(tag),
            forall|t: u32|
                t != tag ==> (final(self).is_registered(t) <==> old(self).is_registered(t)),
    {
        let mut k: usize = 0;
        let n = self.tags.len();
        while k < n
            invariant
                0 <= k <= n,
                self.tags@ == old(self).tags@,
                old(self).wf(),
                n == self.tags@.len(),
                self.tags@.contains(tag),
                forall|j: int| 0 <= j < k ==> self.tags@[j] != tag,
            decreases n - k,
        {
            if self.tags[k] == tag {
                proof {
                    lemma_distinct_remove(self.tags@, k as int);
                }
                self.tags.remove(k);
                return ;
            }
            k = k + 1;
        }
        proof {
            let w = choose|i: int| 0 <= i < self.tags@.len() && self.tags@[i] == tag;
            assert(false);
        }
    }

    /// Enumerate the live threads: a snapshot of their tags, taken while the
    /// caller holds the registry's lock. Visits each registered thread
    /// exactly once, in no meaningful order.
    pub fn snapshot(&self) -> (tags: Vec<u32>)
        ensures
            tags@ == self.tags@,
            forall|t: u32| tags@.contains(t) <==> self.is_registered(t),
    {
        let mut out: Vec<u32> = Vec::new();
        let mut k: usize = 0;
        while k < self.tags.len()
            invariant
                0 <= k <= self.tags@.len(),
                out@ == self.tags@.subrange(0, k as int),
            decreases self.tags@.len() - k,
        {
            out.push(self.tags[k]);
            k = k + 1;
        }
        proof {
            assert(out@ == self.tags@.subrange(0, self.tags@.len() as int));
            assert(self.tags@.subrange(0, self.tags@.len() as int) == self.tags@);
        }
        out
    }

    /// Visit every live thread: calls `f` once per registered tag, while the
    /// caller holds the registry's lock. The visitor must neither re-enter
    /// the registry nor fail, which its contract enforces structurally.
    pub fn for_each<F: Fn(u32)>(&self, f: &F)
        requires
            forall|t: u32| self.is_registered(t) ==> #[trigger] f.requires((t,)),
        ensures
            forall|k: int|
                0 <= k < self.tags@.len() ==> #[trigger] f.ensures((self.tags@[k],), ()),
    {
        let mut k: usize = 0;
        while k < self.tags.len()
            invariant
                0 <= k <= self.tags@.len(),
                forall|t: u32| self.is_registered(t) ==> #[trigger] f.requires((t,)),
                forall|j: int| 0 <= j < k ==> #[trigger] f.ensures((self.tags@[j],), ()),
            decreases self.tags@.len() - k,
        {
            proof {
                assert(self.tags@[k as int] == self.tags@.index(k as int));
                assert(self.is_registered(self.tags@[k as int]));
            }
            f(self.tags[k]);
            k = k + 1;
        }
    }
}

/// Removing an element of a duplicate-free sequence keeps it duplicate-free,
/// removes exactly that element, and keeps all others.
proof fn lemma_distinct_remove(s: Seq<u32>, i: int)
    requires
        0 <= i < s.len(),
        forall|a: int, b: int| 0 <= a < b < s.len() ==> s[a] != s[b],
    ensures
        forall|a: int, b: int| 0 <= a < b < s.remove(i).len() ==> s.remove(i)[a] != s.remove(i)[b],
        !s.remove(i).contains(s[i]),
        forall|t: u32| s.remove(i).contains(t) ==> s.contains(t),
        forall|t: u32| s.contains(t) && t != s[i] ==> s.remove(i).contains(t),
{
    let r = s.remove(i);
    assert forall|a: int| 0 <= a < r.len() implies r[a] != s[i] by {
        if a < i {
            assert(r[a] == s[a]);
        } else {
            assert(r[a] == s[a + 1]);
        }
    }
    assert forall|a: int, b: int| 0 <= a < b < r.len() implies r[a] != r[b] by {
        if b < i {
            assert(r[a] == s[a] && r[b] == s[b]);
        } else if a < i {
            assert(r[a] == s[a] && r[b] == s[b + 1]);
        } else {
            assert(r[a] == s[a + 1] && r[b] == s[b + 1]);
        }
    }
    assert forall|a: int| 0 <= a < r.len() implies s.contains(r[a]) by {
        if a < i {
            assert(r[a] == s[a]);
        } else {
            assert(r[a] == s[a + 1]);
        }
    }
    assert forall|t: u32| s.contains(t) && t != s[i] implies r.contains(t) by {
        let k = choose|k: int| 0 <= k < s.len() && s[k] == t;
        if k < i {
            assert(r[k] == s[k]);
        } else {
            assert(r[k - 1] == s[k]);
        }
    }
}

} // verus!
