//! The mutex word: a single 32-bit memory location encoding lock ownership.
//!
//! The word is either `INVALID_TAG`, meaning unlocked, or the owning thread's
//! tag, possibly with `HANDLE_WAIT_MASK` (bit 30) set to record that at least
//! one thread is waiting on the kernel to arbitrate this mutex. The retry
//! loops of the protocol operate on the decoded, tagged form ([`MutexState`]);
//! the plain integer is the wire form that the kernel itself reads and writes.

use vstd::prelude::*;

verus! {

/// Word value of an unlocked mutex.
///
/// Doubles as the "no thread" sentinel for kernel handles: no live thread is
/// ever issued this value as its tag.
pub const INVALID_TAG: u32 = 0xFFFF_FFFF;

/// Bit flagged in a mutex word while threads are (or might be) waiting on the
/// kernel to arbitrate the mutex. The remaining bits hold the owner's tag.
pub const HANDLE_WAIT_MASK: u32 = 0x4000_0000;

/// A thread tag as issued by the kernel: it never carries the waiter bit, and
/// it never collides with the unlocked sentinel once the waiter bit is added.
pub open spec fn tag_is_valid(tag: u32) -> bool {
    &&& tag & HANDLE_WAIT_MASK == 0
    &&& tag != (INVALID_TAG & !HANDLE_WAIT_MASK)
}

/// Kernel-issued handles are small: any tag below the waiter bit is well
/// formed. This is the form in which callers usually discharge
/// [`tag_is_valid`].
pub proof fn lemma_small_tags_valid(tag: u32)
    requires
        tag < HANDLE_WAIT_MASK,
    ensures
        tag_is_valid(tag),
{
    assert(tag < 0x4000_0000u32 ==> tag & 0x4000_0000u32 == 0 && tag != 0xBFFF_FFFFu32)
        by (bit_vector);
    assert(INVALID_TAG & !HANDLE_WAIT_MASK == 0xBFFF_FFFFu32) by (bit_vector);
}

/// Runtime check of [`tag_is_valid`].
pub fn tag_valid(tag: u32) -> (r: bool)
    ensures
        r == tag_is_valid(tag),
{
    tag & HANDLE_WAIT_MASK == 0 && tag != INVALID_TAG & !HANDLE_WAIT_MASK
}

/// The decoded form of a mutex word.
#[derive(Clone, Copy, Debug, PartialEq, Eq, Structural)]
pub enum MutexState {
    /// Nobody holds the mutex.
    Unlocked,
    /// `owner` holds the mutex; `waiters` is the waiter bit.
    Owned { owner: u32, waiters: bool },
}

impl MutexState {
    /// A state the protocol can actually reach: any recorded owner is a
    /// well-formed thread tag.
    pub open spec fn wf(self) -> bool {
        match self {
            MutexState::Unlocked => true,
            MutexState::Owned { owner, waiters } => tag_is_valid(owner),
        }
    }

    /// The wire form of this state.
    pub open spec fn spec_encode(self) -> u32 {
        match self {
            MutexState::Unlocked => INVALID_TAG,
            MutexState::Owned { owner, waiters } => if waiters {
                owner | HANDLE_WAIT_MASK
            } else {
                owner
            },
        }
    }
}

/// The decoded form of a wire word.
pub open spec fn spec_decode(word: u32) -> MutexState {
    if word == INVALID_TAG {
        MutexState::Unlocked
    } else {
        MutexState::Owned {
            owner: word & !HANDLE_WAIT_MASK,
            waiters: word & HANDLE_WAIT_MASK != 0,
        }
    }
}

/// A word the protocol can reach: unlocked, or owned by a well-formed tag.
pub open spec fn word_wf(word: u32) -> bool {
    spec_decode(word).wf()
}

/// Owner recorded in a word, if any.
pub open spec fn spec_owner(word: u32) -> Option<u32> {
    match spec_decode(word) {
        MutexState::Unlocked => None,
        MutexState::Owned { owner, waiters } => Some(owner),
    }
}

/// Encode a state into its wire form.
pub fn encode(state: MutexState) -> (word: u32)
    ensures
        word == state.spec_encode(),
{
    match state {
        MutexState::Unlocked => INVALID_TAG,
        MutexState::Owned { owner, waiters } => if waiters {
            owner | HANDLE_WAIT_MASK
        } else {
            owner
        },
    }
}

/// Decode a wire word into its tagged form.
pub fn decode(word: u32) -> (state: MutexState)
    ensures
        state == spec_decode(word),
{
    if word == INVALID_TAG {
        MutexState::Unlocked
    } else {
        MutexState::Owned {
            owner: word & !HANDLE_WAIT_MASK,
            waiters: word & HANDLE_WAIT_MASK != 0,
        }
    }
}

/// A well-formed state survives the round trip through the wire form.
pub proof fn lemma_decode_of_encode(state: MutexState)
    requires
        state.wf(),
    ensures
        spec_decode(state.spec_encode()) == state,
        word_wf(state.spec_encode()),
{
    match state {
        MutexState::Unlocked => {
        }
        MutexState::Owned { owner, waiters } => {
            if waiters {
                assert(owner & HANDLE_WAIT_MASK == 0 && owner != (INVALID_TAG
                    & !HANDLE_WAIT_MASK) ==> (owner | HANDLE_WAIT_MASK) != INVALID_TAG
                    && ((owner | HANDLE_WAIT_MASK) & !HANDLE_WAIT_MASK) == owner && ((owner
                    | HANDLE_WAIT_MASK) & HANDLE_WAIT_MASK) != 0) by (bit_vector);
            } else {
                assert(owner & HANDLE_WAIT_MASK == 0 ==> owner != INVALID_TAG && (owner
                    & !HANDLE_WAIT_MASK) == owner) by (bit_vector);
            }
        }
    }
}

/// Every word survives the reverse round trip, so the wire form carries
/// exactly the information of the tagged form.
pub proof fn lemma_encode_of_decode(word: u32)
    ensures
        spec_decode(word).spec_encode() == word,
{
    if word != INVALID_TAG {
        assert(word & HANDLE_WAIT_MASK != 0 ==> ((word & !HANDLE_WAIT_MASK)
            | HANDLE_WAIT_MASK) == word) by (bit_vector);
        assert(word & HANDLE_WAIT_MASK == 0 ==> (word & !HANDLE_WAIT_MASK) == word)
            by (bit_vector);
    }
}

/// Two distinct valid tags are still distinct as recorded owners: ownership
/// checks that mask out the waiter bit cannot confuse two threads.
pub proof fn lemma_owner_bits_injective(t1: u32, t2: u32)
    requires
        tag_is_valid(t1),
        tag_is_valid(t2),
    ensures
        (t1 & !HANDLE_WAIT_MASK == t2 & !HANDLE_WAIT_MASK) ==> t1 == t2,
{
    assert((t1 & HANDLE_WAIT_MASK == 0 && t2 & HANDLE_WAIT_MASK == 0 && t1 & !HANDLE_WAIT_MASK == t2
        & !HANDLE_WAIT_MASK) ==> t1 == t2) by (bit_vector);
}

} // verus!
