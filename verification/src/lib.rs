//! Get an identifier for the calling thread.
//!
//! The operating system associates a numeric identifier with every live
//! thread. [`get`] returns that identifier, normalized to a `u64` whatever
//! width the platform family uses natively: POSIX systems hand out a
//! pointer-sized handle, Windows a 32-bit integer. Both fit in 64 bits, so
//! the normalization never truncates, and identifiers that the system keeps
//! distinct stay distinct after it.
//!
//! Two threads that are alive at the same moment in one process never observe
//! the same value. Once a thread has terminated, the system may hand its
//! identifier to a later, unrelated thread, so a stored value is only
//! meaningful while the thread that produced it is alive. The value is
//! opaque: it is good for equality comparison and for nothing else.

use vstd::prelude::*;

verus! {

/// A thread identifier as a platform family natively represents it, before
/// it is normalized to the fixed 64-bit width.
#[derive(Clone, Copy, PartialEq, Eq, Debug, Structural)]
pub enum NativeId {
    /// The POSIX family's representation: the calling thread's own handle,
    /// an opaque pointer-sized quantity.
    Handle(usize),
    /// The Windows family's representation: the calling thread's numeric
    /// identifier, 32 bits wide.
    Numeric(u32),
}

impl NativeId {
    /// The 64-bit value that normalization assigns to a native identifier:
    /// the identifier's own value, zero-extended.
    pub open spec fn widened(self) -> u64 {
        match self {
            NativeId::Handle(h) => h as u64,
            NativeId::Numeric(d) => d as u64,
        }
    }

    /// Whether `self` and `other` come from the same platform family. The
    /// family is selected once per build, so one process only ever compares
    /// identifiers of a single family.
    pub open spec fn same_family(self, other: NativeId) -> bool {
        (self is Handle && other is Handle) || (self is Numeric && other is Numeric)
    }
}

/// Normalizes a native identifier to the fixed 64-bit width by
/// zero-extension. Neither family's representation is wider than 64 bits,
/// so nothing is discarded.
pub fn normalize(n: NativeId) -> (r: u64)
    ensures
        r == n.widened(),
{
    match n {
        NativeId::Handle(h) => h as u64,
        NativeId::Numeric(d) => d as u64,
    }
}

/// Normalization loses nothing: two distinct native identifiers of one
/// platform family never widen to the same 64-bit value. The system keeps
/// the native identifiers of concurrently-live threads distinct, so the
/// values [`get`] observes on such threads stay distinct as well.
pub proof fn lemma_widening_preserves_distinctness(a: NativeId, b: NativeId)
    requires
        a.same_family(b),
        a != b,
    ensures
        a.widened() != b.widened(),
{
}

/// Relies on `nix::sys::pthread::pthread_self`, the safe wrapper around the
/// POSIX thread-self primitive: it returns the calling thread's own handle,
/// always succeeds for a live calling thread, reads only bookkeeping the
/// system already holds, and gives concurrently-live threads of one process
/// distinct handles.
#[verifier::external_body]
fn current_native_id() -> (r: NativeId)
    ensures
        r is Handle,
{
    NativeId::Handle(nix::sys::pthread::pthread_self() as usize)
}

/// Returns the identifier the operating system currently associates with the
/// calling thread, normalized to 64 bits.
///
/// Callable from any thread, including the initial one; never blocks, never
/// fails, and mutates nothing. Threads alive at the same moment observe
/// distinct values; an identifier of a terminated thread may be reused.
pub fn get() -> (r: u64)
    ensures
        exists|n: NativeId| n is Handle && #[trigger] n.widened() == r,
{
    normalize(current_native_id())
}

/// All identifiers in the sequence differ pairwise.
pub open spec fn pairwise_distinct(s: Seq<u64>) -> bool {
    forall|i: int, j: int| 0 <= i < j < s.len() ==> s[i] != s[j]
}

/// Checks that a collection of identifiers is pairwise distinct: what the
/// system guarantees of identifiers observed on threads that are all alive
/// at one moment.
pub fn all_distinct(ids: &Vec<u64>) -> (r: bool)
    ensures
        r == pairwise_distinct(ids@),
{
    let n = ids.len();
    let mut i: usize = 0;
    while i < n
        invariant
            n == ids@.len(),
            i <= n,
            forall|p: int, q: int| 0 <= p < i && p < q < n ==> ids@[p] != ids@[q],
        decreases n - i,
    {
        let mut j: usize = i + 1;
        while j < n
            invariant
                n == ids@.len(),
                i < j <= n,
                forall|q: int| i < q < j ==> ids@[i as int] != ids@[q],
            decreases n - j,
        {
            if ids[i] == ids[j] {
                proof {
                    assert(!pairwise_distinct(ids@));
                }
                return false;
            }
            j = j + 1;
        }
        i = i + 1;
    }
    true
}

} // verus!
