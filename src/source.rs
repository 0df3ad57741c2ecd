//! Decisions of the clock source: the memoized fast-path address and the
//! single fallback from the fast path to a kernel call.
//!
//! The reads and writes themselves are made by the caller; these functions
//! say what to do with what came back.
use linux_syscalls::Errno;
use vstd::prelude::*;

verus! {

#[verifier::external_type_specification]
#[verifier::external_body]
pub struct ExErrno(Errno);

/// The error number that an `Errno` carries, as `Errno::into_raw` reports it.
pub uninterp spec fn errno_code(e: Errno) -> i32;

/// Whether an error number is the kernel's "function not implemented".
pub uninterp spec fn is_enosys_code(code: i32) -> bool;

/// The largest raw return of a call that still means success: raw returns in
/// the last 4095 values of `usize` carry a negated error number.
pub open spec fn last_success() -> int {
    usize::MAX - 4095
}

/// Relies on `Errno::from_ret`: a raw return above `-4096 as usize` is the
/// error whose number is its negation, anything else is a success carrying it.
pub assume_specification[ Errno::from_ret ](value: usize) -> (r: Result<usize, Errno>)
    ensures
        value <= last_success() ==> r is Ok && r->Ok_0 == value,
        value > last_success() ==> r is Err && errno_code(r->Err_0) == usize::MAX - value + 1,
;

/// Relies on the constant `Errno::ENOSYS` and the derived `==` of `Errno`,
/// which compares error numbers.
#[verifier::external_body]
fn is_enosys(e: &Errno) -> (r: bool)
    ensures
        r == is_enosys_code(errno_code(*e)),
{
    *e == Errno::ENOSYS
}

/// The slot word that marks the fast path as not yet looked up.
pub const SLOT_UNRESOLVED: usize = 0;

/// The slot word that marks the fast path as looked up and absent.
pub const SLOT_UNAVAILABLE: usize = 1;

/// The state of the fast path for reading clocks, memoized once per process
/// in a single machine word.
#[derive(Clone, Copy, Debug, PartialEq, Eq, Structural)]
pub enum Shortcut {
    /// Not looked up yet.
    Unresolved,
    /// Looked up, and the environment offers none.
    Unavailable,
    /// Looked up, at this address.
    Available(usize),
}

impl Shortcut {
    /// The state that a slot word stands for.
    pub open spec fn spec_from_slot(word: usize) -> Shortcut {
        if word == SLOT_UNRESOLVED {
            Shortcut::Unresolved
        } else if word == SLOT_UNAVAILABLE {
            Shortcut::Unavailable
        } else {
            Shortcut::Available(word)
        }
    }

    /// The slot word that stands for this state.
    pub open spec fn spec_slot(self) -> usize {
        match self {
            Shortcut::Unresolved => SLOT_UNRESOLVED,
            Shortcut::Unavailable => SLOT_UNAVAILABLE,
            Shortcut::Available(address) => address,
        }
    }

    /// An available address is never one of the two marker words.
    pub open spec fn wf(self) -> bool {
        self matches Shortcut::Available(address) ==> address != SLOT_UNRESOLVED && address
            != SLOT_UNAVAILABLE
    }

    /// The state that the slot word `word` stands for.
    pub fn from_slot(word: usize) -> (r: Shortcut)
        ensures
            r == Shortcut::spec_from_slot(word),
            r.wf(),
    {
        if word == SLOT_UNRESOLVED {
            Shortcut::Unresolved
        } else if word == SLOT_UNAVAILABLE {
            Shortcut::Unavailable
        } else {
            Shortcut::Available(word)
        }
    }

    /// The slot word to store for this state.
    pub fn slot(&self) -> (r: usize)
        ensures
            r == self.spec_slot(),
    {
        match self {
            Shortcut::Unresolved => SLOT_UNRESOLVED,
            Shortcut::Unavailable => SLOT_UNAVAILABLE,
            Shortcut::Available(address) => *address,
        }
    }

    /// The state after looking up the fast path, which the environment
    /// reported at `address` (zero where it offers none). An address that
    /// cannot be told apart from a marker word is no usable routine.
    pub open spec fn spec_resolved(address: usize) -> Shortcut {
        if address == SLOT_UNRESOLVED || address == SLOT_UNAVAILABLE {
            Shortcut::Unavailable
        } else {
            Shortcut::Available(address)
        }
    }

    /// The state after looking up the fast path at `address`.
    pub fn resolved(address: usize) -> (r: Shortcut)
        ensures
            r == Shortcut::spec_resolved(address),
    {
        if address == SLOT_UNRESOLVED || address == SLOT_UNAVAILABLE {
            Shortcut::Unavailable
        } else {
            Shortcut::Available(address)
        }
    }
}

/// Storing a well-formed state in the slot and reading the slot back gives
/// the same state.
pub proof fn lemma_slot_round_trip(s: Shortcut)
    requires
        s.wf(),
    ensures
        Shortcut::spec_from_slot(s.spec_slot()) == s,
{
}

/// A lookup is memoized for good: what it stores reads back as the same
/// resolved state, so no later read looks the fast path up again, and
/// lookups that race on the same address store the same word.
pub proof fn lemma_resolution_is_stable(address: usize)
    ensures
        Shortcut::spec_resolved(address).wf(),
        Shortcut::spec_resolved(address) !is Unresolved,
        Shortcut::spec_from_slot(Shortcut::spec_resolved(address).spec_slot())
            == Shortcut::spec_resolved(address),
{
}

/// What a read through the fast path leads to.
#[derive(Debug)]
pub enum ShortcutOutcome {
    /// The read is over, with this result.
    Finished(Result<usize, Errno>),
    /// The fast path does not serve this clock: read it through the kernel.
    Fallback,
}

/// The outcome of a fast-path read that returned `ret`: a success or any
/// error but "not implemented" finishes the read; "not implemented" alone
/// falls back to the kernel, without a second try of the fast path.
pub fn after_shortcut(ret: usize) -> (r: ShortcutOutcome)
    ensures
        ret <= last_success() ==> r == ShortcutOutcome::Finished(Ok(ret)),
        ret > last_success() && is_enosys_code((usize::MAX - ret + 1) as i32) ==> r is Fallback,
        ret > last_success() && !is_enosys_code((usize::MAX - ret + 1) as i32) ==> (r matches ShortcutOutcome::Finished(Err(e)) && errno_code(e) == usize::MAX - ret + 1),
{
    match Errno::from_ret(ret) {
        Ok(v) => ShortcutOutcome::Finished(Ok(v)),
        Err(e) => {
            if is_enosys(&e) {
                ShortcutOutcome::Fallback
            } else {
                ShortcutOutcome::Finished(Err(e))
            }
        },
    }
}

} // verus!
