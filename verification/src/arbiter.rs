//! Exclusive access to a stateful device handle, and the verify-after-write
//! policies layered on top of the raw, unconfirmed protocol writes.
//!
//! The device handle is non-reentrant: no two operations may ever
//! interleave against it.  The arbiter is the one door to the handle — an
//! operation runs only between a successful `try_enter` and the matching
//! `exit` — and its contracts say that an acquisition succeeds exactly
//! from the released state.
//!
//! Because neither protocol confirms a write synchronously, a caller that
//! needs confirmation re-reads the value until it matches, bounded by a
//! retry policy; exhausting the policy is a confirmation timeout, a
//! distinct error so callers know the write itself may well have landed.

use vstd::prelude::*;
use crate::errors::DeviceError;

verus! {

/// Serializes all operations against one device handle.
pub struct Arbiter {
    locked: bool,
}

/// What acquiring does: the handle is held afterwards, and the caller
/// got it only if nobody held it before.
pub open spec fn spec_try_enter(busy: bool) -> (bool, bool) {
    (true, !busy)
}

/// What releasing does to the hold on the handle.
pub open spec fn spec_exit(busy: bool) -> bool {
    false
}

impl Arbiter {
    /// Whether some operation currently holds the device handle.
    pub closed spec fn busy(&self) -> bool {
        self.locked
    }

    /// A fresh arbiter; nobody holds the handle.
    pub fn new() -> (r: Arbiter)
        ensures
            !r.busy(),
    {
        Arbiter { locked: false }
    }

    /// Ask for exclusive access to the handle.  Succeeds exactly when no
    /// other operation is inside.
    pub fn try_enter(&mut self) -> (acquired: bool)
        ensures
            (final(self).busy(), acquired) == spec_try_enter(old(self).busy()),
    {
        if self.locked {
            false
        } else {
            self.locked = true;
            true
        }
    }

    /// Release exclusive access after the one operation ran.
    pub fn exit(&mut self)
        requires
            old(self).busy(),
        ensures
            final(self).busy() == spec_exit(old(self).busy()),
    {
        self.locked = false;
    }

    /// Whether the handle is held.
    pub fn is_busy(&self) -> (r: bool)
        ensures
            r == self.busy(),
    {
        self.locked
    }
}

/// No two operations ever hold the handle at once: an acquisition right
/// after an acquisition never succeeds, whatever held before;
/// only after the holder exits can the next acquisition succeed — and
/// then it does.
pub proof fn lemma_enter_exclusive(busy: bool)
    ensures
        !spec_try_enter(spec_try_enter(busy).0).1,
        spec_try_enter(spec_exit(spec_try_enter(busy).0)).1,
{
}

/// A bounded retry-with-backoff policy, stated as data so it can be named
/// and tested rather than buried in timing code.
#[derive(Debug, Clone, Copy, PartialEq, Eq, Structural)]
pub struct RetryPolicy {
    /// How many write attempts may be made before giving up.
    pub max_attempts: u32,
    /// Fixed delay between attempts, in milliseconds.
    pub backoff_millis: u64,
}

/// The policy for confirming a property write: up to ten attempts, one
/// second apart.
pub fn ensure_policy() -> (r: RetryPolicy)
    ensures
        r.max_attempts == 10,
        r.backoff_millis == 1000,
{
    RetryPolicy { max_attempts: 10, backoff_millis: 1000 }
}

/// The policy for confirming an operating-mode change: a mode transition
/// may take the device several attempts while busy, up to ten, one second
/// apart.
pub fn ensure_mode_policy() -> (r: RetryPolicy)
    ensures
        r.max_attempts == 10,
        r.backoff_millis == 1000,
{
    RetryPolicy { max_attempts: 10, backoff_millis: 1000 }
}

/// The next move of a verify-after-write loop.
#[derive(Debug, Clone, Copy, PartialEq, Eq, Structural)]
pub enum EnsureAction {
    /// The read-back value matches: the write is confirmed.
    Done,
    /// Not confirmed yet: write again, back off, and re-read.
    Retry,
    /// The retry bound is exhausted: report a confirmation timeout.
    GiveUp,
}

/// Decide the next move of a verify-after-write loop, given how many
/// write attempts were made and whether the value read back matches the
/// one written.  Confirmation wins immediately; otherwise the bound
/// decides between another attempt and giving up.
pub fn ensure_step(policy: &RetryPolicy, attempts: u32, observed_matches: bool) -> (r: EnsureAction)
    ensures
        observed_matches ==> r == EnsureAction::Done,
        !observed_matches && attempts < policy.max_attempts ==> r == EnsureAction::Retry,
        !observed_matches && attempts >= policy.max_attempts ==> r == EnsureAction::GiveUp,
{
    if observed_matches {
        EnsureAction::Done
    } else if attempts < policy.max_attempts {
        EnsureAction::Retry
    } else {
        EnsureAction::GiveUp
    }
}

/// The error a finished verify-after-write loop reports: nothing on
/// confirmation, and a confirmation timeout — distinct from a failed
/// write — when the bound ran out.
pub fn ensure_outcome(action: EnsureAction) -> (r: Result<(), DeviceError>)
    requires
        action != EnsureAction::Retry,
    ensures
        action == EnsureAction::Done ==> r == Ok::<(), DeviceError>(()),
        action == EnsureAction::GiveUp ==> r == Err::<(), DeviceError>(
            DeviceError::ConfirmationTimeout,
        ),
{
    match action {
        EnsureAction::GiveUp => Err(DeviceError::ConfirmationTimeout),
        _ => Ok(()),
    }
}

/// Reference count of the shared device handle, replacing drop-triggered
/// teardown: the owner that observes the count reach zero must perform
/// the protocol-level disconnect, exactly once.
pub struct HandleRefs {
    count: u32,
}

impl HandleRefs {
    /// How many owners currently share the handle.
    pub closed spec fn count(&self) -> u32 {
        self.count
    }

    /// The first owner takes the handle.
    pub fn new() -> (r: HandleRefs)
        ensures
            r.count() == 1,
    {
        HandleRefs { count: 1 }
    }

    /// A further owner takes a share.
    pub fn acquire(&mut self)
        requires
            1 <= old(self).count(),
            old(self).count() < u32::MAX,
        ensures
            final(self).count() == old(self).count() + 1,
    {
        self.count = self.count + 1;
    }

    /// An owner gives its share back; the result says whether it was the
    /// last one, and so must tear the connection down.
    pub fn release(&mut self) -> (last: bool)
        requires
            1 <= old(self).count(),
        ensures
            final(self).count() == old(self).count() - 1,
            last == (final(self).count() == 0),
    {
        self.count = self.count - 1;
        self.count == 0
    }
}

} // verus!
