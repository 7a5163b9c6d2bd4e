//! Runtime borrow tracking for embedded values.
//!
//! Every embedded block carries a borrow cell that records whether the
//! payload is currently free, shared by `n` readers, or held exclusively.
//! Acquisition failures are ordinary recoverable results: a value that is
//! already borrowed is an expected, user-reachable condition.

use vstd::prelude::*;

verus! {

/// The exclusive-xor-shared aliasing state of one embedded value.
#[derive(PartialEq, Eq, Structural, Clone, Copy, Debug)]
pub enum BorrowState {
    /// No outstanding guard.
    Free,
    /// Held by the given number of shared guards (at least one).
    Shared(u64),
    /// Held by a single exclusive guard.
    Exclusive,
}

/// Why an acquisition was refused.
#[derive(PartialEq, Eq, Structural, Clone, Copy, Debug)]
pub enum UserdataBorrowError {
    /// The value is already held exclusively.
    AlreadyMutable,
    /// The value is already held by shared guards.
    AlreadyImmutable,
}

impl UserdataBorrowError {
    /// A description of the refusal.
    pub fn message(&self) -> &'static str {
        match self {
            UserdataBorrowError::AlreadyImmutable => {
                "Cannot mutably borrow userdata, is already borrowed."
            },
            UserdataBorrowError::AlreadyMutable => {
                "Cannot borrow userdata, is already mutably borrowed."
            },
        }
    }
}

/// A borrow cell in a well-formed block never records zero sharers: the
/// last shared release returns the cell to `Free`.
pub open spec fn spec_cell_wf(s: BorrowState) -> bool {
    match s {
        BorrowState::Shared(n) => n >= 1,
        _ => true,
    }
}

/// The state after a successful shared acquisition.
pub open spec fn spec_after_shared(s: BorrowState) -> BorrowState {
    match s {
        BorrowState::Free => BorrowState::Shared(1),
        BorrowState::Shared(n) => BorrowState::Shared((n + 1) as u64),
        BorrowState::Exclusive => s,
    }
}

/// Whether a shared acquisition succeeds, and the error when it does not.
///
/// A cell that has reached the largest representable sharer count is
/// reported as already shared; no further guard can be accounted for.
pub open spec fn spec_shared_verdict(s: BorrowState) -> Result<(), UserdataBorrowError> {
    match s {
        BorrowState::Free => Ok(()),
        BorrowState::Shared(n) => if n < u64::MAX {
            Ok(())
        } else {
            Err(UserdataBorrowError::AlreadyImmutable)
        },
        BorrowState::Exclusive => Err(UserdataBorrowError::AlreadyMutable),
    }
}

/// Whether an exclusive acquisition succeeds, and the error when it does not.
pub open spec fn spec_exclusive_verdict(s: BorrowState) -> Result<(), UserdataBorrowError> {
    match s {
        BorrowState::Free => Ok(()),
        BorrowState::Shared(_) => Err(UserdataBorrowError::AlreadyImmutable),
        BorrowState::Exclusive => Err(UserdataBorrowError::AlreadyMutable),
    }
}

/// The state after one shared guard is released.
pub open spec fn spec_after_shared_release(s: BorrowState) -> BorrowState {
    match s {
        BorrowState::Shared(n) => if n <= 1 {
            BorrowState::Free
        } else {
            BorrowState::Shared((n - 1) as u64)
        },
        _ => s,
    }
}

impl BorrowState {
    /// Tries to record one more shared guard.
    pub fn try_acquire_shared(&mut self) -> (r: Result<(), UserdataBorrowError>)
        ensures
            r == spec_shared_verdict(*old(self)),
            r is Ok ==> *final(self) == spec_after_shared(*old(self)),
            r is Err ==> *final(self) == *old(self),
    {
        match *self {
            BorrowState::Free => {
                *self = BorrowState::Shared(1);
                Ok(())
            },
            BorrowState::Shared(n) => {
                if n < u64::MAX {
                    *self = BorrowState::Shared(n + 1);
                    Ok(())
                } else {
                    Err(UserdataBorrowError::AlreadyImmutable)
                }
            },
            BorrowState::Exclusive => Err(UserdataBorrowError::AlreadyMutable),
        }
    }

    /// Tries to record the single exclusive guard.
    pub fn try_acquire_exclusive(&mut self) -> (r: Result<(), UserdataBorrowError>)
        ensures
            r == spec_exclusive_verdict(*old(self)),
            r is Ok ==> *final(self) == BorrowState::Exclusive,
            r is Err ==> *final(self) == *old(self),
    {
        match *self {
            BorrowState::Free => {
                *self = BorrowState::Exclusive;
                Ok(())
            },
            BorrowState::Shared(_) => Err(UserdataBorrowError::AlreadyImmutable),
            BorrowState::Exclusive => Err(UserdataBorrowError::AlreadyMutable),
        }
    }

    /// Releases one shared guard.
    pub fn release_shared(&mut self)
        requires
            *old(self) is Shared,
        ensures
            *final(self) == spec_after_shared_release(*old(self)),
    {
        match *self {
            BorrowState::Shared(n) => {
                if n <= 1 {
                    *self = BorrowState::Free;
                } else {
                    *self = BorrowState::Shared(n - 1);
                }
            },
            _ => {},
        }
    }

    /// Releases the exclusive guard.
    pub fn release_exclusive(&mut self)
        requires
            *old(self) is Exclusive,
        ensures
            *final(self) == BorrowState::Free,
    {
        *self = BorrowState::Free;
    }
}

/// Once an exclusive acquisition has succeeded the cell is exclusive,
/// and every further acquisition of either kind fails until the guard is
/// released; the release frees the cell, and on a free cell an
/// acquisition of either kind succeeds.
pub proof fn lemma_exclusive_excludes_all()
    ensures
        spec_shared_verdict(BorrowState::Exclusive) == Err::<(), UserdataBorrowError>(
            UserdataBorrowError::AlreadyMutable,
        ),
        spec_exclusive_verdict(BorrowState::Exclusive) == Err::<(), UserdataBorrowError>(
            UserdataBorrowError::AlreadyMutable,
        ),
        spec_shared_verdict(BorrowState::Free) is Ok,
        spec_exclusive_verdict(BorrowState::Free) is Ok,
        spec_after_shared(BorrowState::Free) == BorrowState::Shared(1),
{
}

/// The state reached from `s` after `n` further successful shared
/// acquisitions.
pub open spec fn spec_after_n_shared(s: BorrowState, n: nat) -> BorrowState
    decreases n,
{
    if n == 0 {
        s
    } else {
        spec_after_shared(spec_after_n_shared(s, (n - 1) as nat))
    }
}

/// The state reached from `s` after `n` shared releases.
pub open spec fn spec_after_n_shared_releases(s: BorrowState, n: nat) -> BorrowState
    decreases n,
{
    if n == 0 {
        s
    } else {
        spec_after_shared_release(spec_after_n_shared_releases(s, (n - 1) as nat))
    }
}

/// Starting from a free cell, `n` shared acquisitions all succeed and
/// leave the cell shared by exactly `n` guards.
pub proof fn lemma_n_shared_succeed(n: nat)
    requires
        1 <= n < u64::MAX,
    ensures
        spec_after_n_shared(BorrowState::Free, n) == BorrowState::Shared(n as u64),
        spec_shared_verdict(spec_after_n_shared(BorrowState::Free, (n - 1) as nat)) is Ok,
    decreases n,
{
    if n > 1 {
        lemma_n_shared_succeed((n - 1) as nat);
    }
}

/// While any of `n` shared guards is outstanding, an exclusive
/// acquisition fails with the already-shared error; once all `n` have
/// been released, the cell is free again and an exclusive acquisition
/// succeeds.
pub proof fn lemma_exclusive_waits_for_shared(n: nat, released: nat)
    requires
        1 <= n < u64::MAX,
        released <= n,
    ensures
        released < n ==> spec_exclusive_verdict(
            spec_after_n_shared_releases(spec_after_n_shared(BorrowState::Free, n), released),
        ) == Err::<(), UserdataBorrowError>(UserdataBorrowError::AlreadyImmutable),
        released == n ==> spec_after_n_shared_releases(
            spec_after_n_shared(BorrowState::Free, n),
            released,
        ) == BorrowState::Free,
        released == n ==> spec_exclusive_verdict(
            spec_after_n_shared_releases(spec_after_n_shared(BorrowState::Free, n), released),
        ) is Ok,
    decreases released,
{
    lemma_n_shared_succeed(n);
    if released > 0 {
        lemma_exclusive_waits_for_shared(n, (released - 1) as nat);
        lemma_releases_count_down(n, released);
    }
}

/// After `released <= n` releases of a cell shared `n` ways, the cell is
/// shared by the remaining guards, or free when none remain.
pub proof fn lemma_releases_count_down(n: nat, released: nat)
    requires
        1 <= n < u64::MAX,
        released <= n,
    ensures
        spec_after_n_shared_releases(spec_after_n_shared(BorrowState::Free, n), released)
            == if released < n {
                BorrowState::Shared((n - released) as u64)
            } else {
                BorrowState::Free
            },
    decreases released,
{
    lemma_n_shared_succeed(n);
    if released > 0 {
        lemma_releases_count_down(n, (released - 1) as nat);
    }
}

} // verus!
