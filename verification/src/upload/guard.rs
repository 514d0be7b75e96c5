//! At most one upload in flight: the state behind the in-flight guard.
use vstd::prelude::*;

verus! {

/// Whether an upload is in flight. Shared between tasks behind a lock by its owner.
#[derive(Debug)]
pub struct InFlightGuard {
    busy: bool,
}

/// Proof that the guard was acquired; hand it back with `release`.
#[derive(Debug)]
pub struct InFlightToken {
    held: bool,
}

/// Acquiring: succeeds exactly when the guard is free, and leaves it busy either way.
pub open spec fn acquire_spec(busy: bool) -> (bool, bool) {
    (true, !busy)
}

impl Default for InFlightGuard {
    fn default() -> (r: Self)
        ensures
            !r.busy_spec(),
    {
        InFlightGuard { busy: false }
    }
}

impl InFlightGuard {
    /// Whether an upload holds the guard.
    pub closed spec fn busy_spec(&self) -> bool {
        self.busy
    }

    /// Take the guard if it is free.
    pub fn try_acquire(&mut self) -> (r: Option<InFlightToken>)
        ensures
            (final(self).busy_spec(), r is Some) == acquire_spec(old(self).busy_spec()),
    {
        if self.busy {
            None
        } else {
            self.busy = true;
            Some(InFlightToken { held: true })
        }
    }

    /// Whether an upload holds the guard.
    pub fn is_busy(&self) -> (r: bool)
        ensures
            r == self.busy_spec(),
    {
        self.busy
    }

    /// Give the guard back.
    pub fn release(&mut self, token: InFlightToken)
        ensures
            !final(self).busy_spec(),
    {
        let _ = token.held;
        self.busy = false;
    }
}

/// While one acquisition holds the guard every further one is refused, and after the holder
/// releases it the next acquisition succeeds.
pub proof fn lemma_guard_excludes(busy: bool)
    ensures
        acquire_spec(busy).0,
        !acquire_spec(acquire_spec(busy).0).1,
        acquire_spec(false).1,
{
}

/// Taking the guard and then giving back what was taken leaves it as it was: a successful
/// acquisition is released, a refused one changes nothing.
pub proof fn law_guard_restored(busy: bool)
    ensures
        ({
            let (after, taken) = acquire_spec(busy);
            (if taken {
                false
            } else {
                after
            }) == busy
        }),
{
}

} // verus!
