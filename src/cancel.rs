//! A cancellation flag shared between the one who may cancel a piece of work
//! and the work itself, which polls it. Only `cancel` writes the flag, and it
//! writes `true`: once cancelled, the flag stays so.

use vstd::prelude::*;
use std::sync::Arc;
use std::sync::atomic::{AtomicBool, Ordering};

verus! {

/// The side of the flag that the work polls.
#[derive(Clone, Debug)]
pub struct CancellationToken {
    cancelled: Arc<AtomicBool>,
}

/// The side of the flag that cancels the work.
#[derive(Clone, Debug)]
pub struct Canceller {
    cancelled: Arc<AtomicBool>,
}

/// Relies on std's `Clone` for `Arc`: the clone points at the same value.
#[verifier::external_body]
fn share(flag: &Arc<AtomicBool>) -> (r: Arc<AtomicBool>)
    ensures
        r == *flag,
{
    Arc::clone(flag)
}

impl CancellationToken {
    /// Whether the work was cancelled.
    #[inline]
    pub fn should_cancel(&self) -> bool {
        self.cancelled.load(Ordering::Acquire)
    }
}

impl Canceller {
    /// Cancels the work.
    #[inline]
    pub fn cancel(&self) {
        self.cancelled.store(true, Ordering::Release);
    }

    /// The flags of this canceller and of `token` are equal values as
    /// Verus sees them; whether they are one flag in memory is beyond what
    /// it sees of an `Arc`.
    pub closed spec fn pairs_with(&self, token: &CancellationToken) -> bool {
        self.cancelled == token.cancelled
    }
}

/// Makes a fresh flag and hands out its two sides.
#[inline]
pub fn cancellation_token() -> (r: (Canceller, CancellationToken))
    ensures
        r.0.pairs_with(&r.1),
{
    let cancelled = Arc::new(AtomicBool::new(false));
    (Canceller { cancelled: share(&cancelled) }, CancellationToken { cancelled })
}

} // verus!
