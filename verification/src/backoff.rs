//! When to open the next connection after one was lost: waits that double
//! from a base up to a ceiling, and a bound on the number of connections that
//! may be lost one after another. A connection that lasted as long as the
//! longest wait counts as sound: after it the count starts again.

use vstd::prelude::*;

verus! {

/// A reconnect policy.
#[derive(Clone, Copy, Debug, PartialEq, Eq, Structural)]
pub struct Backoff {
    /// The wait before the first new connection, in milliseconds.
    pub base_ms: u64,
    /// The longest wait, in milliseconds.
    pub cap_ms: u64,
    /// How many connections may be lost in a row before the client gives up.
    pub max_attempts: u32,
}

/// `base` doubled `times` times over.
pub open spec fn doubled(base: nat, times: nat) -> nat
    decreases times,
{
    if times == 0 {
        base
    } else {
        2 * doubled(base, (times - 1) as nat)
    }
}

/// The wait before the next connection when `lost` connections were lost in
/// a row before it: the base doubled once for each, but no more than the
/// ceiling. `None` once `lost` has reached the bound: the client gives up.
pub open spec fn wait_after(policy: Backoff, lost: u32) -> Option<u64> {
    if lost >= policy.max_attempts {
        None
    } else if doubled(policy.base_ms as nat, lost as nat) >= policy.cap_ms {
        Some(policy.cap_ms)
    } else {
        Some(doubled(policy.base_ms as nat, lost as nat) as u64)
    }
}

/// The number of connections lost in a row, once one more is lost that
/// lasted `lived_ms` milliseconds, when `lost` were lost in a row before it:
/// none, if the connection lasted at least as long as the longest wait, and
/// one more than before otherwise.
pub open spec fn lost_after(policy: Backoff, lost: u32, lived_ms: u64) -> u32 {
    if lived_ms >= policy.cap_ms {
        0
    } else if lost == u32::MAX {
        lost
    } else {
        (lost + 1) as u32
    }
}

/// Doubling more often never gives less.
pub proof fn doubling_grows(base: nat, fewer: nat, more: nat)
    requires
        fewer <= more,
    ensures
        doubled(base, fewer) <= doubled(base, more),
    decreases more,
{
    if fewer < more {
        doubling_grows(base, fewer, (more - 1) as nat);
    }
}

/// Nothing doubled is nothing.
pub proof fn doubling_nothing(times: nat)
    ensures
        doubled(0, times) == 0,
    decreases times,
{
    if times > 0 {
        doubling_nothing((times - 1) as nat);
    }
}

/// The waits of a policy never exceed its ceiling and never get shorter from
/// one lost connection to the next, and the client gives up exactly when the
/// bound on lost connections is reached.
pub proof fn waits_are_bounded_and_grow(policy: Backoff, lost: u32, later: u32)
    requires
        lost <= later,
    ensures
        wait_after(policy, lost) is None <==> lost >= policy.max_attempts,
        wait_after(policy, lost) matches Some(wait) ==> wait <= policy.cap_ms,
        wait_after(policy, later) is Some ==> wait_after(policy, lost) is Some && wait_after(
            policy,
            lost,
        ).unwrap() <= wait_after(policy, later).unwrap(),
{
    doubling_grows(policy.base_ms as nat, lost as nat, later as nat);
}

impl Backoff {
    /// Counts one more lost connection, which lasted `lived_ms`
    /// milliseconds, when `lost` were lost in a row before it.
    pub fn count(&self, lost: u32, lived_ms: u64) -> (r: u32)
        ensures
            r == lost_after(*self, lost, lived_ms),
    {
        if lived_ms >= self.cap_ms {
            0
        } else if lost == u32::MAX {
            lost
        } else {
            lost + 1
        }
    }

    /// The wait before the next connection when `lost` connections were
    /// lost in a row before it, or `None` if the client is to give up.
    pub fn wait(&self, lost: u32) -> (r: Option<u64>)
        ensures
            r == wait_after(*self, lost),
    {
        if lost >= self.max_attempts {
            return None;
        }
        if self.base_ms == 0 {
            proof {
                doubling_nothing(lost as nat);
            }
            return Some(0);
        }
        let cap = self.cap_ms;
        let mut wait: u64 = if self.base_ms < cap {
            self.base_ms
        } else {
            cap
        };
        let mut times: u32 = 0;
        while times < lost && wait < cap
            invariant
                times <= lost,
                cap == self.cap_ms,
                wait <= cap,
                doubled(self.base_ms as nat, times as nat) >= cap ==> wait == cap,
                doubled(self.base_ms as nat, times as nat) < cap ==> wait == doubled(
                    self.base_ms as nat,
                    times as nat,
                ),
            decreases lost - times,
        {
            wait = if wait > cap - wait {
                cap
            } else {
                wait + wait
            };
            times = times + 1;
        }
        proof {
            doubling_grows(self.base_ms as nat, times as nat, lost as nat);
        }
        Some(wait)
    }
}

} // verus!
