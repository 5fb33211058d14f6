//! The shared proxied-request counter.
//!
//! The counter records every forwarding attempt.  It is created once, never
//! reset, and only grows.  [`SharedStats`] wraps it in a verified
//! reader-writer lock so that arbitrarily many concurrent request handlers
//! can increment and read it without external locking.

use vstd::prelude::*;
use vstd::rwlock::{RwLock, RwLockPredicate, WriteHandle};
use vstd::string::StringSliceAdditionalSpecFns;
use crate::bytes::lit_bytes;

verus! {

/// The decimal digits of `n`, most significant first.
pub open spec fn dec_rep(n: nat) -> Seq<u8>
    decreases n,
{
    if n < 10 {
        seq![(48 + n) as u8]
    } else {
        dec_rep(n / 10).push((48 + n % 10) as u8)
    }
}

/// Write the decimal digits of `n` after the bytes already in `out`.
fn push_decimal(n: usize, out: &mut Vec<u8>)
    ensures
        final(out)@ == old(out)@ + dec_rep(n as nat),
    decreases n,
{
    if n < 10 {
        out.push((48 + n) as u8);
        proof {
            assert(out@ =~= old(out)@ + dec_rep(n as nat));
        }
    } else {
        push_decimal(n / 10, out);
        out.push((48 + n % 10) as u8);
        proof {
            assert(out@ =~= old(out)@ + dec_rep(n as nat));
        }
    }
}

/// The textual snapshot of a counter standing at `n`.
pub open spec fn stats_text(n: usize) -> Seq<u8> {
    "Stats { proxied: ".spec_bytes() + dec_rep(n as nat) + " }".spec_bytes()
}

/// Saturating successor: the value the request counter takes once one more
/// proxied request has been recorded.
pub open spec fn sat_inc(n: usize) -> usize {
    if n < usize::MAX {
        (n + 1) as usize
    } else {
        n
    }
}

/// A monotonically non-decreasing count of proxied requests.
pub struct StatsCounter {
    proxied: usize,
}

impl StatsCounter {
    /// The current count, as seen by contracts.
    pub closed spec fn proxied(&self) -> usize {
        self.proxied
    }

    /// A fresh counter starts at zero.
    pub fn new() -> (r: StatsCounter)
        ensures
            r.proxied() == 0,
    {
        StatsCounter { proxied: 0 }
    }

    /// Record one more proxied request.
    pub fn increment(&mut self)
        ensures
            final(self).proxied() == sat_inc(old(self).proxied()),
    {
        if self.proxied < usize::MAX {
            self.proxied = self.proxied + 1;
        }
    }

    /// Read the current count.
    pub fn snapshot(&self) -> (r: usize)
        ensures
            r == self.proxied(),
    {
        self.proxied
    }

    /// The textual snapshot, `Stats { proxied: N }`.
    pub fn render(&self) -> (r: Vec<u8>)
        ensures
            r@ == stats_text(self.proxied()),
    {
        let mut out = lit_bytes("Stats { proxied: ");
        push_decimal(self.proxied, &mut out);
        let mut tail = lit_bytes(" }");
        out.append(&mut tail);
        out
    }
}

/// Recording one more attempt adds exactly one to any count a real process
/// can reach.
pub proof fn lemma_increment_exact(n: usize)
    requires
        n < usize::MAX,
    ensures
        sat_inc(n) == n + 1,
{
}

/// Every value of a [`StatsCounter`] may live in the lock.
pub struct CounterPred;

impl RwLockPredicate<StatsCounter> for CounterPred {
    open spec fn inv(self, v: StatsCounter) -> bool {
        true
    }
}

/// The process-wide request counter, safe to increment and read from
/// arbitrarily many concurrent handlers.
pub struct SharedStats {
    lock: RwLock<StatsCounter, CounterPred>,
}

impl SharedStats {
    /// A fresh shared counter, starting at zero.
    pub fn new() -> SharedStats {
        SharedStats { lock: RwLock::new(StatsCounter::new(), Ghost(CounterPred)) }
    }

    /// Take the counter for exclusive use.  Whatever it then holds must be
    /// given back with [`Self::release`] before any other handler can see
    /// the counter again.
    pub fn acquire(&self) -> (StatsCounter, WriteHandle<'_, StatsCounter, CounterPred>) {
        self.lock.acquire_write()
    }

    /// Give the counter back, publishing `counter` to all handlers.
    pub fn release(&self, handle: WriteHandle<'_, StatsCounter, CounterPred>, counter: StatsCounter) {
        handle.release_write(counter);
    }

    /// Atomically record one more proxied request.
    pub fn increment(&self) {
        let (mut counter, handle) = self.lock.acquire_write();
        counter.increment();
        handle.release_write(counter);
    }

    /// Atomically read the current textual snapshot.
    pub fn snapshot_text(&self) -> (r: Vec<u8>)
        ensures
            exists|n: usize| r@ == stats_text(n),
    {
        let handle = self.lock.acquire_read();
        let text = handle.borrow().render();
        handle.release_read();
        text
    }
}

} // verus!
