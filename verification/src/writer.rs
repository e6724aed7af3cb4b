use vstd::prelude::*;

verus! {

/// Number of lines written between two flushes of a log file.
pub const BATCH_SIZE: usize = 64;

/// Counts the lines a background writer has written since its last flush.
pub struct BatchCounter {
    count: usize,
}

/// The number of lines pending a flush after `n` writes from a fresh counter.
pub open spec fn pending_after(n: nat) -> nat {
    n % (BATCH_SIZE as nat)
}

impl BatchCounter {
    pub closed spec fn pending(&self) -> nat {
        self.count as nat
    }

    pub closed spec fn wf(&self) -> bool {
        self.count < BATCH_SIZE
    }

    /// A counter with nothing pending.
    pub fn new() -> (c: Self)
        ensures
            c.wf(),
            c.pending() == 0,
    {
        BatchCounter { count: 0 }
    }

    /// Record one written line; returns whether the file must be flushed now,
    /// which is when `BATCH_SIZE` lines have accumulated.
    pub fn record_write(&mut self) -> (flush: bool)
        requires
            old(self).wf(),
        ensures
            final(self).wf(),
            flush == (old(self).pending() + 1 == BATCH_SIZE),
            final(self).pending() == if flush { 0 } else { old(self).pending() + 1 },
    {
        self.count = self.count + 1;
        if self.count >= BATCH_SIZE {
            self.count = 0;
            true
        } else {
            false
        }
    }
}

/// A flush happens exactly on every `BATCH_SIZE`-th write: if `p` lines were
/// pending after `n` writes, one more write leaves `(n + 1) % BATCH_SIZE`
/// pending, and it flushes exactly when `n + 1` is a multiple of `BATCH_SIZE`.
pub proof fn law_flush_every_batch(n: nat, p: nat)
    requires
        p == pending_after(n),
    ensures
        (if p + 1 == BATCH_SIZE { 0 } else { p + 1 }) == pending_after(n + 1),
        (p + 1 == BATCH_SIZE) == ((n + 1) % (BATCH_SIZE as nat) == 0),
{
    assert((n + 1) % 64 == if n % 64 + 1 == 64 { 0 } else { n % 64 + 1 }) by (nonlinear_arith);
}

} // verus!
