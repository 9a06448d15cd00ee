//! Event counters shared between interrupt handlers and the control loop.
//!
//! Two monotonically increasing counters: a timer tick counter and a
//! narrower external-edge counter. Each is written only by its own interrupt
//! handler and read only by the control loop; on hardware every access sits
//! inside a critical section with interrupts disabled, which is the callers'
//! concern and is kept outside this library. What is verified here is the
//! counters' arithmetic: each wraps silently at its declared width, and
//! wraparound is a normal event, not an error.

use vstd::prelude::*;

verus! {

/// Modulus of the timer counter's width.
pub const TIMER_MODULUS: u64 = 0x1_0000_0000;

/// Modulus of the external counter's width.
pub const EXTERNAL_MODULUS: u64 = 0x1_0000;

/// The value of the timer counter after one more tick.
pub open spec fn spec_inc_timer(c: u32) -> u32 {
    if c == u32::MAX {
        0
    } else {
        (c + 1) as u32
    }
}

/// The value of the external counter after one more edge.
pub open spec fn spec_inc_external(c: u16) -> u16 {
    if c == u16::MAX {
        0
    } else {
        (c + 1) as u16
    }
}

/// The timer counter after `k` ticks starting from `start`.
pub open spec fn spec_timer_after(start: u32, k: nat) -> u32
    decreases k,
{
    if k == 0 {
        start
    } else {
        spec_inc_timer(spec_timer_after(start, (k - 1) as nat))
    }
}

/// The external counter after `k` edges starting from `start`.
pub open spec fn spec_external_after(start: u16, k: nat) -> u16
    decreases k,
{
    if k == 0 {
        start
    } else {
        spec_inc_external(spec_external_after(start, (k - 1) as nat))
    }
}

/// One increment never decreases a counter except at the wrap point, where
/// it continues from zero.
pub proof fn lemma_inc_wraps(t: u32, e: u16)
    ensures
        t < u32::MAX ==> spec_inc_timer(t) == t + 1,
        t == u32::MAX ==> spec_inc_timer(t) == 0,
        e < u16::MAX ==> spec_inc_external(e) == e + 1,
        e == u16::MAX ==> spec_inc_external(e) == 0,
{
}

/// Repeated increments count modulo the declared width: after `k` ticks from
/// `start` the timer counter reads `(start + k) % 2^32`. In particular the
/// value sequence is non-decreasing until it wraps, then continues from zero.
pub proof fn lemma_timer_counts_modulo(start: u32, k: nat)
    ensures
        spec_timer_after(start, k) == (start + k) % (TIMER_MODULUS as int),
        start + k < TIMER_MODULUS ==> spec_timer_after(start, k) == start + k,
    decreases k,
{
    let m = TIMER_MODULUS as int;
    if k == 0 {
        assert((start as int) % m == start) by {
            vstd::arithmetic::div_mod::lemma_small_mod(start as nat, TIMER_MODULUS as nat);
        }
    } else {
        lemma_timer_counts_modulo(start, (k - 1) as nat);
        let prev = spec_timer_after(start, (k - 1) as nat);
        assert(prev == (start + k - 1) % m);
        vstd::arithmetic::div_mod::lemma_add_mod_noop(start + k - 1, 1, m);
        assert(1int % m == 1) by {
            vstd::arithmetic::div_mod::lemma_small_mod(1nat, TIMER_MODULUS as nat);
        }
        if prev == u32::MAX {
            assert((prev + 1) % m == 0) by {
                vstd::arithmetic::div_mod::lemma_mod_self_0(m);
            }
        } else {
            assert((prev + 1) % m == prev + 1) by {
                vstd::arithmetic::div_mod::lemma_small_mod((prev + 1) as nat, TIMER_MODULUS as nat);
            }
        }
    }
}

/// The same modular law for the external counter at its narrower width.
pub proof fn lemma_external_counts_modulo(start: u16, k: nat)
    ensures
        spec_external_after(start, k) == (start + k) % (EXTERNAL_MODULUS as int),
        start + k < EXTERNAL_MODULUS ==> spec_external_after(start, k) == start + k,
    decreases k,
{
    let m = EXTERNAL_MODULUS as int;
    if k == 0 {
        assert((start as int) % m == start) by {
            vstd::arithmetic::div_mod::lemma_small_mod(start as nat, EXTERNAL_MODULUS as nat);
        }
    } else {
        lemma_external_counts_modulo(start, (k - 1) as nat);
        let prev = spec_external_after(start, (k - 1) as nat);
        assert(prev == (start + k - 1) % m);
        vstd::arithmetic::div_mod::lemma_add_mod_noop(start + k - 1, 1, m);
        assert(1int % m == 1) by {
            vstd::arithmetic::div_mod::lemma_small_mod(1nat, EXTERNAL_MODULUS as nat);
        }
        if prev == u16::MAX {
            assert((prev + 1) % m == 0) by {
                vstd::arithmetic::div_mod::lemma_mod_self_0(m);
            }
        } else {
            assert((prev + 1) % m == prev + 1) by {
                vstd::arithmetic::div_mod::lemma_small_mod(
                    (prev + 1) as nat,
                    EXTERNAL_MODULUS as nat,
                );
            }
        }
    }
}

/// The pair of event counters. On hardware the two live in interrupt-shared
/// cells; the fields are public so that the unverified shell can hold a value
/// of this type in such a cell and build it in a static initializer. Every
/// value of the type is valid: wraparound needs no invariant.
#[derive(PartialEq, Eq, Structural, Clone, Copy, Debug)]
pub struct EventCounters {
    /// Ticks of the periodic timer compare-match.
    pub timer_count: u32,
    /// Falling edges seen on the external interrupt line.
    pub external_count: u16,
}

impl EventCounters {
    /// Both counters start at zero.
    pub fn new() -> (r: EventCounters)
        ensures
            r.timer_count == 0,
            r.external_count == 0,
    {
        EventCounters { timer_count: 0, external_count: 0 }
    }

    /// One timer tick: called only from the timer interrupt handler, inside
    /// its critical section.
    pub fn increment_timer(&mut self)
        ensures
            final(self).timer_count == spec_inc_timer(old(self).timer_count),
            final(self).external_count == old(self).external_count,
    {
        if self.timer_count == u32::MAX {
            self.timer_count = 0;
        } else {
            self.timer_count = self.timer_count + 1;
        }
    }

    /// One external edge: called only from the external interrupt handler,
    /// inside its critical section.
    pub fn increment_external(&mut self)
        ensures
            final(self).external_count == spec_inc_external(old(self).external_count),
            final(self).timer_count == old(self).timer_count,
    {
        if self.external_count == u16::MAX {
            self.external_count = 0;
        } else {
            self.external_count = self.external_count + 1;
        }
    }

    /// Read both counters. Each counter's own access is atomic on hardware,
    /// but the pair may reflect two different instants; the two values drive
    /// independent display lines, so that is tolerated.
    pub fn snapshot(&self) -> (r: (u32, u16))
        ensures
            r.0 == self.timer_count,
            r.1 == self.external_count,
    {
        (self.timer_count, self.external_count)
    }
}

} // verus!
