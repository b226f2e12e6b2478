//! RFC 6298-style recursive round-trip-time filter.
//!
//! All durations are nanosecond counts. Integer division truncates toward
//! zero (both operands are non-negative), which fixes the rounding rule for
//! the smoothing formulas.

use vstd::prelude::*;

verus! {

/// Minimum timer resolution, in nanoseconds: the floor applied to the
/// variance term of `pto_base`.
pub const TIMER_GRANULARITY: u64 = 1_000_000;

/// Estimates the round-trip time of a network path from ACK samples.
#[derive(Clone, Copy)]
pub struct RttEstimator {
    /// The most recent RTT measurement made when receiving an ack for a
    /// previously unacked packet.
    pub latest: u64,
    /// The smoothed RTT of the connection; `None` until the first sample.
    pub smoothed: Option<u64>,
    /// The RTT variance.
    pub var: u64,
    /// The minimum RTT seen on the path, ignoring ack delay.
    pub min: u64,
}

/// The ack-delay-adjusted sample: the reported delay is subtracted out only
/// when doing so would not push the sample below the observed minimum.
pub open spec fn adjusted_sample(min_rtt: int, ack_delay: int, latest: int) -> int {
    if min_rtt + ack_delay < latest {
        latest - ack_delay
    } else {
        latest
    }
}

/// Absolute difference of two integers.
pub open spec fn abs_diff(a: int, b: int) -> int {
    if a >= b {
        a - b
    } else {
        b - a
    }
}

/// One step of the variance filter.
pub open spec fn next_var(var: int, smoothed: int, adjusted: int) -> int {
    (3 * var + abs_diff(smoothed, adjusted)) / 4
}

/// One step of the smoothing filter.
pub open spec fn next_smoothed(smoothed: int, adjusted: int) -> int {
    (7 * smoothed + adjusted) / 8
}

impl RttEstimator {
    /// The estimate `get` returns: the smoothed RTT once a sample has
    /// arrived, the latest (initial-guess) value before that.
    pub open spec fn current(self) -> u64 {
        if self.smoothed is Some {
            self.smoothed->0
        } else {
            self.latest
        }
    }

    /// The probe-timeout base as a mathematical value (may exceed `u64`).
    pub open spec fn pto_spec(self) -> int {
        self.current() + if 4 * (self.var as int) >= TIMER_GRANULARITY {
            4 * (self.var as int)
        } else {
            TIMER_GRANULARITY as int
        }
    }

    /// Whether the probe-timeout base fits in a `u64`.
    pub open spec fn pto_fits(self) -> bool {
        self.pto_spec() <= u64::MAX
    }

    /// Before any sample arrives, the variance and the minimum still hold
    /// the values seeded from the initial guess.
    pub open spec fn wf(self) -> bool {
        self.smoothed is None ==> self.var == self.latest / 2 && self.min == self.latest
    }

    /// Seeds the filter from an initial RTT guess.
    pub fn new(initial_rtt: u64) -> (r: Self)
        ensures
            r.latest == initial_rtt,
            r.smoothed is None,
            r.var == initial_rtt / 2,
            r.min == initial_rtt,
            r.wf(),
    {
        Self {
            latest: initial_rtt,
            smoothed: None,
            var: initial_rtt / 2,
            min: initial_rtt,
        }
    }

    /// Feeds one RTT sample (with the peer-reported ack delay) into the
    /// filter. The first sample re-seeds the whole state; later samples run
    /// the recursive smoothing formulas on the delay-adjusted sample.
    pub fn update(&mut self, ack_delay: u64, rtt: u64)
        ensures
            final(self).latest == rtt,
            final(self).smoothed is Some,
            final(self).wf(),
            old(self).smoothed is None ==> *final(self) == (RttEstimator {
                latest: rtt,
                smoothed: Some(rtt),
                var: rtt / 2,
                min: rtt,
            }),
            old(self).smoothed matches Some(sm) ==> ({
                let new_min: u64 = if old(self).min <= rtt { old(self).min } else { rtt };
                let adj = adjusted_sample(new_min as int, ack_delay as int, rtt as int);
                &&& final(self).min == new_min
                &&& final(self).var == next_var(old(self).var as int, sm as int, adj)
                &&& final(self).smoothed == Some((next_smoothed(sm as int, adj)) as u64)
                &&& next_smoothed(sm as int, adj) <= u64::MAX
                &&& next_var(old(self).var as int, sm as int, adj) <= u64::MAX
            }),
    {
        self.latest = rtt;
        // The minimum ignores the reported ack delay.
        if self.min > rtt {
            self.min = rtt;
        }
        match self.smoothed {
            Some(smoothed) => {
                let adjusted: u64 = if (self.min as u128) + (ack_delay as u128) < (rtt as u128) {
                    rtt - ack_delay
                } else {
                    rtt
                };
                let var_sample: u64 = if smoothed > adjusted {
                    smoothed - adjusted
                } else {
                    adjusted - smoothed
                };
                // (3·var + sample)/4 never exceeds the larger of the two
                // inputs, so the 128-bit intermediate fits back into 64 bits.
                let var_wide: u128 = (3 * (self.var as u128) + (var_sample as u128)) / 4;
                self.var = var_wide as u64;
                let smoothed_wide: u128 = (7 * (smoothed as u128) + (adjusted as u128)) / 8;
                self.smoothed = Some(smoothed_wide as u64);
            }
            None => {
                // First real sample: re-seed, overriding the initial guess.
                self.smoothed = Some(rtt);
                self.var = rtt / 2;
                self.min = rtt;
            }
        }
    }

    /// Returns the smoothed RTT if a sample has arrived, else the latest
    /// (initial-guess) value.
    pub fn get(&self) -> (r: u64)
        ensures
            r == self.current(),
    {
        match self.smoothed {
            Some(smoothed) => smoothed,
            None => self.latest,
        }
    }

    /// Conservative estimate of RTT: the maximum of the smoothed estimate
    /// and the latest raw sample, as loss recovery recommends.
    pub fn conservative(&self) -> (r: u64)
        ensures
            r == if self.current() >= self.latest { self.current() } else { self.latest },
            r >= self.current(),
            r >= self.latest,
    {
        let g: u64 = self.get();
        if g >= self.latest {
            g
        } else {
            self.latest
        }
    }

    /// The probe-timeout base: the current estimate plus four times the
    /// variance, floored at the timer granularity.
    pub fn pto_base(&self) -> (r: u64)
        requires
            self.pto_fits(),
        ensures
            r == self.pto_spec(),
            r >= self.current() + TIMER_GRANULARITY,
    {
        let g: u64 = self.get();
        let quad: u128 = 4 * (self.var as u128);
        let floor: u128 = if quad >= (TIMER_GRANULARITY as u128) {
            quad
        } else {
            TIMER_GRANULARITY as u128
        };
        ((g as u128) + floor) as u64
    }
}

/// `get` delegates to the raw fields: the latest (initial-guess) value
/// before any sample has arrived, the smoothed estimate afterwards.
pub proof fn lemma_get_delegation(e: RttEstimator)
    ensures
        e.smoothed is None ==> e.current() == e.latest,
        e.smoothed matches Some(sm) ==> e.current() == sm,
{
}

/// Increasing the variance while holding the current estimate fixed never
/// decreases the probe-timeout base.
pub proof fn lemma_pto_base_monotonic(a: RttEstimator, b: RttEstimator)
    requires
        a.current() == b.current(),
        a.var <= b.var,
    ensures
        a.pto_spec() <= b.pto_spec(),
{
}

/// The probe-timeout base always sits at least one timer granularity above
/// the current estimate.
pub proof fn lemma_pto_base_floor(e: RttEstimator)
    ensures
        e.pto_spec() >= e.current() + TIMER_GRANULARITY,
{
}

} // verus!
