//! Partial decode pacing: the cadence stretches as the segment buffer grows, and never
//! undercuts the cost of the last decode.  Finals are never paced.
use vstd::prelude::*;

use crate::clock::{instant_ms_ago, instant_now, millis_since};

verus! {

/// `round(n / d)` with halves away from zero, for `n >= 0`, `d > 0`.
pub open spec fn round_div(n: int, d: int) -> int {
    (2 * n + d) / (2 * d)
}

/// Stretched interval (before the decode-cost floor and the clamp), exactly
/// `round(base * stretch)` where the stretch is 1 up to 1 s of audio, grows linearly to 3
/// at 5 s, then to 5 at 15 s and stays there.
pub open spec fn stretched_ms(base: int, audio_ms: int) -> int {
    if audio_ms <= 1000 {
        base
    } else if audio_ms <= 5000 {
        round_div(base * (audio_ms + 1000), 2000)
    } else if audio_ms >= 15000 {
        5 * base
    } else {
        round_div(base * (audio_ms + 10000), 5000)
    }
}

/// `round(1.25 * last)`, saturated to `u32`.
pub open spec fn cost_floor_ms(last_decode_ms: int) -> int {
    if round_div(5 * last_decode_ms, 4) > u32::MAX {
        u32::MAX as int
    } else {
        round_div(5 * last_decode_ms, 4)
    }
}

pub open spec fn adaptive_interval(base_ms: u32, audio_ms: u32, last_decode_ms: u64) -> int {
    let base: int = if base_ms >= 1 { base_ms as int } else { 1 };
    let s = stretched_ms(base, audio_ms as int);
    let with_floor = if last_decode_ms > 0 && cost_floor_ms(last_decode_ms as int) > s {
        cost_floor_ms(last_decode_ms as int)
    } else {
        s
    };
    if with_floor < base {
        base
    } else if with_floor > 3000 {
        3000
    } else {
        with_floor
    }
}

/// Effective partial decode interval for the current buffer and the last decode cost.
/// The clamp to `[max(base, 1), 3000]` requires the base to be at most 3 s.
pub fn adaptive_partial_decode_interval_ms(base_ms: u32, audio_ms: u32, last_decode_ms: u64) -> (r:
    u32)
    requires
        base_ms <= 3000,
    ensures
        r == adaptive_interval(base_ms, audio_ms, last_decode_ms),
{
    let base: u64 = if base_ms >= 1 { base_ms as u64 } else { 1 };
    let a = audio_ms as u64;
    let stretched: u64 = if a <= 1000 {
        base
    } else if a <= 5000 {
        assert(2 * base * (a + 1000) <= 2 * 3000 * 6000) by (nonlinear_arith)
            requires base <= 3000, a <= 5000;
        (2 * base * (a + 1000) + 2000) / 4000
    } else if a >= 15000 {
        5 * base
    } else {
        assert(2 * base * (a + 10000) <= 2 * 3000 * 25000) by (nonlinear_arith)
            requires base <= 3000, a < 15000;
        (2 * base * (a + 10000) + 5000) / 10000
    };
    assert(stretched == stretched_ms(base as int, a as int)) by (nonlinear_arith)
        requires
            base <= 3000,
            stretched == (if a <= 1000 {
                base as int
            } else if a <= 5000 {
                (2 * base * (a + 1000) + 2000) / 4000
            } else if a >= 15000 {
                5 * base
            } else {
                (2 * base * (a + 10000) + 5000) / 10000
            }),
    ;
    let mut interval = stretched;
    if last_decode_ms > 0 {
        let l = last_decode_ms as u128;
        let f = (10 * l + 4) / 8;
        let floor: u64 = if f > 4294967295 { 4294967295 } else { f as u64 };
        if floor > interval {
            interval = floor;
        }
    }
    if interval < base {
        base as u32
    } else if interval > 3000 {
        3000
    } else {
        interval as u32
    }
}

/// Live VAD force-final ceiling (ms) when the silence hold never fires.
pub fn max_segment_ms_for_preset(_preset: &str) -> (r: u32)
    ensures
        r == 5500,
{
    5500
}

/// Whether a partial may be enqueued `elapsed_ms` after the previous one.
pub fn pacing_allows(elapsed_ms: u128, interval_ms: u32) -> (r: bool)
    ensures
        r == (elapsed_ms >= if interval_ms >= 1 { interval_ms as int } else { 1 }),
{
    let interval: u128 = if interval_ms >= 1 { interval_ms as u128 } else { 1 };
    elapsed_ms >= interval
}

pub struct DecodePacer {
    last_enqueue: std::time::Instant,
    /// Last interval that gated a successful enqueue (diagnostics).
    pub last_interval_ms: u32,
}

impl DecodePacer {
    pub closed spec fn last_interval(&self) -> u32 {
        self.last_interval_ms
    }

    /// The interval that gated the last allowed partial.
    pub fn interval_ms(&self) -> (r: u32)
        ensures
            r == self.last_interval(),
    {
        self.last_interval_ms
    }

    /// A pacer whose first partial is allowed at once (the last enqueue lies 60 s back).
    pub fn default() -> (r: Self)
        ensures
            r.last_interval() == 0,
    {
        DecodePacer { last_enqueue: instant_ms_ago(60_000), last_interval_ms: 0 }
    }

    /// Reset so the next partial is allowed immediately (new VAD segment).
    pub fn reset_for_new_segment(&mut self)
        ensures
            final(self).last_interval() == 0,
    {
        *self = Self::default();
    }

    /// Force the next `allow_partial` to pass.
    pub fn allow_next(&mut self)
        ensures
            final(self).last_interval() == old(self).last_interval(),
    {
        self.last_enqueue = instant_ms_ago(60_000);
    }

    /// Allows a partial when `interval_ms` (at least 1) has elapsed since the last allowed one;
    /// an allowed partial records the interval and restarts the wait.
    pub fn allow_partial(&mut self, interval_ms: u32) -> (r: bool)
        ensures
            r ==> final(self).last_interval() == interval_ms,
            !r ==> *final(self) == *old(self),
    {
        let elapsed = millis_since(&self.last_enqueue);
        if !pacing_allows(elapsed, interval_ms) {
            return false;
        }
        self.last_interval_ms = interval_ms;
        self.last_enqueue = instant_now();
        true
    }
}

/// Law: the paced interval never drops below the preset base (at least 1 ms) and never
/// exceeds 3 s, and it never drops below the stretched cadence while that is under 3 s.
pub proof fn law_pacing_bounds(base_ms: u32, audio_ms: u32, last_decode_ms: u64)
    requires
        base_ms <= 3000,
    ensures
        (if base_ms >= 1 { base_ms as int } else { 1 }) <= adaptive_interval(base_ms, audio_ms, last_decode_ms) <= 3000,
        stretched_ms(if base_ms >= 1 { base_ms as int } else { 1 }, audio_ms as int) <= 3000 ==>
            stretched_ms(if base_ms >= 1 { base_ms as int } else { 1 }, audio_ms as int)
            <= adaptive_interval(base_ms, audio_ms, last_decode_ms),
{
}

/// Law: more buffered audio never shortens the stretched cadence.
pub proof fn law_stretch_is_monotone(base: int, a1: int, a2: int)
    requires
        1 <= base,
        0 <= a1 <= a2,
    ensures
        stretched_ms(base, a1) <= stretched_ms(base, a2),
{
    assert(base <= round_div(base * (1000 + 1000), 2000)) by (nonlinear_arith)
        requires 1 <= base;
    if a1 <= 1000 {
        if a2 > 1000 && a2 <= 5000 {
            assert(base <= round_div(base * (a2 + 1000), 2000)) by (nonlinear_arith)
                requires 1 <= base, 1000 < a2;
        } else if a2 > 5000 && a2 < 15000 {
            assert(base <= round_div(base * (a2 + 10000), 5000)) by (nonlinear_arith)
                requires 1 <= base, 5000 < a2;
        }
    } else if a1 <= 5000 {
        if a2 <= 5000 {
            assert(round_div(base * (a1 + 1000), 2000) <= round_div(base * (a2 + 1000), 2000))
                by (nonlinear_arith)
                requires 1 <= base, a1 <= a2;
        } else if a2 < 15000 {
            assert(round_div(base * (a1 + 1000), 2000) <= round_div(base * (a2 + 10000), 5000))
                by (nonlinear_arith)
                requires 1 <= base, a1 <= 5000, 5000 < a2;
        } else {
            assert(round_div(base * (a1 + 1000), 2000) <= 5 * base) by (nonlinear_arith)
                requires 1 <= base, a1 <= 5000;
        }
    } else if a1 < 15000 {
        if a2 < 15000 {
            assert(round_div(base * (a1 + 10000), 5000) <= round_div(base * (a2 + 10000), 5000))
                by (nonlinear_arith)
                requires 1 <= base, a1 <= a2;
        } else {
            assert(round_div(base * (a1 + 10000), 5000) <= 5 * base) by (nonlinear_arith)
                requires 1 <= base, a1 < 15000;
        }
    }
}

/// Wall time (ms) of the last successful decode, written by the decode worker and read by
/// the pacer.  A caller that shares it between threads puts it behind a lock.
pub struct LastDecodeMs {
    value: u64,
}

impl LastDecodeMs {
    pub closed spec fn ms(&self) -> u64 {
        self.value
    }

    pub fn new() -> (r: Self)
        ensures
            r.ms() == 0,
    {
        LastDecodeMs { value: 0 }
    }

    pub fn store(&mut self, ms: u64)
        ensures
            final(self).ms() == ms,
    {
        self.value = ms;
    }

    pub fn load(&self) -> (r: u64)
        ensures
            r == self.ms(),
    {
        self.value
    }
}

} // verus!
