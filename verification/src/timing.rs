use vstd::prelude::*;

verus! {

/// Nanoseconds in one second.
pub const NS_PER_S: u64 = 1_000_000_000;

/// The scheduler's target interval between tick starts, in nanoseconds, for
/// a target frame rate of `fps`: the least whole number of nanoseconds that
/// is not shorter than `1/fps` seconds (the ceiling of `10^9 / fps`), so
/// that spacing ticks by it never undercuts the frame budget.
pub open spec fn spec_frame_interval_ns(fps: u64) -> int {
    (NS_PER_S as int + fps as int - 1) / fps as int
}

/// The target interval covers the frame budget exactly: it is at least
/// `1/fps` seconds, and less than one nanosecond more than `1/fps` seconds.
pub proof fn lemma_frame_interval_covers_budget(fps: u64)
    requires
        1 <= fps,
    ensures
        spec_frame_interval_ns(fps) * fps >= NS_PER_S,
        (spec_frame_interval_ns(fps) - 1) * fps < NS_PER_S,
{
    let n = NS_PER_S as int + fps as int - 1;
    let q = spec_frame_interval_ns(fps);
    let r = n % (fps as int);
    vstd::arithmetic::div_mod::lemma_fundamental_div_mod(n, fps as int);
    vstd::arithmetic::div_mod::lemma_mod_bound(n, fps as int);
    assert(n == (fps as int) * q + r);
    assert(q * fps == n - r) by (nonlinear_arith)
        requires
            n == (fps as int) * q + r,
    ;
    assert((q - 1) * fps == n - r - fps) by (nonlinear_arith)
        requires
            q * fps == n - r,
    ;
}

/// Computes the target interval between tick starts from the configured
/// frame rate.
pub fn frame_interval_ns(fps: u64) -> (r: u64)
    requires
        1 <= fps,
    ensures
        r == spec_frame_interval_ns(fps),
{
    if fps > NS_PER_S {
        // More than one tick per nanosecond cannot be asked of the clock:
        // the interval rounds up to a single nanosecond.
        proof {
            let n = NS_PER_S as int + fps as int - 1;
            vstd::arithmetic::div_mod::lemma_fundamental_div_mod(n, fps as int);
            vstd::arithmetic::div_mod::lemma_mod_bound(n, fps as int);
            let q = spec_frame_interval_ns(fps);
            assert(q == 1) by (nonlinear_arith)
                requires
                    fps > NS_PER_S,
                    NS_PER_S == 1_000_000_000,
                    n == (fps as int) * q + n % (fps as int),
                    0 <= n % (fps as int) < fps as int,
                    n == NS_PER_S as int + fps as int - 1,
            ;
        }
        1
    } else {
        (NS_PER_S + fps - 1) / fps
    }
}

/// Timing state owned by the frame scheduler: the instant of the previous
/// tick and the target interval, both as nanoseconds of one monotonic clock.
pub struct FrameTiming {
    pub prev_frame_ns: u64,
    pub interval_ns: u64,
}

/// The relation one scheduler tick establishes between the timing state
/// `before` and `after` the tick, the monotonic instant `now_ns` at which it
/// ran, the elapsed time `dt_ns` it reports, and the earliest wake-up
/// `wake_ns` it requests for the next tick.
pub open spec fn tick_post(
    before: FrameTiming,
    after: FrameTiming,
    now_ns: u64,
    dt_ns: u64,
    wake_ns: u64,
) -> bool {
    &&& dt_ns == now_ns - before.prev_frame_ns
    &&& wake_ns == now_ns + before.interval_ns
    &&& after.prev_frame_ns == now_ns
    &&& after.interval_ns == before.interval_ns
}

impl FrameTiming {
    /// Timing state at start-up: no frame has run yet, so the scheduler's own
    /// start instant stands in for the previous tick, and the very first
    /// `dt` is measured against it.
    pub fn new(start_ns: u64, fps: u64) -> (t: FrameTiming)
        requires
            1 <= fps,
        ensures
            t.prev_frame_ns == start_ns,
            t.interval_ns == spec_frame_interval_ns(fps),
    {
        FrameTiming { prev_frame_ns: start_ns, interval_ns: frame_interval_ns(fps) }
    }

    /// One scheduler tick at monotonic instant `now_ns`: reports the
    /// wall-clock time elapsed since the previous tick and the earliest
    /// permitted wake-up for the next one, and records `now_ns` as the new
    /// previous-tick instant. The clock is monotonic, so `now_ns` never lies
    /// before the recorded previous instant.
    pub fn tick(&mut self, now_ns: u64) -> (r: (u64, u64))
        requires
            old(self).prev_frame_ns <= now_ns,
            now_ns + old(self).interval_ns <= u64::MAX,
        ensures
            tick_post(*old(self), *final(self), now_ns, r.0, r.1),
    {
        let dt_ns = now_ns - self.prev_frame_ns;
        let wake_ns = now_ns + self.interval_ns;
        self.prev_frame_ns = now_ns;
        (dt_ns, wake_ns)
    }
}

/// Minimum-spacing law: for any configured frame rate, the wake-up a tick
/// requests is never earlier than that tick's own `now` plus `1/fps`
/// seconds. Scaling both sides by `fps` states the bound exactly in whole
/// nanoseconds: `wake * fps >= now * fps + 10^9`.
pub proof fn lemma_wake_up_min_spacing(
    before: FrameTiming,
    after: FrameTiming,
    fps: u64,
    now_ns: u64,
    dt_ns: u64,
    wake_ns: u64,
)
    requires
        1 <= fps,
        before.interval_ns == spec_frame_interval_ns(fps),
        tick_post(before, after, now_ns, dt_ns, wake_ns),
    ensures
        wake_ns >= now_ns + spec_frame_interval_ns(fps),
        wake_ns * fps >= now_ns * fps + NS_PER_S,
{
    lemma_frame_interval_covers_budget(fps);
    let q = spec_frame_interval_ns(fps);
    assert(wake_ns * fps == now_ns * fps + q * fps) by (nonlinear_arith)
        requires
            wake_ns == now_ns + q,
    ;
}

/// Elapsed time is wall-clock time: across two consecutive ticks, the `dt`
/// the second tick reports equals the difference of the two ticks' `now`
/// samples. No clause constrains the frame rate, so `dt` is the measured
/// delta whatever `fps` is, not the nominal interval.
pub proof fn lemma_dt_is_measured_elapsed(
    s0: FrameTiming,
    s1: FrameTiming,
    s2: FrameTiming,
    now_a: u64,
    now_b: u64,
    dt_a: u64,
    wake_a: u64,
    dt_b: u64,
    wake_b: u64,
)
    requires
        tick_post(s0, s1, now_a, dt_a, wake_a),
        tick_post(s1, s2, now_b, dt_b, wake_b),
    ensures
        dt_b == now_b - now_a,
{
}

} // verus!
