//! Step counting and pacing shared by the stepper drivers: the time between
//! steps at a speed, when a step is due, and where a run of steps ends.
use vstd::prelude::*;

verus! {

/// Microseconds between steps at `rpm` revolutions per minute:
/// 60000000 / steps_per_rev / rpm, each division rounding down.
pub open spec fn delay_for(steps_per_rev: u16, rpm: u16) -> u64 {
    (60000000int / (steps_per_rev as int) / (rpm as int)) as u64
}

/// Microseconds between steps at `rpm` revolutions per minute.
pub fn step_delay_us(steps_per_rev: u16, rpm: u16) -> (r: u64)
    requires
        steps_per_rev > 0,
        rpm > 0,
    ensures
        r == delay_for(steps_per_rev, rpm),
{
    60 * 1000 * 1000 / (steps_per_rev as u64) / (rpm as u64)
}

/// A speed leaves at least a whole microsecond between steps, so that moves
/// are paced, exactly when steps_per_rev * rpm is at most 60000000.
pub proof fn lemma_speed_accepts_moves(steps_per_rev: u16, rpm: u16)
    requires
        steps_per_rev > 0,
        rpm > 0,
    ensures
        delay_for(steps_per_rev, rpm) != 0 <==> (steps_per_rev as int) * (rpm as int) <= 60000000,
{
    let spr = steps_per_rev as int;
    let r = rpm as int;
    let q = 60000000int / spr;
    assert(q * spr <= 60000000 < (q + 1) * spr) by (nonlinear_arith)
        requires
            spr > 0,
            q == 60000000int / spr,
    ;
    assert(q / r >= 1 <==> q >= r) by (nonlinear_arith)
        requires
            r > 0,
            q >= 0,
    ;
    assert(q >= r <==> spr * r <= 60000000) by (nonlinear_arith)
        requires
            spr > 0,
            r > 0,
            q * spr <= 60000000 < (q + 1) * spr,
    ;
    assert(0 <= q / r <= 60000000) by (nonlinear_arith)
        requires
            r > 0,
            0 <= q <= 60000000,
    ;
}

/// The delay is the time of one step at `rpm` revolutions per minute,
/// rounded down to whole microseconds: `steps_per_rev * rpm` delays fit in
/// a minute, and one more microseconds each would not.
pub proof fn lemma_delay_is_time_per_step(steps_per_rev: u16, rpm: u16)
    requires
        steps_per_rev > 0,
        rpm > 0,
    ensures
        (delay_for(steps_per_rev, rpm) as int) * (steps_per_rev as int) * (rpm as int) <= 60000000,
        60000000 < (delay_for(steps_per_rev, rpm) as int + 1) * (steps_per_rev as int) * (rpm as int),
{
    let spr = steps_per_rev as int;
    let r = rpm as int;
    let q1 = 60000000int / spr;
    let q = q1 / r;
    assert(q1 * spr <= 60000000 < (q1 + 1) * spr) by (nonlinear_arith)
        requires
            spr > 0,
            q1 == 60000000int / spr,
    ;
    assert(q * r <= q1 < (q + 1) * r) by (nonlinear_arith)
        requires
            r > 0,
            q == q1 / r,
    ;
    assert(0 <= q <= 60000000) by (nonlinear_arith)
        requires
            r > 0,
            spr > 0,
            q1 == 60000000int / spr,
            q == q1 / r,
    ;
    assert(q * spr * r <= 60000000) by (nonlinear_arith)
        requires
            q * r <= q1,
            q1 * spr <= 60000000,
            spr > 0,
            q >= 0,
    ;
    assert(60000000 < (q + 1) * spr * r) by (nonlinear_arith)
        requires
            q1 < (q + 1) * r,
            60000000 < (q1 + 1) * spr,
            spr > 0,
    ;
}

/// Nanoseconds from the last step to `now_ns` (zero if `now_ns` is earlier).
pub open spec fn elapsed_ns(last_step_ns: u128, now_ns: int) -> int {
    if now_ns >= last_step_ns {
        now_ns - last_step_ns
    } else {
        0
    }
}

/// A step is pending and the step delay has passed since the last one.
pub open spec fn step_due(remaining_steps: u32, step_delay_us: u64, last_step_ns: u128, now_ns: int) -> bool {
    remaining_steps > 0 && elapsed_ns(last_step_ns, now_ns) >= step_delay_us * 1000
}

/// Whether a step is due at `now_ns` (see `step_due`).
pub fn is_step_due(remaining_steps: u32, step_delay_us: u64, last_step_ns: u128, now_ns: u128) -> (r: bool)
    ensures
        r == step_due(remaining_steps, step_delay_us, last_step_ns, now_ns as int),
{
    let elapsed: u128 = if now_ns >= last_step_ns { now_ns - last_step_ns } else { 0 };
    remaining_steps > 0 && elapsed >= (step_delay_us as u128) * 1000
}

/// Two steps are never closer than the step delay: a step is due only once
/// the delay has passed since the last one.
pub proof fn lemma_steps_spaced(remaining_steps: u32, step_delay_us: u64, last_step_ns: u128, now_ns: int)
    requires
        step_due(remaining_steps, step_delay_us, last_step_ns, now_ns),
        step_delay_us > 0,
    ensures
        now_ns >= last_step_ns + step_delay_us * 1000,
{
}

/// A pending step is due exactly when the step delay has passed since the
/// last step, however long ago that was (and, with no delay, also when the
/// clock reads earlier than the last step).
pub proof fn lemma_step_due_exactly(remaining_steps: u32, step_delay_us: u64, last_step_ns: u128, now_ns: int)
    ensures
        step_due(remaining_steps, step_delay_us, last_step_ns, now_ns) <==> (remaining_steps > 0 && (
            now_ns >= last_step_ns + step_delay_us * 1000 || (now_ns < last_step_ns && step_delay_us == 0))),
        remaining_steps > 0 && now_ns >= last_step_ns + step_delay_us * 1000
            ==> step_due(remaining_steps, step_delay_us, last_step_ns, now_ns),
{
}

/// Signed displacement of `k` steps of `unit` (-1, 0 or 1) each.
pub open spec fn shift(unit: int, k: int) -> int {
    if unit > 0 {
        k
    } else if unit < 0 {
        -k
    } else {
        0
    }
}

/// The next step, if one is pending, keeps the step counter in range.
pub open spec fn next_in_range(steps_taken: i32, remaining_steps: u32, unit: int) -> bool {
    remaining_steps > 0 ==> i32::MIN <= steps_taken + unit <= i32::MAX
}

/// Position and steps left after `k` steps that each move the counter by
/// `unit` and use up one step.
pub open spec fn run(steps_taken: i32, remaining_steps: u32, unit: int, k: nat) -> (i32, u32)
    decreases k,
{
    if k == 0 {
        (steps_taken, remaining_steps)
    } else {
        run((steps_taken + unit) as i32, (remaining_steps - 1) as u32, unit, (k - 1) as nat)
    }
}

/// `k` steps of a run move the counter by `k` units and leave `k` fewer
/// steps; on the way no step leaves the counter's range, provided the end
/// point is in it.
pub proof fn lemma_run(steps_taken: i32, remaining_steps: u32, unit: int, k: nat)
    requires
        -1 <= unit <= 1,
        k <= remaining_steps,
        i32::MIN <= steps_taken + shift(unit, k as int) <= i32::MAX,
    ensures
        run(steps_taken, remaining_steps, unit, k) == ((steps_taken + shift(unit, k as int)) as i32, (remaining_steps - k) as u32),
        forall|j: nat| j < k ==> {
            let p = #[trigger] run(steps_taken, remaining_steps, unit, j);
            next_in_range(p.0, p.1, unit)
        },
    decreases k,
{
    if k > 0 {
        let s1 = (steps_taken + unit) as i32;
        let r1 = (remaining_steps - 1) as u32;
        lemma_run(s1, r1, unit, (k - 1) as nat);
        assert forall|j: nat| j < k implies {
            let p = #[trigger] run(steps_taken, remaining_steps, unit, j);
            next_in_range(p.0, p.1, unit)
        } by {
            if j > 0 {
                assert(run(steps_taken, remaining_steps, unit, j) == run(s1, r1, unit, (j - 1) as nat));
            }
        }
    }
}

} // verus!
