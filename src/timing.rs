use vstd::prelude::*;

verus! {

/// A wall-clock instant, in nanoseconds since the Unix epoch (negative before it).
#[derive(Clone, Copy, Debug, PartialEq, Eq, Structural)]
pub struct WallTime {
    pub nanos: i128,
}

/// Bound on the wall-clock readings a system clock can produce (beyond the range
/// of 64-bit seconds counted in nanoseconds).
pub const WALL_LIMIT: i128 = 0x10_0000_0000_0000_0000_0000_0000;

/// Ratio that turns ticks of the host's monotonic clock into nanoseconds.
#[derive(Clone, Copy, Debug, PartialEq, Eq, Structural)]
pub struct TimeBase {
    pub numer: u32,
    pub denom: u32,
}

/// Nanoseconds from the monotonic reading `now` to the frame's presentation
/// time `frame`: negative when the frame lies in the past. The magnitude is
/// rounded toward zero.
pub open spec fn host_delta_nanos(frame: u64, now: u64, timebase: TimeBase) -> int {
    if frame > now {
        ((frame - now) * timebase.numer) / (timebase.denom as int)
    } else {
        -(((now - frame) * timebase.numer) / (timebase.denom as int))
    }
}

/// Display time of a frame: the wall-clock sample moved by the signed distance
/// between the frame's presentation time and the monotonic sample.
pub open spec fn reconciled(wall_now: int, now: u64, frame: u64, timebase: TimeBase) -> int {
    wall_now + host_delta_nanos(frame, now, timebase)
}

/// Converts a presentation time in monotonic ticks (`frame_ticks`) into wall-clock
/// time, from one sample of each clock taken together (`wall_now`, `now_ticks`).
pub fn reconcile_display_time(
    wall_now: WallTime,
    now_ticks: u64,
    frame_ticks: u64,
    timebase: TimeBase,
) -> (t: WallTime)
    requires
        timebase.denom > 0,
        -WALL_LIMIT <= wall_now.nanos <= WALL_LIMIT,
    ensures
        t.nanos == reconciled(wall_now.nanos as int, now_ticks, frame_ticks, timebase),
{
    let forward = frame_ticks > now_ticks;
    let ticks: u64 = if forward {
        frame_ticks - now_ticks
    } else {
        now_ticks - frame_ticks
    };
    assert(ticks as u128 * timebase.numer as u128 <= 0x1_0000_0000_0000_0000_0000_0000) by (
    nonlinear_arith)
        requires
            ticks <= u64::MAX,
            timebase.numer <= u32::MAX,
    ;
    let scaled: u128 = ticks as u128 * timebase.numer as u128;
    let nanos: u128 = scaled / timebase.denom as u128;
    assert(nanos <= scaled) by (nonlinear_arith)
        requires
            nanos == scaled / (timebase.denom as u128),
            timebase.denom > 0,
    ;
    let magnitude: i128 = nanos as i128;
    if forward {
        WallTime { nanos: wall_now.nanos + magnitude }
    } else {
        WallTime { nanos: wall_now.nanos - magnitude }
    }
}

/// A frame presented at the instant both clocks were sampled is shown at the
/// wall-clock sample itself.
pub proof fn lemma_reconcile_same_instant(wall_now: int, now: u64, timebase: TimeBase)
    requires
        timebase.denom > 0,
    ensures
        reconciled(wall_now, now, now, timebase) == wall_now,
{
}

/// A frame presented one second of monotonic time before the sample is shown
/// exactly one second before the wall-clock sample.
pub proof fn lemma_reconcile_one_second_behind(
    wall_now: int,
    now: u64,
    frame: u64,
    timebase: TimeBase,
)
    requires
        timebase.denom > 0,
        frame <= now,
        ((now - frame) * timebase.numer) / (timebase.denom as int) == 1_000_000_000,
    ensures
        reconciled(wall_now, now, frame, timebase) == wall_now - 1_000_000_000,
{
}

} // verus!
