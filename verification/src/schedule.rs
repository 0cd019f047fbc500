//! Client timing: refresh cadences, the select-loop deadline, animation steps and retry backoff.
//! Instants and durations are counted in microseconds.

use vstd::prelude::*;

verus! {

/// Background cadence of sidebar summary refreshes.
pub const CLIENT_SUPERVISOR_REFRESH_INTERVAL: u64 = 2_000_000;
/// Cadence of the focused (active) remote's summary refresh.
pub const CLIENT_FOCUSED_SUMMARY_REFRESH_INTERVAL: u64 = 400_000;
/// One frame at 60 frames per second.
pub const CLIENT_60FPS_FRAME_BUDGET: u64 = 16_667;
/// The sidebar animation cadence.
pub const CLIENT_ANIMATION_INTERVAL: u64 = 80_000;
/// Animation ticks advanced per animation step.
pub const CLIENT_ANIMATION_TICK_STEP: u32 = 8;
/// The idle housekeeping wakeup of the select loop.
pub const CLIENT_HOUSEKEEPING_INTERVAL: u64 = 100_000;
/// How long a successful host update outcome stays on the banner.
pub const HOST_UPDATE_OUTCOME_TTL: u64 = 6_000_000;
/// How long a failed host update outcome stays on the banner.
pub const HOST_UPDATE_FAILURE_TTL: u64 = 12_000_000;
/// Idle ceiling for one provisioning stage of an ssh remote bridge.
pub const ADD_REMOTE_BRIDGE_IDLE_TIMEOUT: u64 = 90_000_000;

/// Elapsed time from `earlier` to `later`, zero when `later` is not after it.
pub open spec fn elapsed(later: u64, earlier: u64) -> int {
    if later >= earlier { later - earlier } else { 0 }
}

/// Whether the background summary refresh is due.
pub fn supervisor_summary_refresh_due(now: u64, last_refresh: u64) -> (r: bool)
    ensures
        r == (elapsed(now, last_refresh) >= CLIENT_SUPERVISOR_REFRESH_INTERVAL),
{
    now >= last_refresh && now - last_refresh >= CLIENT_SUPERVISOR_REFRESH_INTERVAL
}

/// Whether the animation step should advance the tick: something animates and a full animation
/// interval has elapsed since the last advance.
pub fn should_advance_animation(wants_animation: bool, now: u64, last_animation_tick: u64) -> (r: bool)
    ensures
        r == (wants_animation && elapsed(now, last_animation_tick) >= CLIENT_ANIMATION_INTERVAL),
{
    wants_animation && now >= last_animation_tick && now - last_animation_tick >= CLIENT_ANIMATION_INTERVAL
}

/// The smaller of two instants.
pub open spec fn min_time(a: int, b: int) -> int {
    if a <= b { a } else { b }
}

/// The select-loop wakeup: the housekeeping tick, the next animation step while animating, and
/// within one frame budget of the last composited frame (never in the past) while a hover render
/// is pending.
pub open spec fn select_deadline(
    now: u64,
    last_animation_tick: u64,
    wants_animation: bool,
    pending_hover_render: bool,
    last_composited_render_at: u64,
) -> int {
    let housekeeping = now + CLIENT_HOUSEKEEPING_INTERVAL;
    let base = if wants_animation {
        min_time(housekeeping, last_animation_tick + CLIENT_ANIMATION_INTERVAL)
    } else {
        housekeeping
    };
    if pending_hover_render {
        let hover = last_composited_render_at + CLIENT_60FPS_FRAME_BUDGET;
        min_time(base, if hover >= now { hover } else { now as int })
    } else {
        base
    }
}

/// The select-loop wakeup deadline.
pub fn next_select_deadline(
    now: u64,
    last_animation_tick: u64,
    wants_animation: bool,
    pending_hover_render: bool,
    last_composited_render_at: u64,
) -> (r: u64)
    requires
        now + CLIENT_HOUSEKEEPING_INTERVAL <= u64::MAX,
        last_animation_tick + CLIENT_ANIMATION_INTERVAL <= u64::MAX,
        last_composited_render_at + CLIENT_60FPS_FRAME_BUDGET <= u64::MAX,
    ensures
        r == select_deadline(now, last_animation_tick, wants_animation, pending_hover_render,
            last_composited_render_at),
{
    let housekeeping = now + CLIENT_HOUSEKEEPING_INTERVAL;
    let mut deadline = if wants_animation {
        let animation = last_animation_tick + CLIENT_ANIMATION_INTERVAL;
        if housekeeping <= animation { housekeeping } else { animation }
    } else {
        housekeeping
    };
    if pending_hover_render {
        let hover = last_composited_render_at + CLIENT_60FPS_FRAME_BUDGET;
        let hover_deadline = if hover >= now { hover } else { now };
        if hover_deadline < deadline {
            deadline = hover_deadline;
        }
    }
    deadline
}

/// The longest reconnect backoff.
pub const LONGEST_RETRY_DELAY: u64 = 15_000_000;

/// Backoff before reconnect attempt `attempt`: 1s, 2s, 5s, then 15s.
pub open spec fn retry_delay(attempt: usize) -> u64 {
    if attempt == 0 { 1_000_000 } else if attempt == 1 { 2_000_000 } else if attempt == 2 { 5_000_000 } else { 15_000_000 }
}

/// Backoff before reconnect attempt `attempt`.
pub fn secondary_retry_delay(attempt: usize) -> (r: u64)
    ensures
        r == retry_delay(attempt),
{
    match attempt {
        0 => 1_000_000,
        1 => 2_000_000,
        2 => 5_000_000,
        _ => 15_000_000,
    }
}

/// The backoff never shrinks from one attempt to the next and never exceeds the longest.
pub proof fn lemma_retry_backoff_grows(a: usize, b: usize)
    requires
        a <= b,
    ensures
        retry_delay(a) <= retry_delay(b) <= LONGEST_RETRY_DELAY,
{
}

/// Whether a resize must be reported: on a resize signal even when the size is unchanged, or
/// whenever the polled geometry differs from the last report.
pub fn resize_report_required(signalled: bool, new_size: (u16, u16, u32, u32), last_size: (u16, u16, u32, u32)) -> (r: bool)
    ensures
        r == (signalled || new_size != last_size),
{
    signalled || new_size.0 != last_size.0 || new_size.1 != last_size.1 || new_size.2 != last_size.2
        || new_size.3 != last_size.3
}

/// Host mouse capture is on when the server asks for it or the client draws its own sidebar.
pub fn desired_mouse_capture(server_enabled: bool, client_compositor_enabled: bool) -> (r: bool)
    ensures
        r == (server_enabled || client_compositor_enabled),
{
    server_enabled || client_compositor_enabled
}

} // verus!
