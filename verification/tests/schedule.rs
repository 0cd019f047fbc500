use herdr_client::render::{FrameWindow, FrameWindowSummary, RenderCadence, TimerRender, missed_sixty_fps_budget};
use herdr_client::schedule::{
    CLIENT_60FPS_FRAME_BUDGET, CLIENT_ANIMATION_INTERVAL, CLIENT_ANIMATION_TICK_STEP, desired_mouse_capture,
    next_select_deadline, resize_report_required, secondary_retry_delay, should_advance_animation,
    supervisor_summary_refresh_due,
};
use herdr_client::protocol::ServerId;
use herdr_client::render::{WorkingSince, prune_and_seed_working_since};
use herdr_client::supervisor::{AgentGroup, AgentRow};

const MS: u64 = 1_000;
const SEC: u64 = 1_000_000;
const T0: u64 = 1_000 * SEC;

#[test]
fn resize_signal_reports_even_when_polled_size_is_unchanged() {
    let size = (120, 40, 8, 16);
    assert!(resize_report_required(true, size, size));
    assert!(!resize_report_required(false, size, size));
    assert!(resize_report_required(false, (120, 41, 8, 16), size));
    assert!(resize_report_required(false, (120, 40, 9, 18), size));
}

#[test]
fn supervisor_summary_refresh_due_uses_two_second_interval() {
    let start = T0;
    assert!(!supervisor_summary_refresh_due(start + 1999 * MS, start));
    assert!(supervisor_summary_refresh_due(start + 2 * SEC, start));
}

#[test]
fn secondary_retry_delay_uses_conservative_backoff_schedule() {
    assert_eq!(secondary_retry_delay(0), SEC);
    assert_eq!(secondary_retry_delay(1), 2 * SEC);
    assert_eq!(secondary_retry_delay(2), 5 * SEC);
    assert_eq!(secondary_retry_delay(3), 15 * SEC);
    assert_eq!(secondary_retry_delay(8), 15 * SEC);
}

#[test]
fn client_animation_cadence_matches_visible_step_rate() {
    assert_eq!(CLIENT_ANIMATION_INTERVAL, 80 * MS);
    assert_eq!(CLIENT_ANIMATION_TICK_STEP, 8);
    let visible_steps_per_interval = CLIENT_ANIMATION_TICK_STEP / 8;
    assert_eq!(visible_steps_per_interval, 1);
    let visible_step_period = CLIENT_ANIMATION_INTERVAL / visible_steps_per_interval as u64;
    assert_eq!(visible_step_period, 80 * MS);
    assert!(visible_step_period >= 64 * MS);
    assert!(visible_step_period <= 128 * MS);
}

#[test]
fn next_select_deadline_picks_min_when_active() {
    let now = T0;
    let last = now - 30 * MS;
    let active = next_select_deadline(now, last, true, false, now);
    assert_eq!(active, last + CLIENT_ANIMATION_INTERVAL);
    assert_eq!(active, now + 50 * MS);

    let idle = next_select_deadline(now, last, false, false, now);
    assert_eq!(idle, now + 100 * MS);

    let far_last = now + 50 * MS;
    let active_far = next_select_deadline(now, far_last, true, false, now);
    assert_eq!(active_far, now + 100 * MS);
    assert!(far_last + CLIENT_ANIMATION_INTERVAL > now + 100 * MS);
}

#[test]
fn next_select_deadline_clamps_to_frame_budget_for_pending_hover() {
    let now = T0;
    let last_anim = now - 30 * MS;

    let stale = now - CLIENT_60FPS_FRAME_BUDGET;
    let due = next_select_deadline(now, last_anim, false, true, stale);
    assert_eq!(due, now, "an overdue pending hover must flush immediately (clamped to now)");

    let recent = now - 5 * MS;
    let soon = next_select_deadline(now, last_anim, false, true, recent);
    assert_eq!(soon, recent + CLIENT_60FPS_FRAME_BUDGET);
    assert!(soon < now + 100 * MS);

    let inert = next_select_deadline(now, last_anim, false, false, stale);
    assert_eq!(inert, now + 100 * MS);
}

#[test]
fn two_timers_within_interval_advance_tick_once() {
    let t0 = T0;
    assert!(should_advance_animation(true, t0, t0 - CLIENT_ANIMATION_INTERVAL));
    assert!(!should_advance_animation(true, t0 + 40 * MS, t0));
    assert!(should_advance_animation(true, t0 + CLIENT_ANIMATION_INTERVAL, t0));
}

#[test]
fn no_tick_advance_without_animation() {
    assert!(!should_advance_animation(false, T0 + 10 * SEC, T0));
}

#[test]
fn composited_client_keeps_mouse_capture_enabled_for_sidebar() {
    assert!(desired_mouse_capture(false, true));
    assert!(desired_mouse_capture(true, true));
    assert!(desired_mouse_capture(true, false));
    assert!(!desired_mouse_capture(false, false));
}

#[test]
fn request_composited_render_coalesces_a_fleet_update_storm_within_a_frame() {
    let mut cadence = RenderCadence::new(T0);
    cadence.pending_full_render = false;
    let mut rendered_now = 0;
    for i in 0..50u64 {
        if cadence.request_composited_render(T0 + i * 100) {
            rendered_now += 1;
        }
    }
    assert_eq!(rendered_now, 0);
    assert!(
        cadence.pending_full_render,
        "50 fleet updates inside one frame budget coalesce to ONE deferred render, not 50 rebuilds"
    );
    assert!(cadence.request_composited_render(T0 + CLIENT_60FPS_FRAME_BUDGET));
}

#[test]
fn request_full_redraw_drops_cached_shell() {
    let mut cadence = RenderCadence::new(T0);
    assert!(cadence.ensure_shell_cache((80, 24), false));
    assert!(cadence.shell_cache.is_some());
    cadence.request_full_redraw();
    assert!(cadence.shell_cache.is_none(), "request_full_redraw must drop the cached shell");
}

#[test]
fn request_hover_redraw_keeps_shell_and_blit_baseline() {
    let mut cadence = RenderCadence::new(T0);
    cadence.ensure_shell_cache((80, 24), true);
    cadence.frame_flushed(T0);
    cadence.request_hover_redraw();
    assert!(cadence.shell_cache.is_some(), "hover redraw must keep the cached shell");
    assert!(cadence.blit_baseline, "hover redraw must preserve the blit diff baseline");
    assert!(cadence.pending_hover_render);
}

#[test]
fn request_full_redraw_resets_blit_baseline() {
    let mut cadence = RenderCadence::new(T0);
    cadence.frame_flushed(T0);
    assert!(cadence.blit_baseline);
    cadence.request_full_redraw();
    assert!(!cadence.blit_baseline, "request_full_redraw must reset the blit baseline");
}

#[test]
fn shell_cache_rebuilds_only_when_forced_or_resized() {
    let mut cadence = RenderCadence::new(T0);
    assert!(cadence.ensure_shell_cache((80, 24), false));
    assert!(!cadence.ensure_shell_cache((80, 24), false));
    assert!(cadence.ensure_shell_cache((80, 24), true));
    assert!(cadence.ensure_shell_cache((100, 24), false));
    cadence.request_hover_redraw();
    cadence.frame_flushed(T0 + SEC);
    assert!(!cadence.pending_hover_render);
    assert!(!cadence.pending_full_render);
    assert_eq!(cadence.last_composited_render_at, T0 + SEC);
}

#[test]
fn frame_stats_flag_frames_over_the_sixty_fps_budget() {
    assert!(!missed_sixty_fps_budget(16_667));
    assert!(missed_sixty_fps_budget(25_000));
    assert!(!missed_sixty_fps_budget(0));
}

#[test]
fn frame_window_closes_after_one_second() {
    let mut window = FrameWindow::new();
    assert_eq!(window.accumulate_window(T0, 10 * MS, 4 * MS, true), None);
    assert_eq!(window.accumulate_window(T0 + 500 * MS, 12 * MS, 5 * MS, false), None);
    assert_eq!(
        window.accumulate_window(T0 + SEC, 8 * MS, 3 * MS, true),
        Some(FrameWindowSummary { frames: 3, elapsed: SEC, total: 30 * MS, compose: 12 * MS, rebuilds: 2 })
    );
    assert_eq!(window.frames, 0);
    assert_eq!(window.started_at, Some(T0 + SEC));
}

#[test]
fn prune_and_seed_working_since_inserts_then_removes() {

    let remote_id = ServerId::secondary("remote-x");
    let groups = |status: &str| {
        vec![AgentGroup {
            server_id: remote_id.clone(),
            agents: vec![AgentRow { agent_id: "remote-agent".into(), status: status.into(), focused: false }],
        }]
    };
    let mut timers = WorkingSince::new();

    let t0 = T0;
    prune_and_seed_working_since(&mut timers, &groups("working"), t0);
    assert_eq!(timers.working_since_len(), 1);
    assert_eq!(timers.working_since_at(&remote_id, "remote-agent"), Some(t0));

    let t1 = t0 + 5 * SEC;
    prune_and_seed_working_since(&mut timers, &groups("working"), t1);
    assert_eq!(timers.working_since_len(), 1);
    assert_eq!(
        timers.working_since_at(&remote_id, "remote-agent"),
        Some(t0),
        "an already-working key must not be re-seeded to a later instant"
    );

    prune_and_seed_working_since(&mut timers, &groups("idle"), t1);
    assert_eq!(timers.working_since_len(), 0);
    assert_eq!(timers.working_since_at(&remote_id, "remote-agent"), None);
}

#[test]
fn working_timers_hold_each_agent_once() {

    let working = |id: &str| AgentRow { agent_id: id.into(), status: "working".into(), focused: false };
    let groups = vec![
        AgentGroup { server_id: ServerId::main(), agents: vec![working("a"), working("a"), working("b")] },
        AgentGroup { server_id: ServerId::secondary("r"), agents: vec![working("a")] },
    ];
    let mut timers = WorkingSince::new();
    prune_and_seed_working_since(&mut timers, &groups, T0);
    assert_eq!(timers.working_since_len(), 3);
    assert_eq!(timers.working_since_at(&ServerId::secondary("r"), "a"), Some(T0));
    assert_eq!(timers.working_since_at(&ServerId::main(), "c"), None);
}

#[test]
fn housekeeping_renders_what_was_deferred() {
    let mut cadence = RenderCadence::new(T0);
    assert_eq!(cadence.take_timer_render(false), TimerRender::Nothing);
    cadence.request_hover_redraw();
    assert_eq!(cadence.take_timer_render(false), TimerRender::Hover);
    assert!(!cadence.pending_hover_render);
    cadence.request_hover_redraw();
    cadence.pending_full_render = true;
    assert_eq!(cadence.take_timer_render(false), TimerRender::Full);
    assert!(!cadence.pending_hover_render && !cadence.pending_full_render);
    cadence.ensure_shell_cache((80, 24), false);
    assert_eq!(cadence.take_timer_render(true), TimerRender::Full);
    assert!(cadence.shell_cache.is_none());
}
