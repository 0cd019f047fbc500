use herdr_client::connections::{
    ClientConnections, FrameRoute, ManageFollowUp, SecondaryAttemptOutcome, SecondaryRetryState,
    connection_state_from_client_error,
};
use herdr_client::errors::{ClientError, ErrorContext, IoErrorKind, IoFailure, RestartConfirmNeeded};
use herdr_client::protocol::{PROTOCOL_VERSION, RemoteManageAction, ServerId};
use herdr_client::schedule::{CLIENT_SUPERVISOR_REFRESH_INTERVAL, secondary_retry_delay};
use herdr_client::supervisor::{
    ClientSupervisorModel, ConnectionState, HostUpdateOutcome, NewSessionForm, RemoteManageOverlay, SecondaryServer,
};
use herdr_client::supervisor::{active_server_of, connect_secondary_client_streams};
use herdr_client::render::{RenderCadence, TimerRender};
use herdr_client::tracking::IdSet;

const MS: u64 = 1_000;
const SEC: u64 = 1_000_000;
const NOW: u64 = 5_000 * SEC;

fn secondary(id: &str, state: ConnectionState, disabled: bool) -> SecondaryServer {
    SecondaryServer {
        server_id: ServerId::secondary(id),
        name: id.to_string(),
        disabled,
        connection_state: state,
        update_progress: None,
        update_outcome: None,
    }
}

fn model_with(secondaries: Vec<SecondaryServer>) -> ClientSupervisorModel {
    let mut model = ClientSupervisorModel::new("local");
    model.secondaries = secondaries;
    model
}

fn mixed_remote_model() -> (ClientSupervisorModel, ServerId) {
    (model_with(vec![secondary("remote-x", ConnectionState::Connected, false)]), ServerId::secondary("remote-x"))
}

fn context() -> ErrorContext {
    ErrorContext {
        socket_path: "/tmp/herdr-client.sock".to_string(),
        reattach_command: None,
        local_attach_command: "herdr".to_string(),
    }
}

fn banner(model: &Option<ClientSupervisorModel>, id: &ServerId) -> SecondaryServer {
    model.as_ref().unwrap().secondary(id).unwrap().clone()
}

#[test]
fn update_remote_finished_clears_progress_and_reconnects() {
    let (model, remote_id) = mixed_remote_model();
    let mut model = Some(model);
    let mut book = ClientConnections::new();
    model.as_mut().unwrap().set_update_progress(&remote_id, Some("installing herdr on the remote…".into()));
    book.manually_disconnected.insert(remote_id.clone());
    book.pending_update_remote.insert(remote_id.clone());

    book.apply_update_remote_finished(&mut model, &remote_id, Ok(()), NOW);
    assert_eq!(banner(&model, &remote_id).update_progress, None, "Ok finish clears the host's update progress line");
    assert!(!book.manually_disconnected.contains(&remote_id));
    let retry = book.secondary_retries.get(&remote_id).expect("Ok finish schedules a reconnect");
    assert_eq!(retry.attempt, 0);
    assert!(retry.next_retry_at <= NOW + secondary_retry_delay(0));
    let outcome = banner(&model, &remote_id).update_outcome.expect("Ok finish shows a success outcome");
    assert!(outcome.success);
    assert_eq!(outcome.message, "✓ update complete");
    assert!(book.update_outcome_expiry.contains_key(&remote_id));
    assert!(!book.auto_update_suppressed.contains(&remote_id));
    assert_eq!(banner(&model, &remote_id).connection_state, ConnectionState::Connecting);

    let (model2, remote2) = mixed_remote_model();
    let mut model2 = Some(model2);
    let mut book2 = ClientConnections::new();
    model2.as_mut().unwrap().set_update_progress(&remote2, Some("starting update…".into()));
    book2.apply_update_remote_finished(
        &mut model2,
        &remote2,
        Err("this herdr build has no binary for linux-aarch64; build/seed it instead of downloading".to_string()),
        NOW,
    );
    let outcome = banner(&model2, &remote2).update_outcome.expect("Err finish shows a failure outcome");
    assert!(!outcome.success);
    assert!(outcome.message.contains("no binary"), "{}", outcome.message);
    assert!(outcome.message.starts_with("✗ update failed: "));
    assert_eq!(banner(&model2, &remote2).update_progress, None);
    assert!(book2.update_outcome_expiry.contains_key(&remote2));
    assert_eq!(book2.update_outcome_expiry.get(&remote2), Some(NOW + 12 * SEC));
    assert!(book2.auto_update_suppressed.contains(&remote2));
    assert!(!book2.secondary_retries.contains_key(&remote2));
}

#[test]
fn expire_host_update_outcomes_clears_only_elapsed_lines() {
    let (model, remote_id) = mixed_remote_model();
    let mut model = Some(model);
    let mut book = ClientConnections::new();
    model.as_mut().unwrap().set_update_outcome(
        &remote_id,
        HostUpdateOutcome { message: "✓ update complete".into(), success: true },
    );
    book.update_outcome_expiry.insert(remote_id.clone(), NOW + 5 * SEC);
    assert!(!book.expire_host_update_outcomes(&mut model, NOW));
    assert!(banner(&model, &remote_id).update_outcome.is_some());

    book.update_outcome_expiry.insert(remote_id.clone(), NOW - SEC);
    assert!(book.expire_host_update_outcomes(&mut model, NOW));
    assert!(!book.update_outcome_expiry.contains_key(&remote_id));
    assert!(banner(&model, &remote_id).update_outcome.is_none());
    assert!(!book.expire_host_update_outcomes(&mut model, NOW));
}

#[test]
fn secondary_write_failure_disconnects_server_without_failing_client() {
    let (mut model, remote_id) = mixed_remote_model();
    model.active_server_id = remote_id.clone();
    let mut model = Some(model);
    let mut book = ClientConnections::new();
    book.frame_cache.insert(remote_id.clone());
    book.summary_subscriptions.insert(remote_id.clone());
    book.server_writes.insert(remote_id.clone());

    let result = book.handle_server_write_failure(
        &mut model,
        remote_id.clone(),
        IoFailure::new(IoErrorKind::BrokenPipe, "secondary closed"),
        NOW,
    );
    assert!(result.is_ok());
    assert!(book.frame_cache.contains(&remote_id));
    assert!(!book.summary_subscriptions.contains(&remote_id));
    assert!(!book.server_writes.contains(&remote_id));
    assert_eq!(model.as_ref().unwrap().active_server_id(), &ServerId::main());
    assert_eq!(banner(&model, &remote_id).connection_state, ConnectionState::Disconnected);
    assert_eq!(
        book.secondary_retries.get(&remote_id).map(|retry| retry.next_retry_at),
        Some(NOW + secondary_retry_delay(0))
    );
    assert!(book.full_redraw_requested);
}

#[test]
fn main_write_failure_still_fails_client() {
    let mut model = Some(ClientSupervisorModel::new("local"));
    let mut book = ClientConnections::new();
    let result = book.handle_server_write_failure(
        &mut model,
        ServerId::main(),
        IoFailure::new(IoErrorKind::BrokenPipe, "main closed"),
        NOW,
    );
    assert!(matches!(result, Err(ClientError::ConnectionLost(_))));
    assert!(book.secondary_retries.is_empty());
}

#[test]
fn schedule_missing_secondary_stream_retries_includes_new_connecting_servers() {
    let model = Some(model_with(vec![secondary("remote-x", ConnectionState::Connecting, false)]));
    let remote_id = ServerId::secondary("remote-x");
    let mut book = ClientConnections::new();
    book.schedule_missing_secondary_stream_retries(&model, NOW);
    assert_eq!(book.secondary_retries.get(&remote_id).map(|retry| retry.next_retry_at), Some(NOW));
}

#[test]
fn schedule_missing_secondary_stream_retries_includes_connected_server_without_stream() {
    let (model, remote_id) = mixed_remote_model();
    let model = Some(model);
    let mut book = ClientConnections::new();
    book.schedule_missing_secondary_stream_retries(&model, NOW);
    assert_eq!(book.secondary_retries.get(&remote_id).map(|retry| retry.next_retry_at), Some(NOW));

    let mut streaming = ClientConnections::new();
    streaming.server_writes.insert(remote_id.clone());
    streaming.schedule_missing_secondary_stream_retries(&model, NOW);
    assert!(!streaming.secondary_retries.contains_key(&remote_id));
}

#[test]
fn schedule_missing_keeps_an_existing_backoff() {
    let (model, remote_id) = mixed_remote_model();
    let model = Some(model);
    let mut book = ClientConnections::new();
    book.schedule_secondary_retry(remote_id.clone(), 3, NOW);
    book.schedule_missing_secondary_stream_retries(&model, NOW + SEC);
    assert_eq!(
        book.secondary_retries.get(&remote_id),
        Some(SecondaryRetryState { attempt: 3, next_retry_at: NOW + 15 * SEC })
    );
}

#[test]
fn disabled_server_retry_entry_dropped_before_reconnect() {
    let mut model = Some(model_with(vec![secondary("r1", ConnectionState::Disconnected, true)]));
    let server_id = ServerId::secondary("r1");
    let mut book = ClientConnections::new();
    book.secondary_retries.insert(server_id.clone(), SecondaryRetryState { attempt: 0, next_retry_at: NOW });
    let launches = book.retry_due_secondary_connections(&mut model, NOW);
    assert!(!book.secondary_retries.contains_key(&server_id));
    assert!(!book.pending_connect.contains(&server_id));
    assert!(launches.is_empty());
}

#[test]
fn provision_failed_host_retry_entry_dropped_until_explicit_retry() {
    let mut model = Some(model_with(vec![secondary("r1", ConnectionState::Connecting, false)]));
    let server_id = ServerId::secondary("r1");
    let mut book = ClientConnections::new();
    book.provision_failed.insert(server_id.clone());
    book.secondary_retries.insert(server_id.clone(), SecondaryRetryState { attempt: 0, next_retry_at: NOW });
    let launches = book.retry_due_secondary_connections(&mut model, NOW);
    assert!(!book.secondary_retries.contains_key(&server_id));
    assert!(!book.pending_connect.contains(&server_id));
    assert!(launches.is_empty());

    book.schedule_missing_secondary_stream_retries(&model, NOW);
    assert!(
        !book.secondary_retries.contains_key(&server_id),
        "provision-failed host must not be re-enqueued by the background sweep"
    );
}

#[test]
fn retry_sweep_launches_due_hosts_once() {
    let mut model = Some(model_with(vec![
        secondary("due", ConnectionState::Disconnected, false),
        secondary("later", ConnectionState::Disconnected, false),
        secondary("live", ConnectionState::Connected, false),
    ]));
    let due = ServerId::secondary("due");
    let later = ServerId::secondary("later");
    let live = ServerId::secondary("live");
    let mut book = ClientConnections::new();
    book.secondary_retries.insert(due.clone(), SecondaryRetryState { attempt: 2, next_retry_at: NOW - MS });
    book.secondary_retries.insert(later.clone(), SecondaryRetryState { attempt: 0, next_retry_at: NOW + SEC });
    book.secondary_retries.insert(live.clone(), SecondaryRetryState { attempt: 0, next_retry_at: NOW });
    book.server_writes.insert(live.clone());
    book.retry_restart_incompatible.insert(due.clone());
    book.update_outcome_expiry.insert(due.clone(), NOW + SEC);

    let launches = book.retry_due_secondary_connections(&mut model, NOW);
    assert_eq!(launches.len(), 1);
    assert_eq!(launches[0].server_id, due);
    assert_eq!(launches[0].attempt, 2);
    assert!(launches[0].restart_incompatible);
    assert!(book.pending_connect.contains(&due));
    assert!(!book.retry_restart_incompatible.contains(&due));
    assert!(!book.update_outcome_expiry.contains_key(&due));
    assert!(book.secondary_retries.contains_key(&due));
    assert!(book.secondary_retries.contains_key(&later));
    assert!(!book.secondary_retries.contains_key(&live));
    assert_eq!(banner(&model, &due).connection_state, ConnectionState::Connecting);
    assert!(book.full_redraw_requested);

    let again = book.retry_due_secondary_connections(&mut model, NOW);
    assert!(again.is_empty(), "an attempt in flight is never started twice");
}

#[test]
fn re_enable_yields_connecting() {
    let mut model = Some(model_with(vec![secondary("r1", ConnectionState::Disconnected, true)]));
    let server_id = ServerId::secondary("r1");
    let mut book = ClientConnections::new();
    let follow_up = book.apply_remote_manage_request_finished(
        &mut model,
        RemoteManageAction::SetEnabled { enabled: true },
        "r1",
        Ok(()),
        NOW,
    );
    assert_eq!(banner(&model, &server_id).connection_state, ConnectionState::Connecting);
    assert_eq!(follow_up, ManageFollowUp { refresh_summaries: true, auto_update_sweep: false });
}

#[test]
fn disable_while_connected_tears_down() {
    let mut model = Some(model_with(vec![secondary("r1", ConnectionState::Connected, false)]));
    let server_id = ServerId::secondary("r1");
    let mut book = ClientConnections::new();
    book.summary_subscriptions.insert(server_id.clone());
    book.pending_summary_refresh.insert(server_id.clone());
    book.pending_connect.insert(server_id.clone());
    book.ssh_bridges.insert(server_id.clone());
    book.apply_remote_manage_request_finished(
        &mut model,
        RemoteManageAction::SetEnabled { enabled: false },
        "r1",
        Ok(()),
        NOW,
    );
    assert!(!book.summary_subscriptions.contains(&server_id));
    assert!(!book.pending_summary_refresh.contains(&server_id));
    assert!(!book.pending_connect.contains(&server_id));
    assert!(!book.ssh_bridges.contains(&server_id));
    assert_eq!(banner(&model, &server_id).connection_state, ConnectionState::Disconnected);
}

#[test]
fn delete_removes_secondary_and_clears_overlay() {
    let mut inner = model_with(vec![secondary("r1", ConnectionState::Connected, false)]);
    inner.remote_manage = Some(RemoteManageOverlay { confirm_delete: Some("r1".into()), pending: Some("r1".into()) });
    let mut model = Some(inner);
    let server_id = ServerId::secondary("r1");
    let mut book = ClientConnections::new();
    book.apply_remote_manage_request_finished(&mut model, RemoteManageAction::Delete, "r1", Ok(()), NOW);
    let model = model.unwrap();
    assert!(model.secondary(&server_id).is_none(), "secondary removed from model");
    let overlay = model.remote_manage.unwrap();
    assert!(overlay.confirm_delete.is_none());
    assert!(overlay.pending.is_none());
}

#[test]
fn set_remote_session_rebuilds_the_bridge_instead_of_parking_the_host() {
    let (model, remote_id) = mixed_remote_model();
    let mut model = Some(model);
    model.as_mut().unwrap().new_session = Some(NewSessionForm { remote_id: "remote-x".into(), error: None });
    let mut book = ClientConnections::new();
    book.manually_disconnected.insert(remote_id.clone());
    book.apply_remote_manage_request_finished(
        &mut model,
        RemoteManageAction::SetSession { session: Some("work".into()) },
        "remote-x",
        Ok(()),
        NOW,
    );
    assert!(!book.manually_disconnected.contains(&remote_id), "a session switch must not park the host down");
    assert!(book.secondary_retries.contains_key(&remote_id));
    assert_eq!(banner(&model, &remote_id).connection_state, ConnectionState::Connecting);
    assert!(model.as_ref().unwrap().new_session.is_none());
}

#[test]
fn failed_set_session_surfaces_a_message_and_keeps_the_pinned_session() {
    let (model, remote_id) = mixed_remote_model();
    let mut model = Some(model);
    model.as_mut().unwrap().new_session = Some(NewSessionForm { remote_id: "remote-x".into(), error: None });
    let mut book = ClientConnections::new();
    let follow_up = book.apply_remote_manage_request_finished(
        &mut model,
        RemoteManageAction::SetSession { session: Some("work".into()) },
        "remote-x",
        Err("remote target already exists".to_string()),
        NOW,
    );
    let outcome = banner(&model, &remote_id).update_outcome.expect("a rejected session switch is surfaced");
    assert!(!outcome.success);
    assert!(
        outcome.message.contains("session switch") && outcome.message.contains("remote target already exists"),
        "the banner carries the server's reason: {}",
        outcome.message
    );
    assert_eq!(outcome.message, "✗ session switch failed: remote target already exists");
    assert!(!book.secondary_retries.contains_key(&remote_id));
    assert_eq!(
        model.as_ref().unwrap().new_session,
        Some(NewSessionForm { remote_id: "remote-x".into(), error: Some("remote target already exists".into()) })
    );
    assert_eq!(follow_up, ManageFollowUp { refresh_summaries: false, auto_update_sweep: false });
    assert_eq!(book.update_outcome_expiry.get(&remote_id), Some(NOW + 6 * SEC));
}

#[test]
fn auto_update_toggle_lifts_suppression_and_asks_for_the_sweep() {
    let (model, remote_id) = mixed_remote_model();
    let mut model = Some(model);
    let mut book = ClientConnections::new();
    book.auto_update_suppressed.insert(remote_id.clone());
    let follow_up = book.apply_remote_manage_request_finished(
        &mut model,
        RemoteManageAction::SetAutoUpdate { auto_update: true },
        "remote-x",
        Ok(()),
        NOW,
    );
    assert!(!book.auto_update_suppressed.contains(&remote_id));
    assert_eq!(follow_up, ManageFollowUp { refresh_summaries: true, auto_update_sweep: true });
}

#[test]
fn due_secondary_summary_refreshes_uses_fast_cadence_for_active() {
    let mut inner = model_with(vec![
        secondary("active", ConnectionState::Connected, false),
        secondary("bg", ConnectionState::Connected, false),
    ]);
    let active = ServerId::secondary("active");
    let background = ServerId::secondary("bg");
    inner.active_server_id = active.clone();
    let model = Some(inner);
    let mut book = ClientConnections::new();
    let stale = NOW - 500 * MS;
    book.last_summary_refresh.insert(active.clone(), stale);
    book.last_summary_refresh.insert(background.clone(), stale);
    let due = book.due_secondary_summary_refreshes(&model, NOW);
    assert!(due.contains(&active));
    assert!(!due.contains(&background));
}

#[test]
fn due_secondary_summary_refreshes_returns_background_after_slow_interval() {
    let mut inner = model_with(vec![
        secondary("active", ConnectionState::Connected, false),
        secondary("bg", ConnectionState::Connected, false),
    ]);
    let active = ServerId::secondary("active");
    let background = ServerId::secondary("bg");
    inner.active_server_id = active.clone();
    let model = Some(inner);
    let mut book = ClientConnections::new();
    book.last_summary_refresh.insert(active.clone(), NOW - 10 * MS);
    book.last_summary_refresh.insert(background.clone(), NOW - CLIENT_SUPERVISOR_REFRESH_INTERVAL - MS);
    let due = book.due_secondary_summary_refreshes(&model, NOW);
    assert!(due.contains(&background));
    assert!(!due.contains(&active));
    assert!(!due.contains(&ServerId::main()));
}

#[test]
fn never_refreshed_connected_secondaries_are_due() {
    let model = Some(model_with(vec![
        secondary("new", ConnectionState::Connected, false),
        secondary("down", ConnectionState::Disconnected, false),
    ]));
    let book = ClientConnections::new();
    assert_eq!(book.due_secondary_summary_refreshes(&model, NOW), vec![ServerId::secondary("new")]);
    assert!(book.due_secondary_summary_refreshes(&None, NOW).is_empty());
}

#[test]
fn single_secondary_summary_refresh_dedupes_pending() {
    let (_model, remote_id) = mixed_remote_model();
    let mut book = ClientConnections::new();
    book.pending_summary_refresh.insert(remote_id.clone());
    assert!(!book.begin_single_summary_refresh(&remote_id, true));
    assert!(book.pending_summary_refresh.contains(&remote_id));
}

#[test]
fn single_secondary_summary_refresh_skips_main_id() {
    let mut book = ClientConnections::new();
    assert!(!book.begin_single_summary_refresh(&ServerId::main(), true));
    assert!(book.pending_summary_refresh.is_empty());
}

#[test]
fn single_secondary_summary_refresh_targets_one_server() {
    let id_a = ServerId::secondary("a");
    let id_b = ServerId::secondary("b");
    let mut book = ClientConnections::new();
    assert!(book.begin_single_summary_refresh(&id_b, true));
    assert!(book.pending_summary_refresh.contains(&id_b));
    assert!(!book.pending_summary_refresh.contains(&id_a));
    assert!(!book.begin_single_summary_refresh(&id_a, false));
    assert!(!book.pending_summary_refresh.contains(&id_a));
}

#[test]
fn auto_update_sweep_skips_pending_and_outcome_guarded_hosts() {
    let remote = ServerId::secondary("remote-au");
    let candidates = vec![remote.clone()];
    let mut book = ClientConnections::new();
    assert_eq!(book.auto_update_targets(&candidates), vec![remote.clone()]);

    book.pending_update_remote.insert(remote.clone());
    assert!(book.auto_update_targets(&candidates).is_empty(), "a host already updating is not re-spawned");
    book.pending_update_remote.remove(&remote);

    book.update_outcome_expiry.insert(remote.clone(), NOW + 5 * SEC);
    assert!(book.auto_update_targets(&candidates).is_empty(), "an outcome-guarded host is not re-updated");
    book.update_outcome_expiry.remove(&remote);

    book.auto_update_suppressed.insert(remote.clone());
    assert!(book.auto_update_targets(&candidates).is_empty(), "a failure-suppressed host is not auto-retried");
}

#[test]
fn remote_update_starts_once_and_only_for_ssh_hosts() {
    let (model, remote_id) = mixed_remote_model();
    let mut model = Some(model);
    let mut book = ClientConnections::new();
    book.update_outcome_expiry.insert(remote_id.clone(), NOW);
    assert!(book.begin_remote_update(&mut model, &remote_id, true));
    assert_eq!(banner(&model, &remote_id).update_progress.as_deref(), Some("starting update…"));
    assert!(!book.update_outcome_expiry.contains_key(&remote_id));
    assert!(!book.begin_remote_update(&mut model, &remote_id, true), "a second click does not spawn twice");

    let (model2, remote2) = mixed_remote_model();
    let mut model2 = Some(model2);
    let mut book2 = ClientConnections::new();
    assert!(!book2.begin_remote_update(&mut model2, &remote2, false));
    assert_eq!(
        banner(&model2, &remote2).update_progress.as_deref(),
        Some("update is only available for ssh remotes")
    );
    assert!(!book2.pending_update_remote.contains(&remote2));
}

#[test]
fn attached_stream_clears_retry_state_and_connects() {
    let mut model = Some(model_with(vec![secondary("r1", ConnectionState::Connecting, false)]));
    let id = ServerId::secondary("r1");
    let mut book = ClientConnections::new();
    book.pending_connect.insert(id.clone());
    book.secondary_retries.insert(id.clone(), SecondaryRetryState { attempt: 2, next_retry_at: NOW });
    book.provision_failed.insert(id.clone());
    let refresh = book.apply_secondary_attempt_finished(
        &mut model,
        &id,
        2,
        SecondaryAttemptOutcome::Attached { bridge: true },
        &context(),
        NOW,
    );
    assert!(refresh);
    assert!(book.server_writes.contains(&id));
    assert!(book.ssh_bridges.contains(&id));
    assert!(!book.pending_connect.contains(&id));
    assert!(!book.secondary_retries.contains_key(&id));
    assert!(!book.provision_failed.contains(&id));
    assert_eq!(book.last_summary_refresh.get(&id), Some(NOW));
    assert_eq!(banner(&model, &id).connection_state, ConnectionState::Connected);
}

#[test]
fn transient_attempt_failure_retries_with_a_visible_line() {
    let mut model = Some(model_with(vec![secondary("r1", ConnectionState::Connecting, false)]));
    let id = ServerId::secondary("r1");
    let mut book = ClientConnections::new();
    book.ssh_bridges.insert(id.clone());
    let refresh = book.apply_secondary_attempt_finished(
        &mut model,
        &id,
        0,
        SecondaryAttemptOutcome::Failed(ClientError::ConnectionFailed(IoFailure::other(
            "ssh: connect to host x port 22: Connection refused",
        ))),
        &context(),
        NOW,
    );
    assert!(!refresh);
    assert_eq!(
        book.secondary_retries.get(&id),
        Some(SecondaryRetryState { attempt: 1, next_retry_at: NOW + 2 * SEC })
    );
    assert!(!book.ssh_bridges.contains(&id));
    let host = banner(&model, &id);
    assert_eq!(host.connection_state, ConnectionState::Disconnected);
    assert_eq!(
        host.update_progress.as_deref(),
        Some("✗ cannot reach host over ssh — check the address — retrying in 2s")
    );
}

#[test]
fn terminal_attempt_failure_stops_and_asks_for_restart_approval() {
    let mut model = Some(model_with(vec![secondary("r1", ConnectionState::Connecting, false)]));
    let id = ServerId::secondary("r1");
    let mut book = ClientConnections::new();
    book.secondary_retries.insert(id.clone(), SecondaryRetryState { attempt: 1, next_retry_at: NOW });
    let signal = RestartConfirmNeeded { destination: "mini".into(), version: None, protocol: Some(6) };
    book.apply_secondary_attempt_finished(
        &mut model,
        &id,
        1,
        SecondaryAttemptOutcome::Failed(ClientError::ConnectionFailed(IoFailure {
            kind: IoErrorKind::Other,
            message: "remote server must restart".into(),
            restart_confirm: Some(signal),
        })),
        &context(),
        NOW,
    );
    assert!(!book.secondary_retries.contains_key(&id));
    assert!(book.provision_failed.contains(&id));
    assert!(book.retry_restart_incompatible.contains(&id));
    let outcome = banner(&model, &id).update_outcome.unwrap();
    assert!(!outcome.success);
    assert!(outcome.message.ends_with("\n  retry restarts the remote server (live panes interrupted)"));

    let mut model2 = Some(model_with(vec![secondary("r2", ConnectionState::Connecting, false)]));
    let id2 = ServerId::secondary("r2");
    let mut book2 = ClientConnections::new();
    book2.apply_secondary_attempt_finished(
        &mut model2,
        &id2,
        0,
        SecondaryAttemptOutcome::Failed(ClientError::ConnectionFailed(IoFailure::other(
            "Permission denied (publickey).",
        ))),
        &context(),
        NOW,
    );
    assert!(book2.provision_failed.contains(&id2));
    assert!(!book2.retry_restart_incompatible.contains(&id2));
    assert_eq!(
        banner(&model2, &id2).update_outcome.unwrap().message,
        "✗ ssh authentication failed — set up key access to this host\n  fix the cause, then retry from the host menu or its status glyph"
    );
}

#[test]
fn rejected_handshake_marks_a_protocol_mismatch_and_stops_retrying() {
    let mut model = Some(model_with(vec![secondary("r1", ConnectionState::Connecting, false)]));
    let id = ServerId::secondary("r1");
    let mut book = ClientConnections::new();
    book.secondary_retries.insert(id.clone(), SecondaryRetryState { attempt: 0, next_retry_at: NOW });
    let err = ClientError::HandshakeRejected { version: 3, error: "too old".into() };
    assert_eq!(
        connection_state_from_client_error(&err),
        ConnectionState::ProtocolMismatch { server_protocol: Some(3), client_protocol: PROTOCOL_VERSION }
    );
    book.apply_secondary_attempt_finished(&mut model, &id, 0, SecondaryAttemptOutcome::Failed(err), &context(), NOW);
    assert!(!book.secondary_retries.contains_key(&id));
    assert!(!book.provision_failed.contains(&id));
    assert_eq!(
        banner(&model, &id).connection_state,
        ConnectionState::ProtocolMismatch { server_protocol: Some(3), client_protocol: PROTOCOL_VERSION }
    );
}

#[test]
fn failed_attach_retries_at_the_next_attempt() {
    let mut model = Some(model_with(vec![secondary("r1", ConnectionState::Connecting, false)]));
    let id = ServerId::secondary("r1");
    let mut book = ClientConnections::new();
    book.apply_secondary_attempt_finished(
        &mut model,
        &id,
        usize::MAX,
        SecondaryAttemptOutcome::AttachFailed {
            bridge: false,
            error: ClientError::ConnectionLost(IoFailure::other("reader gone")),
        },
        &context(),
        NOW,
    );
    assert_eq!(
        book.secondary_retries.get(&id),
        Some(SecondaryRetryState { attempt: usize::MAX, next_retry_at: NOW + 15 * SEC })
    );
    assert_eq!(banner(&model, &id).connection_state, ConnectionState::Disconnected);
}

#[test]
fn teardown_forgets_every_connection_trace() {
    let id = ServerId::secondary("r1");
    let mut book = ClientConnections::new();
    book.server_writes.insert(id.clone());
    book.frame_cache.insert(id.clone());
    book.pending_pings.insert(id.clone());
    book.schedule_secondary_retry(id.clone(), 0, NOW);
    book.manually_disconnected.insert(id.clone());
    book.teardown_secondary_connection(&id);
    assert!(!book.server_writes.contains(&id));
    assert!(!book.frame_cache.contains(&id));
    assert!(!book.pending_pings.contains(&id));
    assert!(!book.secondary_retries.contains_key(&id));
    assert!(book.manually_disconnected.contains(&id), "teardown leaves the manual mark to its caller");
}

#[test]
fn summary_subscriptions_start_once_per_server() {
    let a = ServerId::secondary("a");
    let mut book = ClientConnections::new();
    book.summary_subscriptions.insert(ServerId::main());
    let started = book.start_missing_summary_subscriptions(&vec![ServerId::main(), a.clone(), a.clone()]);
    assert_eq!(started, vec![a.clone()]);
    assert!(book.summary_subscriptions.contains(&a));
    assert!(book.start_missing_summary_subscriptions(&vec![a]).is_empty());
}

#[test]
fn background_work_is_claimed_once() {
    let mut book = ClientConnections::new();
    assert!(book.begin_main_supervisor_refresh());
    assert!(!book.begin_main_supervisor_refresh());
    assert!(book.begin_add_remote_submission());
    assert!(!book.begin_add_remote_submission());
}

#[test]
fn startup_marks_every_enabled_secondary_connecting() {
    let mut model = model_with(vec![
        secondary("a", ConnectionState::Disconnected, false),
        secondary("b", ConnectionState::Disconnected, true),
    ]);
    connect_secondary_client_streams(&mut model);
    assert_eq!(model.secondary(&ServerId::secondary("a")).unwrap().connection_state, ConnectionState::Connecting);
    assert_eq!(model.secondary(&ServerId::secondary("b")).unwrap().connection_state, ConnectionState::Disconnected);
    assert_eq!(active_server_of(&None), ServerId::main());
    model.active_server_id = ServerId::secondary("a");
    assert_eq!(active_server_of(&Some(model)), ServerId::secondary("a"));
}

#[test]
fn host_menu_disconnect_parks_the_host_until_reconnect() {
    let (model, remote_id) = mixed_remote_model();
    let mut model = Some(model);
    let mut book = ClientConnections::new();
    book.server_writes.insert(remote_id.clone());
    book.frame_cache.insert(remote_id.clone());
    book.disconnect_remote(&mut model, &remote_id);
    assert!(book.manually_disconnected.contains(&remote_id));
    assert!(!book.server_writes.contains(&remote_id));
    assert!(!book.frame_cache.contains(&remote_id));
    assert_eq!(banner(&model, &remote_id).connection_state, ConnectionState::Disconnected);

    book.schedule_missing_secondary_stream_retries(&model, NOW);
    assert!(!book.secondary_retries.contains_key(&remote_id), "a parked host is not re-enqueued");

    book.provision_failed.insert(remote_id.clone());
    book.reconnect_remote(&mut model, &remote_id, NOW);
    assert!(!book.manually_disconnected.contains(&remote_id));
    assert!(!book.provision_failed.contains(&remote_id));
    assert_eq!(
        book.secondary_retries.get(&remote_id),
        Some(SecondaryRetryState { attempt: 0, next_retry_at: NOW + SEC })
    );
    assert_eq!(banner(&model, &remote_id).connection_state, ConnectionState::Connecting);
    let launches = book.retry_due_secondary_connections(&mut model, NOW + SEC);
    assert_eq!(launches.len(), 1);
}

#[test]
fn stream_end_of_a_secondary_keeps_its_frame_and_retries() {
    let (model, remote_id) = mixed_remote_model();
    let mut model = Some(model);
    let mut book = ClientConnections::new();
    book.frame_cache.insert(remote_id.clone());
    book.server_writes.insert(remote_id.clone());
    assert!(book.server_disconnected(&mut model, remote_id.clone(), NOW).is_ok());
    assert!(book.frame_cache.contains(&remote_id));
    assert!(!book.server_writes.contains(&remote_id));
    assert!(book.secondary_retries.contains_key(&remote_id));
    match book.server_disconnected(&mut model, ServerId::main(), NOW) {
        Err(ClientError::ConnectionLost(io)) => {
            assert_eq!(io.kind, IoErrorKind::UnexpectedEof);
            assert_eq!(io.message, "server closed connection");
        }
        other => panic!("expected lost connection, got {other:?}"),
    }
}

#[test]
fn finished_update_is_no_longer_in_flight() {
    let (model, remote_id) = mixed_remote_model();
    let mut model = Some(model);
    let mut book = ClientConnections::new();
    book.pending_update_remote.insert(remote_id.clone());
    assert!(book.update_remote_finished(&mut model, &remote_id, Ok(()), NOW));
    assert!(!book.pending_update_remote.contains(&remote_id));
    assert!(!book.update_remote_finished(&mut model, &remote_id, Err("boom".into()), NOW));
}

#[test]
fn housekeeping_tick_runs_every_sweep_in_order() {
    let a = ServerId::secondary("a");
    let b = ServerId::secondary("b");
    let c = ServerId::secondary("c");
    let mut inner = model_with(vec![
        secondary("a", ConnectionState::Disconnected, false),
        secondary("b", ConnectionState::Connected, false),
        secondary("c", ConnectionState::Connected, false),
    ]);
    inner.set_update_outcome(&c, HostUpdateOutcome { message: "✓ update complete".into(), success: true });
    let mut model = Some(inner);
    let mut book = ClientConnections::new();
    book.secondary_retries.insert(a.clone(), SecondaryRetryState { attempt: 1, next_retry_at: NOW - MS });
    book.update_outcome_expiry.insert(c.clone(), NOW - MS);
    book.server_writes.insert(b.clone());
    book.server_writes.insert(c.clone());
    book.last_summary_refresh.insert(b.clone(), NOW - 3 * SEC);
    book.last_summary_refresh.insert(c.clone(), NOW - MS);
    let mut cadence = RenderCadence::new(NOW - SEC);
    cadence.request_hover_redraw();
    let mut last_refresh = NOW - 3 * SEC;
    let mut reachable = IdSet::new();
    reachable.insert(b.clone());

    let actions = book.timer_housekeeping(
        &mut model,
        &mut cadence,
        &mut last_refresh,
        &reachable,
        &vec![ServerId::main(), b.clone()],
        NOW,
    );
    assert_eq!(actions.render, TimerRender::Full, "an expired outcome line forces a full repaint");
    assert!(banner(&model, &c).update_outcome.is_none());
    assert_eq!(actions.launches.len(), 1);
    assert_eq!(actions.launches[0].server_id, a);
    assert_eq!(actions.launches[0].attempt, 1);
    assert_eq!(actions.refreshes, vec![b.clone()]);
    assert_eq!(book.last_summary_refresh.get(&b), Some(NOW));
    assert!(actions.main_refresh);
    assert_eq!(last_refresh, NOW);
    assert_eq!(actions.subscriptions, vec![ServerId::main(), b.clone()]);
    assert!(actions.render_after_refresh);
    assert!(book.pending_connect.contains(&a));
    assert!(!cadence.pending_hover_render);

    let quiet = book.timer_housekeeping(&mut model, &mut cadence, &mut last_refresh, &reachable, &vec![], NOW + MS);
    assert_eq!(quiet.render, TimerRender::Nothing);
    assert!(quiet.launches.is_empty());
    assert!(quiet.refreshes.is_empty());
    assert!(!quiet.main_refresh);
    assert!(quiet.subscriptions.is_empty());
    assert!(!quiet.render_after_refresh);
}

#[test]
fn background_server_frame_is_cached_but_not_rendered() {
    let (model, remote_id) = mixed_remote_model();
    let model = Some(model);
    let mut book = ClientConnections::new();
    assert_eq!(book.route_incoming_frame(&model, true, &remote_id), FrameRoute::CacheOnly);
    assert!(book.frame_cache.contains(&remote_id), "background frame must still be cached for instant switch");
    assert_eq!(book.route_incoming_frame(&model, true, &ServerId::main()), FrameRoute::Compose);
    assert!(book.frame_cache.contains(&ServerId::main()));
    let mut plain = ClientConnections::new();
    assert_eq!(plain.route_incoming_frame(&None, false, &ServerId::main()), FrameRoute::Flush);
    assert!(!plain.frame_cache.contains(&ServerId::main()));
}
