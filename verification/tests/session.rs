use herdr_client::attach::{AttachEscapeState, AttachScrollDirection};
use herdr_client::client_loop::{ClientLoop, ClientLoopAction, ClientLoopEvent};
use herdr_client::connections::{ClientConnections, FrameRoute, ManageFollowUp, SecondaryAttemptOutcome};
use herdr_client::dispatch::{AddRemoteDraft, ClientInputDispatch};
use herdr_client::errors::{ClientError, ErrorContext, IoErrorKind, IoFailure, local_attach_command};
use herdr_client::launch::{
    ClientStartup, SessionExit, StartupAction, StartupEvent, StartupPhase, finish_session, run_client,
    run_terminal_attach,
};
use herdr_client::notify::{NotifyAction, NotifyKind, Sound};
use herdr_client::protocol::{
    ClientKeybindings, ClientLaunchMode, ClientMessage, ClientSurfaceMode, RemoteKeybindingsSnapshot, RemoteManageAction,
    RenderEncoding, ServerId,
};
use herdr_client::render::{RenderCadence, TimerRender};
use herdr_client::tracking::IdSet;
use herdr_client::supervisor::{ClientSupervisorModel, ConnectionState, SecondaryServer};

const NOW: u64 = 9_000_000_000;

fn context() -> ErrorContext {
    ErrorContext {
        socket_path: "/tmp/herdr-client.sock".to_string(),
        reattach_command: None,
        local_attach_command: local_attach_command(None),
    }
}

fn client_loop(composited: bool, attach: bool) -> ClientLoop {
    ClientLoop {
        connections: ClientConnections::new(),
        attach_escape: if attach { Some(AttachEscapeState::default()) } else { None },
        mouse_scroll_lines: 3,
        host_cols: 80,
        host_rows: 24,
        reported_cols: 80,
        reported_rows: 24,
        cell_width_px: 8,
        cell_height_px: 16,
        composited,
        sound_enabled: true,
        cadence: RenderCadence::new(NOW),
        last_supervisor_refresh: NOW,
        error_context: context(),
        ssh_remotes: IdSet::new(),
    }
}

fn model_with_remote() -> (Option<ClientSupervisorModel>, ServerId) {
    let mut model = ClientSupervisorModel::new("local");
    model.secondaries.push(SecondaryServer {
        server_id: ServerId::secondary("remote-x"),
        name: "x".into(),
        disabled: false,
        connection_state: ConnectionState::Connected,
        update_progress: None,
        update_outcome: None,
    });
    (Some(model), ServerId::secondary("remote-x"))
}

#[test]
fn main_server_shutdown_ends_the_session_with_its_reason() {
    let mut session = client_loop(true, false);
    let (mut model, _) = model_with_remote();
    let actions = session.client_loop_step(
        &mut model,
        ClientLoopEvent::ServerShutdown { server_id: ServerId::main(), reason: Some("maintenance".into()) },
        NOW,
    );
    assert_eq!(actions.len(), 1);
    match &actions[0] {
        ClientLoopAction::End(Err(ClientError::ServerShutdown { reason })) => assert_eq!(reason.as_deref(), Some("maintenance")),
        other => panic!("expected the session to end, got {other:?}"),
    }
}

#[test]
fn secondary_shutdown_disconnects_only_that_host() {
    let mut session = client_loop(true, false);
    let (mut model, remote) = model_with_remote();
    session.connections.server_writes.insert(remote.clone());
    session.connections.frame_cache.insert(remote.clone());
    let actions = session.client_loop_step(
        &mut model,
        ClientLoopEvent::ServerShutdown { server_id: remote.clone(), reason: None },
        NOW,
    );
    assert!(matches!(actions.as_slice(), [ClientLoopAction::RenderFull]));
    assert!(!session.connections.server_writes.contains(&remote));
    assert!(session.connections.frame_cache.contains(&remote));
    assert!(session.connections.secondary_retries.contains_key(&remote));
    assert_eq!(model.unwrap().secondary(&remote).unwrap().connection_state, ConnectionState::Disconnected);
}

#[test]
fn quit_sends_detach_to_every_server() {
    let mut session = client_loop(true, false);
    let mut model = None;
    let actions = session.client_loop_step(&mut model, ClientLoopEvent::Quit, NOW);
    assert!(matches!(
        actions.as_slice(),
        [ClientLoopAction::SendToAll(ClientMessage::Detach), ClientLoopAction::End(Ok(()))]
    ));
}

#[test]
fn resizes_fan_out_in_composited_mode() {
    let mut session = client_loop(true, false);
    let (mut model, _) = model_with_remote();
    let actions = session.client_loop_step(
        &mut model,
        ClientLoopEvent::Resize { cols: 120, rows: 40, cell_width_px: 9, cell_height_px: 18 },
        NOW,
    );
    match actions.as_slice() {
        [ClientLoopAction::SendToAll(ClientMessage::Resize { cols, rows, cell_width_px, cell_height_px })] => {
            assert_eq!((*cols, *rows, *cell_width_px, *cell_height_px), (94, 40, 9, 18));
        }
        other => panic!("expected a resize to every server, got {other:?}"),
    }
    assert_eq!((session.host_cols, session.host_rows), (120, 40));
    assert_eq!((session.reported_cols, session.reported_rows), (94, 40));

    let mut plain = client_loop(false, false);
    let mut none = None;
    let actions = plain.client_loop_step(
        &mut none,
        ClientLoopEvent::Resize { cols: 100, rows: 30, cell_width_px: 0, cell_height_px: 0 },
        NOW,
    );
    assert!(matches!(
        actions.as_slice(),
        [ClientLoopAction::Send { server_id: ServerId::Main, message: ClientMessage::Resize { cols: 100, rows: 30, .. } }]
    ));
}

#[test]
fn stdin_is_forwarded_or_composed() {
    let mut plain = client_loop(false, false);
    let mut none = None;
    let actions = plain.client_loop_step(&mut none, ClientLoopEvent::StdinInput(b"ls\r".to_vec()), NOW);
    match actions.as_slice() {
        [ClientLoopAction::Send { server_id, message: ClientMessage::Input { data } }] => {
            assert_eq!(server_id, &ServerId::main());
            assert_eq!(data, b"ls\r");
        }
        other => panic!("expected forwarded input, got {other:?}"),
    }
    let mut composed = client_loop(true, false);
    let (mut model, _) = model_with_remote();
    let actions = composed.client_loop_step(&mut model, ClientLoopEvent::StdinInput(b"x".to_vec()), NOW);
    assert!(matches!(actions.as_slice(), [ClientLoopAction::ComposeInput(d)] if d == b"x"));
}

#[test]
fn attach_prefix_then_q_detaches_and_returns_normally() {
    let mut session = client_loop(false, true);
    let mut none = None;
    let first = session.client_loop_step(&mut none, ClientLoopEvent::StdinInput(vec![0x02]), NOW);
    assert!(first.is_empty(), "the prefix alone forwards nothing");
    let second = session.client_loop_step(&mut none, ClientLoopEvent::StdinInput(vec![b'q']), NOW);
    assert!(matches!(
        second.as_slice(),
        [ClientLoopAction::Send { server_id: ServerId::Main, message: ClientMessage::Detach }, ClientLoopAction::End(Ok(()))]
    ));
    let mut one_read = client_loop(false, true);
    let actions = one_read.client_loop_step(&mut none, ClientLoopEvent::StdinInput(vec![0x02, b'q']), NOW);
    assert!(matches!(actions.as_slice(), [_, ClientLoopAction::End(Ok(()))]));
}

#[test]
fn attach_wheel_becomes_a_scroll_request() {
    let mut session = client_loop(false, true);
    let mut none = None;
    let actions = session.client_loop_step(&mut none, ClientLoopEvent::StdinInput(b"\x1b[<64;11;6M".to_vec()), NOW);
    match actions.as_slice() {
        [ClientLoopAction::Send { message: ClientMessage::AttachScroll { direction, lines, .. }, .. }] => {
            assert_eq!(*direction, AttachScrollDirection::Up);
            assert_eq!(*lines, 3);
        }
        other => panic!("expected a scroll request, got {other:?}"),
    }
}

#[test]
fn frames_clipboard_and_notifications_are_routed() {
    let mut session = client_loop(true, false);
    let (mut model, remote) = model_with_remote();
    let actions = session.client_loop_step(&mut model, ClientLoopEvent::ServerFrame(remote.clone()), NOW);
    assert!(matches!(actions.as_slice(), [ClientLoopAction::Frame(FrameRoute::CacheOnly)]));
    let actions = session.client_loop_step(&mut model, ClientLoopEvent::ServerFrame(ServerId::main()), NOW);
    assert!(matches!(actions.as_slice(), [ClientLoopAction::Frame(FrameRoute::Compose)]));
    let actions = session.client_loop_step(&mut model, ClientLoopEvent::Clipboard("dGVzdA==".into()), NOW);
    assert!(matches!(actions.as_slice(), [ClientLoopAction::WriteClipboard(b)] if b == b"test"));
    let actions = session.client_loop_step(&mut model, ClientLoopEvent::Clipboard("not-base64!!!".into()), NOW);
    assert!(actions.is_empty());
    let actions = session.client_loop_step(
        &mut model,
        ClientLoopEvent::Notify { kind: NotifyKind::Sound, message: "agent done".into(), body: None },
        NOW,
    );
    assert!(matches!(
        actions.as_slice(),
        [ClientLoopAction::Notify { action: NotifyAction::PlaySound(Sound::Done), .. }]
    ));
}

#[test]
fn write_failures_and_stream_ends_follow_the_server() {
    let mut session = client_loop(true, false);
    let (mut model, remote) = model_with_remote();
    let actions = session.client_loop_step(
        &mut model,
        ClientLoopEvent::WriteFailed { server_id: remote.clone(), error: IoFailure::other("pipe") },
        NOW,
    );
    assert!(matches!(actions.as_slice(), [ClientLoopAction::RenderFull]));
    let actions = session.client_loop_step(&mut model, ClientLoopEvent::ServerDisconnected(ServerId::main()), NOW);
    assert!(matches!(actions.as_slice(), [ClientLoopAction::End(Err(ClientError::ConnectionLost(_)))]));
}

#[test]
fn dispatched_commands_are_routed() {
    let mut session = client_loop(true, false);
    let (mut model, remote) = model_with_remote();
    let actions = session.client_loop_step(
        &mut model,
        ClientLoopEvent::Dispatched(ClientInputDispatch::DisconnectRemote { server_id: remote.clone() }),
        NOW,
    );
    assert!(matches!(actions.as_slice(), [ClientLoopAction::RenderFull]));
    assert!(session.connections.manually_disconnected.contains(&remote));
    let actions = session.client_loop_step(&mut model, ClientLoopEvent::Dispatched(ClientInputDispatch::DetachAll), NOW);
    assert!(matches!(
        actions.as_slice(),
        [ClientLoopAction::SendToAll(ClientMessage::Detach), ClientLoopAction::End(Ok(()))]
    ));
    let actions = session.client_loop_step(
        &mut model,
        ClientLoopEvent::Dispatched(ClientInputDispatch::Resize { cols: 50, rows: 20 }),
        NOW,
    );
    assert!(matches!(
        actions.as_slice(),
        [ClientLoopAction::SendToAll(ClientMessage::Resize { cols: 50, rows: 20, cell_width_px: 8, cell_height_px: 16 }), ClientLoopAction::RenderFull]
    ));
    let actions = session.client_loop_step(
        &mut model,
        ClientLoopEvent::Dispatched(ClientInputDispatch::UpdateRemote { server_id: remote.clone() }),
        NOW,
    );
    assert!(matches!(actions.as_slice(), [ClientLoopAction::RenderFull]), "only an ssh remote can be updated");
    assert_eq!(
        model.as_ref().unwrap().secondaries[0].update_progress.as_deref(),
        Some("update is only available for ssh remotes")
    );
    session.ssh_remotes.insert(remote.clone());
    let actions = session.client_loop_step(
        &mut model,
        ClientLoopEvent::Dispatched(ClientInputDispatch::UpdateRemote { server_id: remote.clone() }),
        NOW,
    );
    assert!(matches!(actions.as_slice(), [ClientLoopAction::Perform(ClientInputDispatch::UpdateRemote { .. }), ClientLoopAction::RenderFull]));
    assert_eq!(model.as_ref().unwrap().secondaries[0].update_progress.as_deref(), Some("starting update\u{2026}"));
    let again = session.client_loop_step(
        &mut model,
        ClientLoopEvent::Dispatched(ClientInputDispatch::UpdateRemote { server_id: remote.clone() }),
        NOW,
    );
    assert!(matches!(again.as_slice(), [ClientLoopAction::RenderFull]), "an update already in flight is not started twice");
    let actions = session.client_loop_step(&mut model, ClientLoopEvent::Dispatched(ClientInputDispatch::Consumed), NOW);
    assert!(actions.is_empty());
}

#[test]
fn full_client_opens_with_an_app_hello_for_the_content_area() {
    let model = ClientSupervisorModel::new("local");
    let mode = run_client(Some("ansi"));
    let mut startup = ClientStartup::new(mode, Some(&model), (100, 30), 0, 0, ClientKeybindings::Server, false);
    assert_eq!(startup.phase, StartupPhase::Connecting);
    assert!(startup.mouse_capture);
    let actions = startup.startup_step(StartupEvent::Connected, &context());
    match actions.as_slice() {
        [StartupAction::Send(ClientMessage::Hello { cols, rows, requested_encoding, surface_mode, launch_mode, .. })] => {
            assert_eq!((*cols, *rows), (74, 30));
            assert_eq!(*requested_encoding, RenderEncoding::SemanticFrame);
            assert_eq!(*surface_mode, ClientSurfaceMode::EmbeddedContent);
            assert_eq!(*launch_mode, ClientLaunchMode::App);
        }
        other => panic!("expected the hello, got {other:?}"),
    }
    let actions = startup.startup_step(StartupEvent::HandshakeDone(Ok(RenderEncoding::SemanticFrame)), &context());
    assert!(matches!(
        actions.as_slice(),
        [StartupAction::SetUpTerminal { direct_attach: false, mouse_capture: true }, StartupAction::StartLoop(RenderEncoding::SemanticFrame)]
    ));
    assert_eq!(startup.phase, StartupPhase::Running);
}

#[test]
fn unreachable_server_exits_with_status_one_before_the_terminal_is_touched() {
    let model = ClientSupervisorModel::new("local");
    let mut startup = ClientStartup::new(run_client(None), Some(&model), (80, 24), 0, 0, ClientKeybindings::Server, false);
    let actions = startup.startup_step(
        StartupEvent::ConnectFailed(IoFailure::new(IoErrorKind::NotFound, "No such file or directory")),
        &context(),
    );
    match actions.as_slice() {
        [StartupAction::Exit(SessionExit { message: Some(m), status: 1 })] => {
            assert!(m.starts_with("failed to connect to server: No such file or directory"));
            assert!(m.ends_with("Socket path: /tmp/herdr-client.sock"));
        }
        other => panic!("expected an exit, got {other:?}"),
    }
    assert_eq!(startup.phase, StartupPhase::Failed);
    assert!(startup.startup_step(StartupEvent::Connected, &context()).is_empty());
}

#[test]
fn rejected_handshake_exits_with_status_one() {
    let model = ClientSupervisorModel::new("local");
    let mut startup = ClientStartup::new(run_client(None), Some(&model), (80, 24), 0, 0, ClientKeybindings::Server, false);
    startup.startup_step(StartupEvent::Connected, &context());
    let actions = startup.startup_step(
        StartupEvent::HandshakeDone(Err(ClientError::HandshakeRejected { version: 9, error: "too new".into() })),
        &context(),
    );
    match actions.as_slice() {
        [StartupAction::Exit(SessionExit { message: Some(m), status: 1 })] => {
            assert_eq!(m, "server rejected handshake (version 9): too new");
        }
        other => panic!("expected an exit, got {other:?}"),
    }
}

#[test]
fn terminal_attach_sends_the_attach_request_before_raw_mode() {
    let mode = run_terminal_attach("term-7".into(), true, true).unwrap();
    let mut startup = ClientStartup::new(mode, None, (90, 20), 0, 0, ClientKeybindings::Server, false);
    match startup.startup_step(StartupEvent::Connected, &context()).as_slice() {
        [StartupAction::Send(ClientMessage::Hello { cols, rows, cell_width_px, cell_height_px, requested_encoding, surface_mode, launch_mode, .. })] => {
            assert_eq!((*cols, *rows, *cell_width_px, *cell_height_px), (90, 20, 0, 0));
            assert_eq!(*requested_encoding, RenderEncoding::TerminalAnsi);
            assert_eq!(*surface_mode, ClientSurfaceMode::FullApp);
            assert_eq!(*launch_mode, ClientLaunchMode::TerminalAttach);
        }
        other => panic!("expected the hello, got {other:?}"),
    }
    match startup.startup_step(StartupEvent::HandshakeDone(Ok(RenderEncoding::TerminalAnsi)), &context()).as_slice() {
        [StartupAction::Send(ClientMessage::AttachTerminal { terminal_id, takeover })] => {
            assert_eq!(terminal_id, "term-7");
            assert!(*takeover);
        }
        other => panic!("expected the attach request, got {other:?}"),
    }
    assert!(matches!(
        startup.startup_step(StartupEvent::AttachWritten(Ok(())), &context()).as_slice(),
        [StartupAction::SetUpTerminal { direct_attach: true, .. }, StartupAction::StartLoop(RenderEncoding::TerminalAnsi)]
    ));
}

#[test]
fn failed_attach_request_exits_with_status_one() {
    let mode = run_terminal_attach("term-7".into(), false, true).unwrap();
    let mut startup = ClientStartup::new(mode, None, (90, 20), 0, 0, ClientKeybindings::Server, false);
    startup.startup_step(StartupEvent::Connected, &context());
    startup.startup_step(StartupEvent::HandshakeDone(Ok(RenderEncoding::TerminalAnsi)), &context());
    match startup.startup_step(StartupEvent::AttachWritten(Err(IoFailure::other("broken pipe"))), &context()).as_slice() {
        [StartupAction::Exit(SessionExit { message: Some(m), status: 1 })] => {
            assert_eq!(m, "failed to request terminal attach: broken pipe");
        }
        other => panic!("expected an exit, got {other:?}"),
    }
}

#[test]
fn session_end_prints_and_picks_the_exit_status() {
    let ctx = context();
    assert_eq!(finish_session(&Ok(()), &ctx), SessionExit { message: None, status: 0 });
    let shutdown = finish_session(&Err(ClientError::ServerShutdown { reason: Some("maintenance".into()) }), &ctx);
    assert_eq!(shutdown, SessionExit { message: Some("server shut down: maintenance".into()), status: 0 });
    let detached = finish_session(&Err(ClientError::ServerShutdown { reason: Some("detached".into()) }), &ctx);
    assert_eq!(detached.status, 0);
    assert_eq!(detached.message.as_deref(), Some("detached from server\nRun `herdr` to reattach"));
    let lost = finish_session(&Err(ClientError::ConnectionLost(IoFailure::other("gone"))), &ctx);
    assert_eq!(lost, SessionExit { message: Some("lost connection to server: gone".into()), status: 1 });
    assert_eq!(local_attach_command(Some("work")), "herdr session attach work");
}

fn draft() -> AddRemoteDraft {
    AddRemoteDraft { target: "box".into(), name: None, session: None, keybindings: RemoteKeybindingsSnapshot::Local }
}

#[test]
fn add_remote_submission_starts_only_one_worker() {
    let mut session = client_loop(true, false);
    let (mut model, _) = model_with_remote();
    let first = session.client_loop_step(&mut model, ClientLoopEvent::Dispatched(ClientInputDispatch::AddRemote(draft())), NOW);
    assert_eq!(first.len(), 2);
    assert!(matches!(&first[0], ClientLoopAction::Perform(ClientInputDispatch::AddRemote(_))));
    assert!(matches!(first[1], ClientLoopAction::RenderFull));
    assert!(session.connections.pending_add_remote);
    let second = session.client_loop_step(&mut model, ClientLoopEvent::Dispatched(ClientInputDispatch::AddRemote(draft())), NOW);
    assert_eq!(second.len(), 1, "a second submission while one is in flight starts nothing");
    assert!(matches!(second[0], ClientLoopAction::RenderFull));
}

#[test]
fn attached_reconnect_asks_for_a_refresh_of_that_server() {
    let mut session = client_loop(true, false);
    let (mut model, remote) = model_with_remote();
    let actions = session.client_loop_step(
        &mut model,
        ClientLoopEvent::AttemptFinished { server_id: remote.clone(), attempt: 2, outcome: SecondaryAttemptOutcome::Attached { bridge: false } },
        NOW,
    );
    assert_eq!(actions.len(), 2);
    match &actions[0] {
        ClientLoopAction::RefreshAfterAttach(id) => assert_eq!(id, &remote),
        other => panic!("expected a refresh, got {other:?}"),
    }
    assert!(session.connections.server_writes.contains(&remote));
    let mut headless = client_loop(true, false);
    let mut no_model: Option<ClientSupervisorModel> = None;
    let actions = headless.client_loop_step(
        &mut no_model,
        ClientLoopEvent::AttemptFinished { server_id: remote, attempt: 0, outcome: SecondaryAttemptOutcome::Attached { bridge: false } },
        NOW,
    );
    assert_eq!(actions.len(), 1, "without a model there is nothing to refresh");
}

#[test]
fn finished_update_rereads_the_version_only_on_success() {
    let mut session = client_loop(true, false);
    let (mut model, remote) = model_with_remote();
    let ok = session.client_loop_step(&mut model, ClientLoopEvent::UpdateRemoteFinished { server_id: remote.clone(), result: Ok(()) }, NOW);
    assert_eq!(ok.len(), 2);
    assert!(matches!(&ok[0], ClientLoopAction::FetchRuntimeStatus(id) if *id == remote));
    let failed = session.client_loop_step(
        &mut model,
        ClientLoopEvent::UpdateRemoteFinished { server_id: remote.clone(), result: Err("no route".into()) },
        NOW,
    );
    assert_eq!(failed.len(), 1);
    let banner = model.as_ref().unwrap().secondaries[0].update_outcome.clone().expect("outcome posted");
    assert_eq!(banner.message, "\u{2717} update failed: no route");
}

#[test]
fn finished_registry_change_reports_its_follow_up() {
    let mut session = client_loop(true, false);
    let (mut model, _) = model_with_remote();
    let actions = session.client_loop_step(
        &mut model,
        ClientLoopEvent::RemoteManageFinished {
            action: RemoteManageAction::SetAutoUpdate { auto_update: true },
            remote_id: "remote-x".into(),
            result: Ok(()),
        },
        NOW,
    );
    assert_eq!(actions.len(), 2);
    match &actions[0] {
        ClientLoopAction::FollowUp(f) => assert_eq!(*f, ManageFollowUp { refresh_summaries: true, auto_update_sweep: true }),
        other => panic!("expected a follow-up, got {other:?}"),
    }
}

#[test]
fn housekeeping_tick_takes_a_pending_full_render() {
    let mut session = client_loop(true, false);
    session.cadence.pending_full_render = true;
    let (mut model, _) = model_with_remote();
    let actions = session.client_loop_step(
        &mut model,
        ClientLoopEvent::Timer { reachable: IdSet::new(), subscription_targets: Vec::new() },
        NOW,
    );
    assert_eq!(actions.len(), 1);
    match &actions[0] {
        ClientLoopAction::Housekeeping(t) => assert_eq!(t.render, TimerRender::Full),
        other => panic!("expected housekeeping, got {other:?}"),
    }
    assert!(!session.cadence.pending_full_render);
}

#[test]
fn update_progress_replaces_the_outcome_line() {
    let mut session = client_loop(true, false);
    let (mut model, remote) = model_with_remote();
    session.client_loop_step(&mut model, ClientLoopEvent::UpdateRemoteFinished { server_id: remote.clone(), result: Err("boom".into()) }, NOW);
    assert!(model.as_ref().unwrap().secondaries[0].update_outcome.is_some());
    let actions = session.client_loop_step(
        &mut model,
        ClientLoopEvent::UpdateRemoteProgress { server_id: remote.clone(), message: "copying binary".into() },
        NOW,
    );
    assert!(matches!(actions.as_slice(), [ClientLoopAction::RenderFull]));
    let host = &model.as_ref().unwrap().secondaries[0];
    assert_eq!(host.update_progress.as_deref(), Some("copying binary"));
    assert!(host.update_outcome.is_none(), "a new stage hides the old outcome");
    assert!(!session.connections.update_outcome_expiry.contains_key(&remote));
}

#[test]
fn ended_subscription_may_start_again() {
    let mut session = client_loop(true, false);
    let (mut model, remote) = model_with_remote();
    session.connections.summary_subscriptions.insert(remote.clone());
    let actions = session.client_loop_step(&mut model, ClientLoopEvent::SummarySubscriptionEnded(remote.clone()), NOW);
    assert!(actions.is_empty());
    assert!(!session.connections.summary_subscriptions.contains(&remote));
}
