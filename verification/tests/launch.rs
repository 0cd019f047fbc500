use herdr_client::api::{
    RemoteDefinitionSnapshot, RemoteTargetSnapshot, ResponseResult, SuccessResponse, SupervisorApi,
    bootstrap_client_supervisor_model, bootstrap_supervisor_for_client, main_display_name_for_client,
    remote_add_outcome, submit_remote_add_to_main_api,
};
use herdr_client::attach::AttachEscapeState;
use herdr_client::dispatch::AddRemoteDraft;
use herdr_client::errors::{ClientError, IoErrorKind, IoFailure};
use herdr_client::launch::{
    ClientRenderPlan, DEFAULT_SIDEBAR_WIDTH, client_keybindings_from_snapshot, client_render_plan,
    exits_cleanly_after, kitty_graphics_allowed, requested_keybindings, run_client, run_terminal_attach,
    set_handshake_recv_timeout,
};
use herdr_client::protocol::{
    ClientKeybindings, ClientSurfaceMode, Method, RemoteAddParams, RemoteKeybindingsSnapshot, RenderEncoding,
    Request, ServerId,
};
use herdr_client::supervisor::{ClientSupervisorModel, ConnectionState, SecondaryServer};
use herdr_client::launch::{HandshakeReply, handshake_hello, handshake_result};
use herdr_client::protocol::{ClientLaunchMode, ClientMessage, PROTOCOL_VERSION};
use herdr_client::errors::FramingError;
use herdr_client::api::{ConnectionTarget, ServerConnectionTarget, api_target_for_connection_target, api_target_for_supervisor_target};

#[derive(Default)]
struct BootstrapApi {
    requests: Vec<String>,
    remotes: Vec<RemoteDefinitionSnapshot>,
}

impl SupervisorApi for BootstrapApi {
    fn request(&mut self, request: Request) -> Result<SuccessResponse, String> {
        self.requests.push(request.id.clone());
        Ok(SuccessResponse { id: request.id, result: ResponseResult::RemoteList { remotes: self.remotes.clone() } })
    }
}

#[derive(Default)]
struct RemoteAddApi {
    captured: Option<RemoteAddParams>,
}

impl SupervisorApi for RemoteAddApi {
    fn request(&mut self, request: Request) -> Result<SuccessResponse, String> {
        match request.method {
            Method::RemoteAdd(params) => {
                self.captured = Some(params);
                Ok(SuccessResponse {
                    id: request.id,
                    result: ResponseResult::RemoteAdded {
                        remote: RemoteDefinitionSnapshot {
                            id: "remote-1".into(),
                            name: "dev".into(),
                            target: RemoteTargetSnapshot::Local { session: Some("dev".into()) },
                            session: None,
                            keybindings: RemoteKeybindingsSnapshot::Local,
                            disabled: false,
                            auto_update: false,
                        },
                    },
                })
            }
            other => Err(format!("unexpected method: {other:?}")),
        }
    }
}

fn test_remote_definition(id: &str, name: &str) -> RemoteDefinitionSnapshot {
    RemoteDefinitionSnapshot {
        id: id.into(),
        name: name.into(),
        target: RemoteTargetSnapshot::Local { session: Some(id.into()) },
        session: None,
        keybindings: RemoteKeybindingsSnapshot::Local,
        disabled: false,
        auto_update: false,
    }
}

#[test]
fn submit_remote_add_to_main_api_builds_remote_add_request() {
    let mut api = RemoteAddApi::default();
    let remote = submit_remote_add_to_main_api(
        &mut api,
        AddRemoteDraft {
            target: "local:dev".into(),
            name: Some("dev".into()),
            session: Some("work".into()),
            keybindings: RemoteKeybindingsSnapshot::Local,
        },
    )
    .unwrap();
    assert_eq!(remote.id, "remote-1");
    assert_eq!(
        api.captured,
        Some(RemoteAddParams {
            name: Some("dev".into()),
            target: "local:dev".into(),
            session: Some("work".into()),
            keybindings: RemoteKeybindingsSnapshot::Local,
        })
    );

    let mut api = RemoteAddApi::default();
    submit_remote_add_to_main_api(
        &mut api,
        AddRemoteDraft {
            target: "local:dev".into(),
            name: Some("dev".into()),
            session: None,
            keybindings: RemoteKeybindingsSnapshot::Local,
        },
    )
    .unwrap();
    assert_eq!(api.captured.and_then(|params| params.session), None);
}

#[test]
fn remote_add_outcome_maps_refusals_and_unexpected_results() {
    assert_eq!(
        remote_add_outcome(Err("remote target already exists".to_string())),
        Err("remote already added".to_string())
    );
    let unexpected = remote_add_outcome(Ok(SuccessResponse {
        id: "client:remote-add".into(),
        result: ResponseResult::SessionList { sessions: vec!["a".into()] },
    }));
    assert_eq!(
        unexpected,
        Err("remote.add returned unexpected result: SessionList".to_string())
    );
}

#[test]
fn full_app_client_bootstrap_is_paint_first_without_blocking_api_calls() {
    let mut api = BootstrapApi::default();
    let model = bootstrap_supervisor_for_client(false, &mut api, "local")
        .unwrap()
        .expect("full app client should bootstrap a minimal supervisor model");
    assert!(api.requests.is_empty(), "paint-first bootstrap must not block on any API round-trip, got {:?}", api.requests);
    assert!(model.secondary_connection_plans().is_empty());
    assert!(model.client_global_menu_items().contains(&"add remote"));
    assert!(model.client_global_menu_items().contains(&"manage remotes"));
}

#[test]
fn remote_launch_display_name_labels_main_filter() {
    let name = main_display_name_for_client(Some("iq-64"));
    let mut api = BootstrapApi::default();
    let model = bootstrap_supervisor_for_client(false, &mut api, &name).unwrap().unwrap();
    assert_eq!(model.main_display_name, "iq-64");
    assert_eq!(main_display_name_for_client(Some("  \t")), "local");
    assert_eq!(main_display_name_for_client(None), "local");
}

#[test]
fn client_bootstrap_defers_registry_and_secondaries_to_async_hydrate() {
    let mut api = BootstrapApi { remotes: vec![test_remote_definition("remote-dev", "dev")], ..BootstrapApi::default() };
    let model = bootstrap_client_supervisor_model(false, &mut api, "local")
        .unwrap()
        .expect("full app client should bootstrap a minimal supervisor model");
    assert!(api.requests.is_empty(), "paint-first bootstrap must not block on any API round-trip, got {:?}", api.requests);
    assert!(model.secondary_connection_plans().is_empty());
}

#[test]
fn direct_attach_client_skips_supervisor_bootstrap() {
    let mut api = BootstrapApi::default();
    let model = bootstrap_supervisor_for_client(true, &mut api, "local").unwrap();
    assert!(model.is_none());
    assert!(api.requests.is_empty());
}

#[test]
fn client_render_plan_uses_embedded_content_when_supervisor_is_available() {
    let model = ClientSupervisorModel::new("local");
    let plan = client_render_plan(Some(&model), RenderEncoding::TerminalAnsi, (80, 24));
    assert_eq!(plan.surface_mode, ClientSurfaceMode::EmbeddedContent);
    assert_eq!(plan.requested_encoding, RenderEncoding::SemanticFrame);
    assert_eq!(plan.server_size, (80 - DEFAULT_SIDEBAR_WIDTH, 24));
    assert!(plan.use_client_compositor);
}

#[test]
fn client_render_plan_uses_full_app_when_supervisor_is_unavailable() {
    let plan = client_render_plan(None, RenderEncoding::TerminalAnsi, (80, 24));
    assert_eq!(plan.surface_mode, ClientSurfaceMode::FullApp);
    assert_eq!(plan.requested_encoding, RenderEncoding::TerminalAnsi);
    assert_eq!(plan.server_size, (80, 24));
    assert!(!plan.use_client_compositor);
}

#[test]
fn client_render_plan_uses_embedded_content_with_secondary_servers() {
    let mut model = ClientSupervisorModel::new("local");
    model.secondaries.push(SecondaryServer {
        server_id: ServerId::secondary("remote-x"),
        name: "x".into(),
        disabled: false,
        connection_state: ConnectionState::Connected,
        update_progress: None,
        update_outcome: None,
    });
    let plan = client_render_plan(Some(&model), RenderEncoding::TerminalAnsi, (80, 24));
    assert_eq!(
        plan,
        ClientRenderPlan {
            surface_mode: ClientSurfaceMode::EmbeddedContent,
            requested_encoding: RenderEncoding::SemanticFrame,
            server_size: (80 - DEFAULT_SIDEBAR_WIDTH, 24),
            use_client_compositor: true,
        }
    );
}

#[test]
fn narrow_host_gives_the_server_no_columns() {
    let model = ClientSupervisorModel::new("local");
    assert_eq!(client_render_plan(Some(&model), RenderEncoding::SemanticFrame, (10, 5)).server_size, (0, 5));
}

#[test]
fn launch_modes_request_the_right_session() {
    let app = run_client(None);
    assert_eq!(app.requested_encoding, RenderEncoding::SemanticFrame);
    assert!(app.attach_request.is_none());
    assert!(app.attach_escape.is_none());
    assert_eq!(app.log_message, "connecting to server");
    assert_eq!(run_client(Some("ansi")).requested_encoding, RenderEncoding::TerminalAnsi);

    let attach = run_terminal_attach("term-1".into(), true, true).unwrap();
    assert_eq!(attach.requested_encoding, RenderEncoding::TerminalAnsi);
    assert_eq!(attach.attach_request, Some(("term-1".to_string(), true)));
    assert_eq!(attach.attach_escape, Some(AttachEscapeState::default()));
    assert_eq!(attach.log_message, "attaching to terminal");

    let refused = run_terminal_attach("term-1".into(), false, false).unwrap_err();
    assert_eq!(refused.kind, IoErrorKind::Unsupported);
    assert_eq!(refused.message, "direct terminal attach is not supported on Windows yet");
}

#[test]
fn every_server_shutdown_exits_cleanly() {
    assert!(exits_cleanly_after(&ClientError::ServerShutdown { reason: Some("detached".into()) }));
    assert!(exits_cleanly_after(&ClientError::ServerShutdown { reason: Some("maintenance".into()) }));
    assert!(exits_cleanly_after(&ClientError::ServerShutdown { reason: None }));
    assert!(!exits_cleanly_after(&ClientError::ConnectionLost(IoFailure::other("gone"))));
    assert!(kitty_graphics_allowed(true, false));
    assert!(!kitty_graphics_allowed(true, true));
}

#[test]
fn local_keybindings_fall_back_to_the_server_profile() {
    assert_eq!(
        client_keybindings_from_snapshot(RemoteKeybindingsSnapshot::Local, Some("[keys]".into())),
        ClientKeybindings::Local { keys_toml: "[keys]".into() }
    );
    assert_eq!(client_keybindings_from_snapshot(RemoteKeybindingsSnapshot::Local, None), ClientKeybindings::Server);
    assert_eq!(
        client_keybindings_from_snapshot(RemoteKeybindingsSnapshot::Server, Some("[keys]".into())),
        ClientKeybindings::Server
    );
}

#[test]
fn handshake_sends_hello_and_reads_welcome() {

    match handshake_hello(100, 30, 8, 16, RenderEncoding::TerminalAnsi, ClientSurfaceMode::FullApp, ClientKeybindings::Server, true) {
        ClientMessage::Hello { version, cols, rows, launch_mode, .. } => {
            assert_eq!(version, PROTOCOL_VERSION);
            assert_eq!((cols, rows), (100, 30));
            assert_eq!(launch_mode, ClientLaunchMode::TerminalAttach);
        }
        other => panic!("expected hello, got {other:?}"),
    }
    assert_eq!(
        handshake_result(HandshakeReply::Welcome { version: 7, encoding: RenderEncoding::SemanticFrame, error: None }).unwrap(),
        RenderEncoding::SemanticFrame
    );
    match handshake_result(HandshakeReply::Welcome { version: 9, encoding: RenderEncoding::SemanticFrame, error: Some("too new".into()) }) {
        Err(ClientError::HandshakeRejected { version, error }) => {
            assert_eq!(version, 9);
            assert_eq!(error, "too new");
        }
        other => panic!("expected rejection, got {other:?}"),
    }
    match handshake_result(HandshakeReply::Other) {
        Err(ClientError::Protocol(FramingError::Io(io))) => {
            assert_eq!(io.kind, IoErrorKind::InvalidData);
            assert_eq!(io.message, "expected Welcome message");
        }
        other => panic!("expected protocol error, got {other:?}"),
    }
}

#[test]
fn api_target_for_supervisor_server_maps_main_and_local_secondary() {
    assert_eq!(api_target_for_connection_target(&ServerConnectionTarget::Main), Some(ConnectionTarget::LocalSession(None)));
    assert_eq!(
        api_target_for_connection_target(&ServerConnectionTarget::LocalSession(Some("work".into()))),
        Some(ConnectionTarget::LocalSession(Some("work".into())))
    );
    let ssh = ServerConnectionTarget::Ssh { destination: "host".into(), options: Vec::new() };
    assert_eq!(api_target_for_connection_target(&ssh), None);
    assert_eq!(api_target_for_supervisor_target(&ssh, None), None);
    assert_eq!(
        api_target_for_supervisor_target(&ssh, Some("/tmp/bridge/api.sock")),
        Some(ConnectionTarget::SocketPath("/tmp/bridge/api.sock".into()))
    );
    assert_eq!(
        api_target_for_supervisor_target(&ServerConnectionTarget::Main, Some("/tmp/ignored.sock")),
        Some(ConnectionTarget::LocalSession(None))
    );
}

#[test]
fn launch_keybindings_follow_the_remote_setting() {
    assert_eq!(requested_keybindings(Some("local"), Some("[keys]".into())), ClientKeybindings::Local { keys_toml: "[keys]".into() });
    assert_eq!(requested_keybindings(Some("local"), None), ClientKeybindings::Server);
    assert_eq!(requested_keybindings(Some("server"), Some("[keys]".into())), ClientKeybindings::Server);
    assert_eq!(requested_keybindings(None, Some("[keys]".into())), ClientKeybindings::Server);
}

#[test]
fn handshake_timeout_is_optional_only_on_windows() {
    assert!(set_handshake_recv_timeout(Ok(()), false).is_ok());
    assert!(set_handshake_recv_timeout(Err(IoFailure::new(IoErrorKind::Unsupported, "no timeouts")), true).is_ok());
    match set_handshake_recv_timeout(Err(IoFailure::new(IoErrorKind::Unsupported, "no timeouts")), false) {
        Err(ClientError::ConnectionFailed(io)) => assert_eq!(io.message, "no timeouts"),
        other => panic!("expected connection failure, got {other:?}"),
    }
}

#[test]
fn supervisor_targets_map_ssh_secondary_through_bridge_sockets() {
    let ssh = ServerConnectionTarget::Ssh { destination: "prod.example.com".into(), options: Vec::new() };
    assert_eq!(
        api_target_for_supervisor_target(&ssh, Some("/tmp/herdr-prod-api.sock")),
        Some(ConnectionTarget::SocketPath("/tmp/herdr-prod-api.sock".into()))
    );
}
