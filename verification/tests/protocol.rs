use herdr_client::protocol::{
    ClientKeybindings, ClientLaunchMode, ClientMessage, ClientSurfaceMode, Method, PROTOCOL_VERSION,
    RemoteManageAction, RenderEncoding, Subscription, build_hello_message, remote_manage_action_label,
    remote_manage_request, requested_render_encoding, summary_refresh_subscription_request,
};

#[test]
fn hello_message_uses_requested_surface_mode() {
    let hello = build_hello_message(
        80,
        24,
        0,
        0,
        RenderEncoding::SemanticFrame,
        ClientSurfaceMode::EmbeddedContent,
        ClientKeybindings::Server,
        ClientLaunchMode::App,
    );
    match hello {
        ClientMessage::Hello { surface_mode, version, .. } => {
            assert_eq!(surface_mode, ClientSurfaceMode::EmbeddedContent);
            assert_eq!(version, PROTOCOL_VERSION);
        }
        other => panic!("expected hello, got {other:?}"),
    }
}

#[test]
fn summary_refresh_subscription_request_covers_sidebar_summary_events() {
    let request = summary_refresh_subscription_request("client:summary-events".to_string());
    assert_eq!(request.id, "client:summary-events");
    let Method::EventsSubscribe(params) = request.method else {
        panic!("expected events.subscribe request");
    };
    assert_eq!(
        params.subscriptions,
        vec![
            Subscription::WorkspaceCreated,
            Subscription::WorkspaceUpdated,
            Subscription::WorkspaceRenamed,
            Subscription::WorkspaceClosed,
            Subscription::WorkspaceFocused,
            Subscription::TabCreated,
            Subscription::TabClosed,
            Subscription::TabFocused,
            Subscription::TabRenamed,
            Subscription::PaneCreated,
            Subscription::PaneClosed,
            Subscription::PaneFocused,
            Subscription::PaneExited,
            Subscription::PaneAgentDetected,
            Subscription::PaneAgentStatusChanged { pane_id: None, agent_status: None },
        ]
    );
}

#[test]
fn remote_manage_request_builds_set_enabled_and_remove() {
    let set = remote_manage_request(&RemoteManageAction::SetEnabled { enabled: true }, "r1");
    match set.method {
        Method::RemoteSetEnabled(params) => {
            assert_eq!(params.remote_id, "r1");
            assert!(params.enabled);
        }
        other => panic!("expected remote.set_enabled, got {other:?}"),
    }
    let del = remote_manage_request(&RemoteManageAction::Delete, "r1");
    match del.method {
        Method::RemoteRemove(params) => assert_eq!(params.remote_id, "r1"),
        other => panic!("expected remote.remove, got {other:?}"),
    }
}

#[test]
fn remote_manage_request_builds_set_auto_update() {
    let on = remote_manage_request(&RemoteManageAction::SetAutoUpdate { auto_update: true }, "r1");
    assert_eq!(on.id, "client:remote-manage");
    match on.method {
        Method::RemoteSetAutoUpdate(params) => {
            assert_eq!(params.remote_id, "r1");
            assert!(params.auto_update);
        }
        other => panic!("expected remote.set_auto_update, got {other:?}"),
    }
    let session = remote_manage_request(&RemoteManageAction::SetSession { session: Some("work".into()) }, "r1");
    match session.method {
        Method::RemoteSetSession(params) => {
            assert_eq!(params.remote_id, "r1");
            assert_eq!(params.session.as_deref(), Some("work"));
        }
        other => panic!("expected remote.set_session, got {other:?}"),
    }
}

#[test]
fn manage_action_labels_name_the_change() {
    assert_eq!(remote_manage_action_label(&RemoteManageAction::SetEnabled { enabled: true }), "enable");
    assert_eq!(remote_manage_action_label(&RemoteManageAction::SetEnabled { enabled: false }), "disable");
    assert_eq!(
        remote_manage_action_label(&RemoteManageAction::SetSession { session: None }),
        "session switch"
    );
    assert_eq!(remote_manage_action_label(&RemoteManageAction::Delete), "remove");
}

#[test]
fn render_encoding_setting_selects_terminal_ansi_only_by_name() {
    assert_eq!(requested_render_encoding(None), RenderEncoding::SemanticFrame);
    assert_eq!(requested_render_encoding(Some("ansi")), RenderEncoding::TerminalAnsi);
    assert_eq!(requested_render_encoding(Some("terminal-ansi")), RenderEncoding::TerminalAnsi);
    assert_eq!(requested_render_encoding(Some("terminal_ansi")), RenderEncoding::TerminalAnsi);
    assert_eq!(requested_render_encoding(Some("semantic")), RenderEncoding::SemanticFrame);
}
