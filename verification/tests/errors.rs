use herdr_client::errors::{
    ClientError, ErrorContext, FramingError, IoErrorKind, IoFailure, ProvisionFailureDisposition,
    RemoteOpError, RestartConfirmNeeded, add_remote_error_message, classify_provision_failure,
    map_remote_bridge_error, remote_op_error_io,
};

fn context() -> ErrorContext {
    ErrorContext {
        socket_path: "/tmp/herdr/herdr-client.sock".to_string(),
        reattach_command: None,
        local_attach_command: "herdr".to_string(),
    }
}

fn connection_failed(message: &str) -> ClientError {
    ClientError::ConnectionFailed(IoFailure::other(message))
}

#[test]
fn classify_provision_failure_turns_restart_signal_into_confirm_stop() {
    let signal = RestartConfirmNeeded {
        destination: "macmini".to_string(),
        version: Some("0.5.10".to_string()),
        protocol: Some(6),
    };
    let err = ClientError::ConnectionFailed(IoFailure {
        kind: IoErrorKind::Other,
        message: "remote herdr 0.5.10 on macmini needs a restart".to_string(),
        restart_confirm: Some(signal),
    });
    assert_eq!(
        classify_provision_failure(&err, &context()),
        ProvisionFailureDisposition::StopNeedsRestartConfirm
    );
}

#[test]
fn classify_provision_failure_stops_on_terminal_errors() {
    for terminal in [
        "Permission denied (publickey,password).",
        "ssh: Could not resolve hostname nope: nodename nor servname provided",
        "Host key verification failed.",
        "installed remote herdr at \"$HOME/.local/bin/herdr\", but it reports `herdr 0.6.9`, not version 0.6.10-mx.1",
        "this mx-channel build (0.6.10-mx.1) cannot seed remotes from the herdr.dev release manifest",
        "remote herdr is incompatible and can't be upgraded in place — update it and retry",
    ] {
        let err = connection_failed(terminal);
        assert_eq!(
            classify_provision_failure(&err, &context()),
            ProvisionFailureDisposition::Stop,
            "expected terminal stop for {terminal:?}"
        );
    }
}

#[test]
fn classify_provision_failure_retries_transient_errors() {
    for transient in [
        "ssh: connect to host x port 22: Connection refused",
        "ssh: connect to host build-m3max port 22: Operation timed out",
        "failed to start ssh remote bridge: no progress for 90s while installing herdr on the remote…",
        "ssh bridge exited with exit status: 255",
        "weird novel failure",
    ] {
        let err = connection_failed(transient);
        assert_eq!(
            classify_provision_failure(&err, &context()),
            ProvisionFailureDisposition::Retry,
            "expected retry for {transient:?}"
        );
    }
}

#[test]
fn maps_common_bridge_failures_to_actionable_text() {
    assert!(map_remote_bridge_error("operation timed out after 90s connecting to the remote host")
        .contains("timed out"));
    assert!(map_remote_bridge_error("ssh: connect to host x port 22: Connection refused")
        .contains("cannot reach host"));
    assert!(map_remote_bridge_error("Permission denied (publickey,password).")
        .contains("authentication failed"));
    assert!(map_remote_bridge_error("ssh: Could not resolve hostname nope").contains("cannot reach host"));
    assert_eq!(map_remote_bridge_error("weird novel failure"), "weird novel failure");
}

#[test]
fn bridge_error_text_names_incompatible_remotes() {
    assert_eq!(
        map_remote_bridge_error("server does not support live-handoff"),
        "remote herdr is incompatible and can't be upgraded in place — update it and retry"
    );
    assert_eq!(
        map_remote_bridge_error("ssh: connect to host x: No route to host"),
        "cannot reach host over ssh — check the address"
    );
}

#[test]
fn client_error_display_connection_failed() {
    let err = ClientError::ConnectionFailed(IoFailure::new(IoErrorKind::ConnectionRefused, "connection refused"));
    let msg = err.message(&context());
    assert!(msg.contains("failed to connect to server"), "should mention connection failure: {msg}");
    assert!(msg.contains("herdr server"), "should suggest starting server: {msg}");
    assert_eq!(
        msg,
        "failed to connect to server: connection refused\nIs herdr server running? Start it with `herdr server`.\nSocket path: /tmp/herdr/herdr-client.sock"
    );
}

#[test]
fn client_error_display_handshake_rejected() {
    let err = ClientError::HandshakeRejected { version: 1, error: "incompatible".into() };
    let msg = err.message(&context());
    assert!(msg.contains("rejected handshake"), "should mention rejection: {msg}");
    assert!(msg.contains("incompatible"), "should include error: {msg}");
    assert_eq!(msg, "server rejected handshake (version 1): incompatible");
}

#[test]
fn client_error_display_server_shutdown() {
    let err = ClientError::ServerShutdown { reason: Some("maintenance".into()) };
    let msg = err.message(&context());
    assert!(msg.contains("server shut down"), "should mention shutdown: {msg}");
    assert!(msg.contains("maintenance"), "should include reason: {msg}");
}

#[test]
fn client_error_display_server_shutdown_no_reason() {
    let err = ClientError::ServerShutdown { reason: None };
    let msg = err.message(&context());
    assert!(msg.contains("server shut down"), "should mention shutdown: {msg}");
}

#[test]
fn client_error_display_detached_default_session_reattach_hint() {
    let err = ClientError::ServerShutdown { reason: Some("detached".into()) };
    let msg = err.message(&context());
    assert!(msg.contains("Run `herdr` to reattach"), "should suggest default reattach command: {msg}");
}

#[test]
fn client_error_display_detached_named_session_reattach_hint() {
    let ctx = ErrorContext {
        local_attach_command: "herdr session attach work".to_string(),
        ..context()
    };
    let err = ClientError::ServerShutdown { reason: Some("detached".into()) };
    let msg = err.message(&ctx);
    assert!(
        msg.contains("Run `herdr session attach work` to reattach"),
        "should suggest named session reattach command: {msg}"
    );
}

#[test]
fn client_error_display_detached_remote_reattach_hint_takes_precedence() {
    let ctx = ErrorContext {
        reattach_command: Some("herdr --remote host --session work".to_string()),
        local_attach_command: "herdr session attach work".to_string(),
        ..context()
    };
    let err = ClientError::ServerShutdown { reason: Some("detached".into()) };
    let msg = err.message(&ctx);
    assert!(
        msg.contains("Run `herdr --remote host --session work` to reattach"),
        "should prefer remote reattach command: {msg}"
    );
    assert!(msg.starts_with("detached from remote server"));
}

#[test]
fn client_error_display_connection_lost() {
    let err = ClientError::ConnectionLost(IoFailure::new(IoErrorKind::BrokenPipe, "broken pipe"));
    let msg = err.message(&context());
    assert!(msg.contains("lost connection to server"), "should mention lost connection: {msg}");
}

#[test]
fn client_error_display_protocol_error() {
    let err = ClientError::from(FramingError::UnexpectedEof);
    assert!(matches!(err, ClientError::Protocol(FramingError::UnexpectedEof)));
    assert_eq!(err.message(&context()), "protocol error: unexpected end of stream");
}

#[test]
fn add_remote_error_message_maps_registry_duplicates_for_modal() {
    assert_eq!(add_remote_error_message("remote target already exists"), "remote already added");
    assert_eq!(add_remote_error_message("remote name already exists"), "name already used");
    assert_eq!(add_remote_error_message("some unmapped failure"), "some unmapped failure");
}

#[test]
fn remote_op_timeout_names_the_last_stage() {
    let io = remote_op_error_io(RemoteOpError::TimedOut {
        idle_micros: 90_000_000,
        stage: Some("installing herdr on the remote".to_string()),
    });
    assert_eq!(io.kind, IoErrorKind::TimedOut);
    assert_eq!(
        io.message,
        "failed to start ssh remote bridge: no progress for 90s while installing herdr on the remote"
    );
    let gone = remote_op_error_io(RemoteOpError::WorkerGone);
    assert_eq!(gone.kind, IoErrorKind::Other);
    let failed = remote_op_error_io(RemoteOpError::Failed(IoFailure::other("boom")));
    assert_eq!(failed.message, "boom");
}
