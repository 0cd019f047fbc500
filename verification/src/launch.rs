//! How a client session starts and ends: the mode a launch asks for, the render plan it agrees
//! with the server, and which way it exits.

use vstd::prelude::*;
use crate::attach::AttachEscapeState;
use crate::errors::{ClientError, ErrorContext, IoErrorKind, IoFailure, client_error_message};
use crate::errors::FramingError;
use crate::protocol::{
    ClientKeybindings, ClientLaunchMode, ClientMessage, ClientSurfaceMode, PROTOCOL_VERSION, RemoteKeybindingsSnapshot,
    RenderEncoding, build_hello_message, requested_encoding_for, requested_render_encoding,
};
use crate::supervisor::ClientSupervisorModel;
use crate::text::append_str;
use crate::text::str_is;

verus! {

/// Width of the client-owned sidebar beside the content area.
pub const DEFAULT_SIDEBAR_WIDTH: u16 = 26;

/// What a launch asks of the client session.
#[derive(Debug, Clone, PartialEq, Eq)]
pub struct ClientModeRequest {
    /// The frame encoding to ask the main server for.
    pub requested_encoding: RenderEncoding,
    /// The terminal to attach to, and whether to take it over.
    pub attach_request: Option<(String, bool)>,
    /// The escape-prefix state of a direct attach.
    pub attach_escape: Option<AttachEscapeState>,
    /// What the client logs as it connects.
    pub log_message: &'static str,
}

/// Run the full-app client: the encoding the render-encoding setting asks for (`None` when
/// unset), no terminal attach, no escape prefix. The session starts from this mode as
/// `ClientStartup::new` says (`startup_for`); the laws below `ClientStartup` state how it opens
/// and how an unreachable server or a rejected handshake ends it.
pub fn run_client(render_setting: Option<&str>) -> (r: ClientModeRequest)
    ensures
        r.requested_encoding == requested_encoding_for(match render_setting {
            Some(s) => Some(s@),
            None => None,
        }),
        r.attach_request is None,
        r.attach_escape is None,
        r.log_message@ == "connecting to server"@,
{
    ClientModeRequest {
        requested_encoding: requested_render_encoding(render_setting),
        attach_request: None,
        attach_escape: None,
        log_message: "connecting to server",
    }
}

/// Run a direct attach to terminal `terminal_id`: raw terminal output, the attach request and a
/// fresh escape prefix. Platforms without direct attach refuse it as unsupported. The session
/// starts from this mode as `ClientStartup::new` says; `lemma_attach_session_requests_its_terminal`
/// and `lemma_failed_attach_request_exits` state how it opens, and `lemma_prefix_q_detaches` how
/// it is left.
pub fn run_terminal_attach(terminal_id: String, takeover: bool, direct_attach_supported: bool) -> (r: Result<ClientModeRequest, IoFailure>)
    ensures
        direct_attach_supported ==> (r matches Ok(m) && m.requested_encoding == RenderEncoding::TerminalAnsi
            && m.attach_request == Some((terminal_id, takeover))
            && m.attach_escape == Some(AttachEscapeState { pending_prefix: false })
            && m.log_message@ == "attaching to terminal"@),
        !direct_attach_supported ==> (r matches Err(e) && e.kind == IoErrorKind::Unsupported
            && e.message@ == "direct terminal attach is not supported on Windows yet"@ && e.restart_confirm is None),
{
    if !direct_attach_supported {
        return Err(IoFailure::new(IoErrorKind::Unsupported, "direct terminal attach is not supported on Windows yet"));
    }
    Ok(ClientModeRequest {
        requested_encoding: RenderEncoding::TerminalAnsi,
        attach_request: Some((terminal_id, takeover)),
        attach_escape: Some(AttachEscapeState { pending_prefix: false }),
        log_message: "attaching to terminal",
    })
}

/// Pane graphics are used when configured, except by a direct terminal attach.
pub fn kitty_graphics_allowed(configured: bool, direct_attach_requested: bool) -> (r: bool)
    ensures
        r == (configured && !direct_attach_requested),
{
    configured && !direct_attach_requested
}

/// How the client renders, agreed with the main server in the handshake.
#[derive(Debug, Clone, Copy, PartialEq, Eq)]
pub struct ClientRenderPlan {
    pub surface_mode: ClientSurfaceMode,
    pub requested_encoding: RenderEncoding,
    pub server_size: (u16, u16),
    pub use_client_compositor: bool,
}

/// The content area beside the sidebar of a host terminal `cols` wide.
pub open spec fn content_width(cols: u16) -> u16 {
    if cols >= DEFAULT_SIDEBAR_WIDTH { (cols - DEFAULT_SIDEBAR_WIDTH) as u16 } else { 0 }
}

/// The render plan of a client with (or without) a supervisor model.
pub open spec fn client_plan(supervisor_model: Option<&ClientSupervisorModel>, requested_encoding: RenderEncoding, host_size: (u16, u16)) -> ClientRenderPlan {
    match supervisor_model {
        Some(_) => ClientRenderPlan {
            surface_mode: ClientSurfaceMode::EmbeddedContent,
            requested_encoding: RenderEncoding::SemanticFrame,
            server_size: (content_width(host_size.0), host_size.1),
            use_client_compositor: true,
        },
        None => ClientRenderPlan {
            surface_mode: ClientSurfaceMode::FullApp,
            requested_encoding,
            server_size: host_size,
            use_client_compositor: false,
        },
    }
}

/// With a supervisor model the client composes the screen itself: the server renders semantic
/// frames of the content area beside the sidebar. Without one the server renders the whole app
/// at the host size in the requested encoding.
pub fn client_render_plan(supervisor_model: Option<&ClientSupervisorModel>, requested_encoding: RenderEncoding, host_size: (u16, u16)) -> (r: ClientRenderPlan)
    ensures
        r == client_plan(supervisor_model, requested_encoding, host_size),

{
    match supervisor_model {
        Some(_) => {
            let width: u16 = if host_size.0 >= DEFAULT_SIDEBAR_WIDTH { host_size.0 - DEFAULT_SIDEBAR_WIDTH } else { 0 };
            ClientRenderPlan {
                surface_mode: ClientSurfaceMode::EmbeddedContent,
                requested_encoding: RenderEncoding::SemanticFrame,
                server_size: (width, host_size.1),
                use_client_compositor: true,
            }
        },
        None => ClientRenderPlan {
            surface_mode: ClientSurfaceMode::FullApp,
            requested_encoding,
            server_size: host_size,
            use_client_compositor: false,
        },
    }
}

/// On a host terminal at least as wide as the sidebar, the sidebar and the server's content area
/// share its width exactly.
pub proof fn lemma_content_beside_sidebar(cols: u16)
    requires
        cols >= DEFAULT_SIDEBAR_WIDTH,
    ensures
        content_width(cols) + DEFAULT_SIDEBAR_WIDTH == cols,
{
}

/// Whether a client that ended with `err` exits cleanly: a server shutdown (a detach among
/// them) is handled gracefully, with its message; any other error exits with status 1.
pub fn exits_cleanly_after(err: &ClientError) -> (r: bool)
    ensures
        r == (*err is ServerShutdown),
{
    match err {
        ClientError::ServerShutdown { .. } => true,
        _ => false,
    }
}

/// How the client process ends, once the terminal is restored: the message it prints to
/// stderr (after `herdr: `), if any, and its exit status.
#[derive(Debug, Clone, PartialEq, Eq)]
pub struct SessionExit {
    pub message: Option<String>,
    pub status: i32,
}

/// How a session that ended with `result` ends the process: silently with status 0 on success;
/// with the error's message and status 0 for a server shutdown; with the message and status 1
/// for any other error.
pub fn finish_session(result: &Result<(), ClientError>, ctx: &ErrorContext) -> (r: SessionExit)
    ensures
        match *result {
            Ok(()) => r.message is None && r.status == 0,
            Err(e) => (r.message matches Some(m) && m@ == client_error_message(e, *ctx))
                && r.status == (if e is ServerShutdown { 0i32 } else { 1i32 }),
        },
{
    match result {
        Ok(()) => SessionExit { message: None, status: 0 },
        Err(e) => SessionExit {
            message: Some(e.message(ctx)),
            status: if exits_cleanly_after(e) { 0 } else { 1 },
        },
    }
}

/// The key bindings a client asks a server for: a remote registered with local bindings sends
/// the local profile when there is one (`local_keys_toml`), else the server's own.
pub fn client_keybindings_from_snapshot(keybindings: RemoteKeybindingsSnapshot, local_keys_toml: Option<String>) -> (r: ClientKeybindings)
    ensures
        r == match keybindings {
            RemoteKeybindingsSnapshot::Server => ClientKeybindings::Server,
            RemoteKeybindingsSnapshot::Local => match local_keys_toml {
                Some(keys_toml) => ClientKeybindings::Local { keys_toml },
                None => ClientKeybindings::Server,
            },
        },
{
    match keybindings {
        RemoteKeybindingsSnapshot::Server => ClientKeybindings::Server,
        RemoteKeybindingsSnapshot::Local => match local_keys_toml {
            Some(keys_toml) => ClientKeybindings::Local { keys_toml },
            None => ClientKeybindings::Server,
        },
    }
}

/// The first message of a handshake: a Hello with the size, cell size, encoding, surface and
/// key bindings, as an app client or, for a direct attach, a terminal-attach client.
pub fn handshake_hello(
    cols: u16,
    rows: u16,
    cell_width_px: u32,
    cell_height_px: u32,
    requested_encoding: RenderEncoding,
    surface_mode: ClientSurfaceMode,
    keybindings: ClientKeybindings,
    direct_attach_requested: bool,
) -> (r: ClientMessage)
    ensures
        r == (ClientMessage::Hello {
            version: PROTOCOL_VERSION,
            cols,
            rows,
            cell_width_px,
            cell_height_px,
            requested_encoding,
            surface_mode,
            keybindings,
            launch_mode: if direct_attach_requested { ClientLaunchMode::TerminalAttach } else { ClientLaunchMode::App },
        }),
{
    let launch_mode = if direct_attach_requested { ClientLaunchMode::TerminalAttach } else { ClientLaunchMode::App };
    build_hello_message(cols, rows, cell_width_px, cell_height_px, requested_encoding, surface_mode, keybindings, launch_mode)
}

/// The server's answer to a Hello.
#[derive(Debug, Clone, PartialEq, Eq)]
pub enum HandshakeReply {
    /// The server's welcome: its protocol version, the encoding it will send, and why it
    /// refuses the client, if it does.
    Welcome { version: u32, encoding: RenderEncoding, error: Option<String> },
    /// Any other message.
    Other,
}

/// What a handshake comes to: the negotiated encoding, a rejection with the server's reason,
/// or a protocol error when the answer is not a welcome.
pub fn handshake_result(reply: HandshakeReply) -> (r: Result<RenderEncoding, ClientError>)
    ensures
        match reply {
            HandshakeReply::Welcome { version, encoding, error } => match error {
                Some(e) => r == Err::<RenderEncoding, ClientError>(ClientError::HandshakeRejected { version, error: e }),
                None => r == Ok::<RenderEncoding, ClientError>(encoding),
            },
            HandshakeReply::Other => r matches Err(ClientError::Protocol(FramingError::Io(io)))
                && io.kind == IoErrorKind::InvalidData && io.message@ == "expected Welcome message"@
                && io.restart_confirm is None,
        },
{
    match reply {
        HandshakeReply::Welcome { version, encoding, error } => match error {
            Some(e) => Err(ClientError::HandshakeRejected { version, error: e }),
            None => Ok(encoding),
        },
        HandshakeReply::Other => Err(ClientError::Protocol(FramingError::Io(
            IoFailure::new(IoErrorKind::InvalidData, "expected Welcome message"),
        ))),
    }
}

/// The key bindings a launch asks the main server for: with the remote-keybindings setting
/// "local", the local profile when there is one (`local_keys_toml`); otherwise the server's own.
pub fn requested_keybindings(setting: Option<&str>, local_keys_toml: Option<String>) -> (r: ClientKeybindings)
    ensures
        r == match setting {
            Some(v) => if v@ == "local"@ {
                match local_keys_toml {
                    Some(keys_toml) => ClientKeybindings::Local { keys_toml },
                    None => ClientKeybindings::Server,
                }
            } else {
                ClientKeybindings::Server
            },
            None => ClientKeybindings::Server,
        },
{
    match setting {
        Some(v) => if str_is(v, "local") {
            match local_keys_toml {
                Some(keys_toml) => ClientKeybindings::Local { keys_toml },
                None => ClientKeybindings::Server,
            }
        } else {
            ClientKeybindings::Server
        },
        None => ClientKeybindings::Server,
    }
}

/// What setting the handshake read timeout comes to: success, or a connection failure; on
/// Windows a socket that cannot time out reads is accepted as it is.
pub fn set_handshake_recv_timeout(result: Result<(), IoFailure>, on_windows: bool) -> (r: Result<(), ClientError>)
    ensures
        match result {
            Ok(()) => r is Ok,
            Err(e) => if on_windows && e.kind == IoErrorKind::Unsupported {
                r is Ok
            } else {
                r == Err::<(), ClientError>(ClientError::ConnectionFailed(e))
            },
        },
{
    match result {
        Ok(()) => Ok(()),
        Err(e) => {
            let unsupported = match e.kind {
                IoErrorKind::Unsupported => true,
                _ => false,
            };
            if on_windows && unsupported {
                Ok(())
            } else {
                Err(ClientError::ConnectionFailed(e))
            }
        },
    }
}

/// How far a client session's start has come.
#[derive(Debug, Clone, Copy, PartialEq, Eq)]
pub enum StartupPhase {
    /// Connecting to the main server's client socket.
    Connecting,
    /// The Hello is sent; waiting for the welcome.
    Handshaking,
    /// The terminal-attach request is being written.
    Attaching,
    /// The terminal is set up and the loop runs.
    Running,
    /// The start failed; the process exits.
    Failed,
}

/// What happened during a session's start.
#[derive(Debug)]
pub enum StartupEvent {
    /// The main server's socket could not be reached.
    ConnectFailed(IoFailure),
    /// The main server's socket is connected.
    Connected,
    /// The handshake finished: the negotiated encoding, or why it failed.
    HandshakeDone(Result<RenderEncoding, ClientError>),
    /// The terminal-attach request was written, or writing it failed.
    AttachWritten(Result<(), IoFailure>),
}

/// What the start of a session asks of the client.
#[derive(Debug)]
pub enum StartupAction {
    /// Write this message to the main server.
    Send(ClientMessage),
    /// Put the host terminal into client mode (raw mode, mouse capture as given; the client
    /// protocols unless this is a direct attach).
    SetUpTerminal { direct_attach: bool, mouse_capture: bool },
    /// Run the event loop with the negotiated encoding.
    StartLoop(RenderEncoding),
    /// Print the message (after `herdr: `) and exit with the status; the terminal was never set up.
    Exit(SessionExit),
}

/// The start of a client session.
#[derive(Debug)]
pub struct ClientStartup {
    pub phase: StartupPhase,
    /// The Hello the session opens with, until it is sent.
    pub hello: Option<ClientMessage>,
    /// The encoding the handshake negotiated.
    pub negotiated: Option<RenderEncoding>,
    /// The terminal-attach request, for a direct attach.
    pub attach_request: Option<(String, bool)>,
    /// A direct attach (its escape prefix is armed).
    pub direct_attach: bool,
    /// Host mouse capture once the terminal is set up.
    pub mouse_capture: bool,
}

/// The Hello of a session in `mode`: the render plan's size, encoding and surface, the cell size,
/// the key bindings, and the attach launch mode when the mode attaches to a terminal.
pub open spec fn session_hello(mode: ClientModeRequest, plan: ClientRenderPlan, cell_width_px: u32, cell_height_px: u32, keybindings: ClientKeybindings) -> ClientMessage {
    ClientMessage::Hello {
        version: PROTOCOL_VERSION,
        cols: plan.server_size.0,
        rows: plan.server_size.1,
        cell_width_px,
        cell_height_px,
        requested_encoding: plan.requested_encoding,
        surface_mode: plan.surface_mode,
        keybindings,
        launch_mode: if mode.attach_request is Some { ClientLaunchMode::TerminalAttach } else { ClientLaunchMode::App },
    }
}

/// `n` and `r` are the next step of start `s` on `event`: an unreachable server or a failed
/// handshake prints the error and exits with status 1, and a failed attach request says so and
/// exits with status 1, each before the terminal is touched; a connection sends the Hello; a
/// handshake sends the terminal-attach request when there is one, and otherwise (as the attach
/// request's write does) sets the terminal up and starts the loop with the negotiated encoding.
/// Any other event changes nothing.
pub open spec fn startup_done(s: ClientStartup, n: ClientStartup, event: StartupEvent, ctx: ErrorContext, r: Seq<StartupAction>) -> bool {
    let unchanged = n == s && r == Seq::<StartupAction>::empty();
    match s.phase {
        StartupPhase::Connecting => match event {
            StartupEvent::ConnectFailed(err) => {
                &&& n == (ClientStartup { phase: StartupPhase::Failed, ..s })
                &&& r.len() == 1
                &&& r[0] matches StartupAction::Exit(x) && x.status == 1
                    && (x.message matches Some(m) && m@ == client_error_message(ClientError::ConnectionFailed(err), ctx))
            },
            StartupEvent::Connected => {
                &&& n == (ClientStartup { phase: StartupPhase::Handshaking, hello: None, ..s })
                &&& r == match s.hello {
                        Some(h) => seq![StartupAction::Send(h)],
                        None => Seq::<StartupAction>::empty(),
                    }
            },
            _ => unchanged,
        },
        StartupPhase::Handshaking => match event {
            StartupEvent::HandshakeDone(Err(e)) => {
                &&& n == (ClientStartup { phase: StartupPhase::Failed, ..s })
                &&& r.len() == 1
                &&& r[0] matches StartupAction::Exit(x) && x.status == 1
                    && (x.message matches Some(m) && m@ == client_error_message(e, ctx))
            },
            StartupEvent::HandshakeDone(Ok(encoding)) => match s.attach_request {
                Some((terminal_id, takeover)) => {
                    &&& n == (ClientStartup { phase: StartupPhase::Attaching, negotiated: Some(encoding), ..s })
                    &&& r == seq![StartupAction::Send(ClientMessage::AttachTerminal { terminal_id, takeover })]
                },
                None => {
                    &&& n == (ClientStartup { phase: StartupPhase::Running, negotiated: Some(encoding), ..s })
                    &&& r == seq![
                            StartupAction::SetUpTerminal { direct_attach: s.direct_attach, mouse_capture: s.mouse_capture },
                            StartupAction::StartLoop(encoding),
                        ]
                },
            },
            _ => unchanged,
        },
        StartupPhase::Attaching => match event {
            StartupEvent::AttachWritten(written) => if written is Ok {
                &&& n == (ClientStartup { phase: StartupPhase::Running, ..s })
                &&& r == seq![
                        StartupAction::SetUpTerminal { direct_attach: s.direct_attach, mouse_capture: s.mouse_capture },
                        StartupAction::StartLoop(match s.negotiated {
                            Some(e) => e,
                            None => RenderEncoding::TerminalAnsi,
                        }),
                    ]
            } else {
                &&& n == (ClientStartup { phase: StartupPhase::Failed, ..s })
                &&& r.len() == 1
                &&& r[0] matches StartupAction::Exit(x) && x.status == 1
                    && (x.message matches Some(m) && m@ == "failed to request terminal attach: "@ + written->Err_0.message@)
            },
            _ => unchanged,
        },
        _ => unchanged,
    }
}

/// The start of a session in `mode` (see `ClientStartup::new`).
pub open spec fn startup_for(
    mode: ClientModeRequest,
    model: Option<&ClientSupervisorModel>,
    host_size: (u16, u16),
    cell_width_px: u32,
    cell_height_px: u32,
    keybindings: ClientKeybindings,
    mouse_capture_setting: bool,
) -> ClientStartup {
    ClientStartup {
        phase: StartupPhase::Connecting,
        hello: Some(session_hello(mode, client_plan(model, mode.requested_encoding, host_size),
            cell_width_px, cell_height_px, keybindings)),
        negotiated: None,
        attach_request: mode.attach_request,
        direct_attach: mode.attach_escape is Some,
        mouse_capture: mouse_capture_setting || model is Some,
    }
}

/// A full-app session (a mode `run_client` gives, with the supervisor model the client
/// bootstrapped) opens, once connected, by sending exactly one Hello: the app launch mode, the
/// embedded-content surface and semantic frames of the content area beside the sidebar, whatever
/// encoding the render setting asked for. It never asks to attach a terminal.
pub proof fn lemma_app_session_opens_with_embedded_hello(
    mode: ClientModeRequest,
    model: ClientSupervisorModel,
    host_size: (u16, u16),
    cell_width_px: u32,
    cell_height_px: u32,
    keybindings: ClientKeybindings,
    mouse_capture_setting: bool,
    ctx: ErrorContext,
    n: ClientStartup,
    r: Seq<StartupAction>,
)
    requires
        mode.attach_request is None,
        mode.attach_escape is None,
        startup_done(startup_for(mode, Some(&model), host_size, cell_width_px, cell_height_px, keybindings,
            mouse_capture_setting), n, StartupEvent::Connected, ctx, r),
    ensures
        r == seq![StartupAction::Send(ClientMessage::Hello {
            version: PROTOCOL_VERSION,
            cols: content_width(host_size.0),
            rows: host_size.1,
            cell_width_px,
            cell_height_px,
            requested_encoding: RenderEncoding::SemanticFrame,
            surface_mode: ClientSurfaceMode::EmbeddedContent,
            keybindings,
            launch_mode: ClientLaunchMode::App,
        })],
        n.phase == StartupPhase::Handshaking,
        n.attach_request is None,
{
}

/// A session whose server cannot be reached prints the connect error (with the socket path and
/// how to start the server) and exits with status 1; the terminal is never set up and nothing is
/// sent.
pub proof fn lemma_unreachable_server_exits_before_terminal(s: ClientStartup, n: ClientStartup, err: IoFailure, ctx: ErrorContext, r: Seq<StartupAction>)
    requires
        s.phase == StartupPhase::Connecting,
        startup_done(s, n, StartupEvent::ConnectFailed(err), ctx, r),
    ensures
        r.len() == 1,
        r[0] matches StartupAction::Exit(x) && x.status == 1
            && (x.message matches Some(m) && m@ == client_error_message(ClientError::ConnectionFailed(err), ctx)),
        n.phase == StartupPhase::Failed,
{
}

/// A session whose handshake the server rejects prints the rejection and exits with status 1,
/// before the terminal is set up.
pub proof fn lemma_rejected_handshake_exits_before_terminal(s: ClientStartup, n: ClientStartup, e: ClientError, ctx: ErrorContext, r: Seq<StartupAction>)
    requires
        s.phase == StartupPhase::Handshaking,
        startup_done(s, n, StartupEvent::HandshakeDone(Err(e)), ctx, r),
    ensures
        r.len() == 1,
        r[0] matches StartupAction::Exit(x) && x.status == 1
            && (x.message matches Some(m) && m@ == client_error_message(e, ctx)),
        n.phase == StartupPhase::Failed,
{
}

/// A direct attach (a mode `run_terminal_attach` gives) opens with a terminal-attach Hello for the
/// full app surface in terminal output, at the host size; once the handshake succeeds its next
/// message asks to attach the terminal, unchanged, before the terminal is set up.
pub proof fn lemma_attach_session_requests_its_terminal(
    mode: ClientModeRequest,
    terminal_id: String,
    takeover: bool,
    host_size: (u16, u16),
    keybindings: ClientKeybindings,
    mouse_capture_setting: bool,
    ctx: ErrorContext,
    encoding: RenderEncoding,
    n1: ClientStartup,
    r1: Seq<StartupAction>,
    n2: ClientStartup,
    r2: Seq<StartupAction>,
)
    requires
        mode.requested_encoding == RenderEncoding::TerminalAnsi,
        mode.attach_request == Some((terminal_id, takeover)),
        startup_done(startup_for(mode, None, host_size, 0, 0, keybindings, mouse_capture_setting), n1,
            StartupEvent::Connected, ctx, r1),
        startup_done(n1, n2, StartupEvent::HandshakeDone(Ok(encoding)), ctx, r2),
    ensures
        r1 == seq![StartupAction::Send(ClientMessage::Hello {
            version: PROTOCOL_VERSION,
            cols: host_size.0,
            rows: host_size.1,
            cell_width_px: 0,
            cell_height_px: 0,
            requested_encoding: RenderEncoding::TerminalAnsi,
            surface_mode: ClientSurfaceMode::FullApp,
            keybindings,
            launch_mode: ClientLaunchMode::TerminalAttach,
        })],
        r2 == seq![StartupAction::Send(ClientMessage::AttachTerminal { terminal_id, takeover })],
        n2.phase == StartupPhase::Attaching,
{
}

/// A direct attach whose attach request cannot be written prints why and exits with status 1,
/// without setting the terminal up.
pub proof fn lemma_failed_attach_request_exits(s: ClientStartup, n: ClientStartup, err: IoFailure, ctx: ErrorContext, r: Seq<StartupAction>)
    requires
        s.phase == StartupPhase::Attaching,
        startup_done(s, n, StartupEvent::AttachWritten(Err(err)), ctx, r),
    ensures
        r.len() == 1,
        r[0] matches StartupAction::Exit(x) && x.status == 1
            && (x.message matches Some(m) && m@ == "failed to request terminal attach: "@ + err.message@),
        n.phase == StartupPhase::Failed,
{
}

impl ClientStartup {
    /// The start of a session in `mode`, with the supervisor model the client bootstrapped (none
    /// for a direct attach), on a host of `host_size` with the given cell size, key bindings and
    /// configured mouse capture.
    pub fn new(
        mode: ClientModeRequest,
        model: Option<&ClientSupervisorModel>,
        host_size: (u16, u16),
        cell_width_px: u32,
        cell_height_px: u32,
        keybindings: ClientKeybindings,
        mouse_capture_setting: bool,
    ) -> (r: ClientStartup)
        ensures
            r == startup_for(mode, model, host_size, cell_width_px, cell_height_px, keybindings, mouse_capture_setting),
            r.phase == StartupPhase::Connecting,
            r.hello == Some(session_hello(mode, client_plan(model, mode.requested_encoding, host_size),
                cell_width_px, cell_height_px, keybindings)),
            r.negotiated is None,
            r.attach_request == mode.attach_request,
            r.direct_attach == mode.attach_escape is Some,
            r.mouse_capture == (mouse_capture_setting || model is Some),
    {
        let plan = client_render_plan(model, mode.requested_encoding, host_size);
        let direct = mode.attach_request.is_some();
        let hello = handshake_hello(plan.server_size.0, plan.server_size.1, cell_width_px, cell_height_px,
            plan.requested_encoding, plan.surface_mode, keybindings, direct);
        ClientStartup {
            phase: StartupPhase::Connecting,
            hello: Some(hello),
            negotiated: None,
            attach_request: mode.attach_request,
            direct_attach: mode.attach_escape.is_some(),
            mouse_capture: crate::schedule::desired_mouse_capture(mouse_capture_setting, model.is_some()),
        }
    }

    /// The next step of the start (see `startup_done`).
    pub fn startup_step(&mut self, event: StartupEvent, ctx: &ErrorContext) -> (r: Vec<StartupAction>)
        ensures
            startup_done(*old(self), *final(self), event, *ctx, r@),
    {
        let ghost ev = event;
        let r = match (self.phase, event) {
            (StartupPhase::Connecting, StartupEvent::ConnectFailed(err)) => {
                self.phase = StartupPhase::Failed;
                let e = ClientError::ConnectionFailed(err);
                let message = e.message(ctx);
                let r = vec![StartupAction::Exit(SessionExit { message: Some(message), status: 1 })];
                r
            },
            (StartupPhase::Connecting, StartupEvent::Connected) => {
                self.phase = StartupPhase::Handshaking;
                match self.hello.take() {
                    Some(hello) => {
                        let r = vec![StartupAction::Send(hello)];
                        assert(r@ =~= seq![StartupAction::Send(hello)]);
                                r
                    },
                    None => {
                        let r: Vec<StartupAction> = Vec::new();
                        assert(r@ =~= Seq::<StartupAction>::empty());
                        r
                    },
                }
            },
            (StartupPhase::Handshaking, StartupEvent::HandshakeDone(Err(e))) => {
                self.phase = StartupPhase::Failed;
                let r = vec![StartupAction::Exit(SessionExit { message: Some(e.message(ctx)), status: 1 })];
                r
            },
            (StartupPhase::Handshaking, StartupEvent::HandshakeDone(Ok(encoding))) => {
                self.negotiated = Some(encoding);
                match &self.attach_request {
                    Some((terminal_id, takeover)) => {
                        let attach = ClientMessage::AttachTerminal { terminal_id: terminal_id.clone(), takeover: *takeover };
                        self.phase = StartupPhase::Attaching;
                        let r = vec![StartupAction::Send(attach)];
                        assert(r@ =~= seq![StartupAction::Send(attach)]);
                                r
                    },
                    None => {
                        self.phase = StartupPhase::Running;
                        let r = vec![
                            StartupAction::SetUpTerminal { direct_attach: self.direct_attach, mouse_capture: self.mouse_capture },
                            StartupAction::StartLoop(encoding),
                        ];
                        assert(r@ =~= seq![
                            StartupAction::SetUpTerminal { direct_attach: self.direct_attach, mouse_capture: self.mouse_capture },
                            StartupAction::StartLoop(encoding),
                        ]);
                                r
                    },
                }
            },
            (StartupPhase::Attaching, StartupEvent::AttachWritten(Err(err))) => {
                self.phase = StartupPhase::Failed;
                let message = append_str(String::from_str("failed to request terminal attach: "), err.message.as_str());
                let r = vec![StartupAction::Exit(SessionExit { message: Some(message), status: 1 })];
                r
            },
            (StartupPhase::Attaching, StartupEvent::AttachWritten(Ok(()))) => {
                self.phase = StartupPhase::Running;
                let encoding = match self.negotiated {
                    Some(e) => e,
                    None => RenderEncoding::TerminalAnsi,
                };
                let r = vec![
                    StartupAction::SetUpTerminal { direct_attach: self.direct_attach, mouse_capture: self.mouse_capture },
                    StartupAction::StartLoop(encoding),
                ];
                assert(r@ =~= seq![
                    StartupAction::SetUpTerminal { direct_attach: self.direct_attach, mouse_capture: self.mouse_capture },
                    StartupAction::StartLoop(encoding),
                ]);
                proof {
                    let sd = *old(self);
                    assert(r@ == seq![
                        StartupAction::SetUpTerminal { direct_attach: sd.direct_attach, mouse_capture: sd.mouse_capture },
                        StartupAction::StartLoop(match sd.negotiated {
                            Some(e) => e,
                            None => RenderEncoding::TerminalAnsi,
                        }),
                    ]);
                    assert(startup_done(sd, *self, ev, *ctx, r@));
                }
                r
            },
            _ => {
                let r: Vec<StartupAction> = Vec::new();
                assert(r@ =~= Seq::<StartupAction>::empty());
                r
            },
        };
        r
    }
}

} // verus!
