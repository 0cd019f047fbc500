//! Messages and API requests the client sends to its servers.

use vstd::prelude::*;
use crate::attach::{AttachScrollDirection, AttachScrollSource};
use crate::text::str_is;

verus! {

/// The protocol version this client speaks.
pub const PROTOCOL_VERSION: u32 = 7;

/// Identity of a server the client talks to: the local main server or a registered remote.
#[derive(Debug, Clone, PartialEq, Eq, Hash)]
pub enum ServerId {
    Main,
    Secondary(String),
}

impl View for ServerId {
    /// `None` for the main server, the registry id for a secondary.
    type V = Option<Seq<char>>;

    open spec fn view(&self) -> Option<Seq<char>> {
        match self {
            ServerId::Main => None,
            ServerId::Secondary(id) => Some(id@),
        }
    }
}

impl ServerId {
    /// The local main server.
    pub fn main() -> (r: ServerId)
        ensures
            r@ == None::<Seq<char>>,
    {
        ServerId::Main
    }

    /// The secondary server registered under `remote_id`.
    pub fn secondary(remote_id: &str) -> (r: ServerId)
        ensures
            r@ == Some(remote_id@),
    {
        ServerId::Secondary(String::from_str(remote_id))
    }

    /// An identical copy.
    pub fn duplicate(&self) -> (r: ServerId)
        ensures
            r == *self,
    {
        match self {
            ServerId::Main => ServerId::Main,
            ServerId::Secondary(id) => ServerId::Secondary(id.clone()),
        }
    }

    /// Whether both ids name the same server.
    pub fn same_as(&self, other: &ServerId) -> (r: bool)
        ensures
            r == (self@ == other@),
    {
        match (self, other) {
            (ServerId::Main, ServerId::Main) => true,
            (ServerId::Secondary(a), ServerId::Secondary(b)) => str_is(a.as_str(), b.as_str()),
            _ => false,
        }
    }

    /// Whether this is the main server.
    pub fn is_main(&self) -> (r: bool)
        ensures
            r == (self@ is None),
    {
        matches!(self, ServerId::Main)
    }
}

/// How the server encodes the frames it sends.
#[derive(Debug, Clone, Copy, PartialEq, Eq)]
pub enum RenderEncoding {
    TerminalAnsi,
    SemanticFrame,
}

/// Whether the server renders the whole app or only the content area.
#[derive(Debug, Clone, Copy, PartialEq, Eq)]
pub enum ClientSurfaceMode {
    FullApp,
    EmbeddedContent,
}

/// Whether the client runs the app or attaches to one terminal.
#[derive(Debug, Clone, Copy, PartialEq, Eq)]
pub enum ClientLaunchMode {
    App,
    TerminalAttach,
}

/// Which key bindings the server applies for this client.
#[derive(Debug, Clone, PartialEq, Eq)]
pub enum ClientKeybindings {
    Server,
    Local { keys_toml: String },
}

/// Messages from the client to a server.
#[derive(Debug, Clone, PartialEq, Eq)]
pub enum ClientMessage {
    Hello {
        version: u32,
        cols: u16,
        rows: u16,
        cell_width_px: u32,
        cell_height_px: u32,
        requested_encoding: RenderEncoding,
        surface_mode: ClientSurfaceMode,
        keybindings: ClientKeybindings,
        launch_mode: ClientLaunchMode,
    },
    AttachTerminal { terminal_id: String, takeover: bool },
    OpenSettings,
    OpenKeybindHelp,
    /// Raw terminal input for the server's focused pane.
    Input { data: Vec<u8> },
    /// The size the server renders for.
    Resize { cols: u16, rows: u16, cell_width_px: u32, cell_height_px: u32 },
    /// The client leaves.
    Detach,
    /// A direct attach asks the attached terminal to scroll.
    AttachScroll {
        source: AttachScrollSource,
        direction: AttachScrollDirection,
        lines: u16,
        column: Option<u16>,
        row: Option<u16>,
        modifiers: u8,
    },
}

/// The Hello message that opens a client session.
pub fn build_hello_message(
    cols: u16,
    rows: u16,
    cell_width_px: u32,
    cell_height_px: u32,
    requested_encoding: RenderEncoding,
    surface_mode: ClientSurfaceMode,
    keybindings: ClientKeybindings,
    launch_mode: ClientLaunchMode,
) -> (r: ClientMessage)
    ensures
        r == (ClientMessage::Hello {
            version: PROTOCOL_VERSION,
            cols,
            rows,
            cell_width_px,
            cell_height_px,
            requested_encoding,
            surface_mode,
            keybindings,
            launch_mode,
        }),
{
    ClientMessage::Hello {
        version: PROTOCOL_VERSION,
        cols,
        rows,
        cell_width_px,
        cell_height_px,
        requested_encoding,
        surface_mode,
        keybindings,
        launch_mode,
    }
}

/// The encoding requested through the render-encoding environment setting (`None` when unset).
pub open spec fn requested_encoding_for(setting: Option<Seq<char>>) -> RenderEncoding {
    match setting {
        Some(v) => if v == "terminal-ansi"@ || v == "terminal_ansi"@ || v == "ansi"@ {
            RenderEncoding::TerminalAnsi
        } else {
            RenderEncoding::SemanticFrame
        },
        None => RenderEncoding::SemanticFrame,
    }
}

/// The frame encoding to request from the main server, given the render-encoding setting.
pub fn requested_render_encoding(setting: Option<&str>) -> (r: RenderEncoding)
    ensures
        r == requested_encoding_for(match setting { Some(s) => Some(s@), None => None }),
{
    match setting {
        Some(v) => if str_is(v, "terminal-ansi") || str_is(v, "terminal_ansi") || str_is(v, "ansi") {
            RenderEncoding::TerminalAnsi
        } else {
            RenderEncoding::SemanticFrame
        },
        None => RenderEncoding::SemanticFrame,
    }
}

/// Key bindings a registered remote asks for.
#[derive(Debug, Clone, Copy, PartialEq, Eq)]
pub enum RemoteKeybindingsSnapshot {
    Server,
    Local,
}

/// Parameters of `remote.add`.
#[derive(Debug, Clone, PartialEq, Eq)]
pub struct RemoteAddParams {
    pub name: Option<String>,
    pub target: String,
    pub session: Option<String>,
    pub keybindings: RemoteKeybindingsSnapshot,
}

/// Parameters of `remote.set_enabled`.
#[derive(Debug, Clone, PartialEq, Eq)]
pub struct RemoteSetEnabledParams {
    pub remote_id: String,
    pub enabled: bool,
}

/// Parameters of `remote.set_auto_update`.
#[derive(Debug, Clone, PartialEq, Eq)]
pub struct RemoteSetAutoUpdateParams {
    pub remote_id: String,
    pub auto_update: bool,
}

/// Parameters of `remote.set_session`.
#[derive(Debug, Clone, PartialEq, Eq)]
pub struct RemoteSetSessionParams {
    pub remote_id: String,
    pub session: Option<String>,
}

/// Parameters of `remote.remove`.
#[derive(Debug, Clone, PartialEq, Eq)]
pub struct RemoteRemoveParams {
    pub remote_id: String,
}

/// A workspace named by id.
#[derive(Debug, Clone, PartialEq, Eq)]
pub struct WorkspaceTarget {
    pub workspace_id: String,
}

/// An agent named by id.
#[derive(Debug, Clone, PartialEq, Eq)]
pub struct AgentTarget {
    pub agent_id: String,
}

/// Parameters of `workspace.create`.
#[derive(Debug, Clone, PartialEq, Eq)]
pub struct WorkspaceCreateParams {
    pub cwd: Option<String>,
    pub focus: bool,
    pub label: Option<String>,
}

/// Parameters of `workspace.rename`.
#[derive(Debug, Clone, PartialEq, Eq)]
pub struct WorkspaceRenameParams {
    pub workspace_id: String,
    pub label: String,
}

/// Parameters of `workspace.reorder`.
#[derive(Debug, Clone, PartialEq, Eq)]
pub struct WorkspaceReorderParams {
    pub workspace_id: String,
    pub insert_index: usize,
}

/// Parameters of `worktree.create`.
#[derive(Debug, Clone, PartialEq, Eq)]
pub struct WorktreeCreateParams {
    pub workspace_id: Option<String>,
    pub branch: Option<String>,
    pub focus: bool,
}

/// Parameters of `worktree.remove`.
#[derive(Debug, Clone, PartialEq, Eq)]
pub struct WorktreeRemoveParams {
    pub workspace_id: String,
    pub force: bool,
}

/// Parameters of `worktree.open`.
#[derive(Debug, Clone, PartialEq, Eq)]
pub struct WorktreeOpenParams {
    pub workspace_id: Option<String>,
    pub path: Option<String>,
    pub focus: bool,
}

/// Parameters of `worktree.list`.
#[derive(Debug, Clone, PartialEq, Eq)]
pub struct WorktreeListParams {
    pub workspace_id: Option<String>,
    pub cwd: Option<String>,
}

/// Event kinds a client can subscribe to.
#[derive(Debug, Clone, PartialEq, Eq)]
pub enum Subscription {
    WorkspaceCreated,
    WorkspaceUpdated,
    WorkspaceRenamed,
    WorkspaceClosed,
    WorkspaceFocused,
    TabCreated,
    TabClosed,
    TabFocused,
    TabRenamed,
    PaneCreated,
    PaneClosed,
    PaneFocused,
    PaneExited,
    PaneAgentDetected,
    PaneAgentStatusChanged { pane_id: Option<String>, agent_status: Option<String> },
}

/// Parameters of `events.subscribe`.
#[derive(Debug, Clone, PartialEq, Eq)]
pub struct EventsSubscribeParams {
    pub subscriptions: Vec<Subscription>,
}

/// API methods the client calls.
#[derive(Debug, Clone, PartialEq, Eq)]
pub enum Method {
    ServerReloadConfig,
    SessionList,
    WorkspaceCreate(WorkspaceCreateParams),
    WorkspaceFocus(WorkspaceTarget),
    WorkspaceRename(WorkspaceRenameParams),
    WorkspaceClose(WorkspaceTarget),
    WorkspaceReorder(WorkspaceReorderParams),
    AgentFocus(AgentTarget),
    WorktreeCreate(WorktreeCreateParams),
    WorktreeRemove(WorktreeRemoveParams),
    WorktreeOpen(WorktreeOpenParams),
    WorktreeList(WorktreeListParams),
    RemoteAdd(RemoteAddParams),
    RemoteSetEnabled(RemoteSetEnabledParams),
    RemoteSetAutoUpdate(RemoteSetAutoUpdateParams),
    RemoteSetSession(RemoteSetSessionParams),
    RemoteRemove(RemoteRemoveParams),
    EventsSubscribe(EventsSubscribeParams),
}

/// One API request: a correlation id and a method.
#[derive(Debug, Clone, PartialEq, Eq)]
pub struct Request {
    pub id: String,
    pub method: Method,
}

/// The sidebar-summary event kinds the client subscribes to, in order.
pub open spec fn summary_subscriptions() -> Seq<Subscription> {
    seq![
        Subscription::WorkspaceCreated,
        Subscription::WorkspaceUpdated,
        Subscription::WorkspaceRenamed,
        Subscription::WorkspaceClosed,
        Subscription::WorkspaceFocused,
        Subscription::TabCreated,
        Subscription::TabClosed,
        Subscription::TabFocused,
        Subscription::TabRenamed,
        Subscription::PaneCreated,
        Subscription::PaneClosed,
        Subscription::PaneFocused,
        Subscription::PaneExited,
        Subscription::PaneAgentDetected,
        Subscription::PaneAgentStatusChanged { pane_id: None, agent_status: None },
    ]
}

/// The `events.subscribe` request that keeps a server's sidebar summary fresh.
pub fn summary_refresh_subscription_request(id: String) -> (r: Request)
    ensures
        r.id == id,
        r.method matches Method::EventsSubscribe(p) && p.subscriptions@ == summary_subscriptions(),
{
    let mut subscriptions: Vec<Subscription> = Vec::new();
    subscriptions.push(Subscription::WorkspaceCreated);
    subscriptions.push(Subscription::WorkspaceUpdated);
    subscriptions.push(Subscription::WorkspaceRenamed);
    subscriptions.push(Subscription::WorkspaceClosed);
    subscriptions.push(Subscription::WorkspaceFocused);
    subscriptions.push(Subscription::TabCreated);
    subscriptions.push(Subscription::TabClosed);
    subscriptions.push(Subscription::TabFocused);
    subscriptions.push(Subscription::TabRenamed);
    subscriptions.push(Subscription::PaneCreated);
    subscriptions.push(Subscription::PaneClosed);
    subscriptions.push(Subscription::PaneFocused);
    subscriptions.push(Subscription::PaneExited);
    subscriptions.push(Subscription::PaneAgentDetected);
    subscriptions.push(Subscription::PaneAgentStatusChanged { pane_id: None, agent_status: None });
    assert(subscriptions@ =~= summary_subscriptions());
    Request { id, method: Method::EventsSubscribe(EventsSubscribeParams { subscriptions }) }
}

/// The kind of registry mutation a remote-management request performs.
#[derive(Debug, Clone, PartialEq, Eq)]
pub enum RemoteManageAction {
    SetEnabled { enabled: bool },
    SetAutoUpdate { auto_update: bool },
    SetSession { session: Option<String> },
    Delete,
}

/// Short verb for a failed manage request, shown on the host banner's outcome line.
pub open spec fn manage_action_label(action: RemoteManageAction) -> Seq<char> {
    match action {
        RemoteManageAction::SetEnabled { enabled } => if enabled { "enable"@ } else { "disable"@ },
        RemoteManageAction::SetAutoUpdate { .. } => "auto-update toggle"@,
        RemoteManageAction::SetSession { .. } => "session switch"@,
        RemoteManageAction::Delete => "remove"@,
    }
}

/// Short verb for a failed manage request.
pub fn remote_manage_action_label(action: &RemoteManageAction) -> (r: &'static str)
    ensures
        r@ == manage_action_label(*action),
{
    match action {
        RemoteManageAction::SetEnabled { enabled } => if *enabled { "enable" } else { "disable" },
        RemoteManageAction::SetAutoUpdate { .. } => "auto-update toggle",
        RemoteManageAction::SetSession { .. } => "session switch",
        RemoteManageAction::Delete => "remove",
    }
}

/// The registry request a manage action sends, for the remote registered as `remote_id`.
pub open spec fn manage_request_matches(r: Request, action: RemoteManageAction, remote_id: Seq<char>) -> bool {
    &&& r.id@ == "client:remote-manage"@
    &&& match action {
        RemoteManageAction::SetEnabled { enabled } => r.method matches Method::RemoteSetEnabled(p)
            && p.remote_id@ == remote_id && p.enabled == enabled,
        RemoteManageAction::SetAutoUpdate { auto_update } => r.method matches Method::RemoteSetAutoUpdate(p)
            && p.remote_id@ == remote_id && p.auto_update == auto_update,
        RemoteManageAction::SetSession { session } => r.method matches Method::RemoteSetSession(p)
            && p.remote_id@ == remote_id && p.session == session,
        RemoteManageAction::Delete => r.method matches Method::RemoteRemove(p) && p.remote_id@ == remote_id,
    }
}

/// Build the registry request for a manage action.
pub fn remote_manage_request(action: &RemoteManageAction, remote_id: &str) -> (r: Request)
    ensures
        manage_request_matches(r, *action, remote_id@),
{
    let method = match action {
        RemoteManageAction::SetEnabled { enabled } => Method::RemoteSetEnabled(
            RemoteSetEnabledParams { remote_id: String::from_str(remote_id), enabled: *enabled },
        ),
        RemoteManageAction::SetAutoUpdate { auto_update } => Method::RemoteSetAutoUpdate(
            RemoteSetAutoUpdateParams { remote_id: String::from_str(remote_id), auto_update: *auto_update },
        ),
        RemoteManageAction::SetSession { session } => Method::RemoteSetSession(
            RemoteSetSessionParams { remote_id: String::from_str(remote_id), session: clone_opt_string(session) },
        ),
        RemoteManageAction::Delete => Method::RemoteRemove(
            RemoteRemoveParams { remote_id: String::from_str(remote_id) },
        ),
    };
    Request { id: String::from_str("client:remote-manage"), method }
}

/// An identical copy of an optional string.
pub fn clone_opt_string(s: &Option<String>) -> (r: Option<String>)
    ensures
        r == *s,
{
    match s {
        Some(v) => Some(v.clone()),
        None => None,
    }
}

} // verus!
