//! Client input dispatch: what a sidebar, menu, overlay or keyboard outcome asks the event loop
//! to do, and the keyboard focus stepping across servers.

use vstd::prelude::*;
use crate::protocol::{
    ClientMessage, Method, RemoteKeybindingsSnapshot, Request, ServerId, WorkspaceRenameParams,
    WorkspaceTarget, AgentTarget, WorktreeCreateParams, WorktreeOpenParams, WorktreeRemoveParams,
};
use crate::graphics::push_all;
use crate::rawinput::{MouseButton, MouseEvent, MouseEventKind, encode_sgr_mouse, sgr_report};
use crate::supervisor::{
    AgentGroup, ClientMenu, ClientMenuAction, is_host_menu, is_workspace_menu, ClientMenuKind, ClientSupervisorModel, RemoteManageOverlay, WorkspaceOverlay,
    WorkspaceRow,
    is_launcher_menu, is_workspace_create, knows_server, label_row, reconnectable,
};

verus! {

/// How the loop refreshes server summaries after an API request.
#[derive(Debug, Clone, Copy, PartialEq, Eq)]
pub enum ClientApiRefreshPolicy {
    Immediate,
    Deferred,
    /// Refresh only the focused server.
    ImmediateFocused,
}

/// A remote the add-remote form submits.
#[derive(Debug, Clone, PartialEq, Eq)]
pub struct AddRemoteDraft {
    pub target: String,
    pub name: Option<String>,
    pub session: Option<String>,
    pub keybindings: RemoteKeybindingsSnapshot,
}

/// What one input batch asks the client event loop to do.
#[derive(Debug, Clone, PartialEq, Eq)]
pub enum ClientInputDispatch {
    Forward(Vec<u8>),
    ServerControl { server_id: ServerId, message: ClientMessage },
    ApiRequest { server_id: ServerId, refresh: ClientApiRefreshPolicy, request: Box<Request> },
    AddRemote(AddRemoteDraft),
    SetRemoteEnabled { remote_id: String, enabled: bool },
    SetRemoteAutoUpdate { remote_id: String, auto_update: bool },
    SetRemoteSession { server_id: ServerId, remote_id: String, session: Option<String> },
    DeleteRemote { remote_id: String },
    DisconnectRemote { server_id: ServerId },
    ReconnectRemote { server_id: ServerId },
    UpdateRemote { server_id: ServerId },
    FetchWorktreeList { server_id: ServerId, workspace_id: String },
    FetchSessionList { server_id: ServerId, remote_id: String },
    ToggleWorktreeGroup { group_key: String },
    Resize { cols: u16, rows: u16 },
    DetachAll,
    Redraw,
    HoverRedraw,
    Consumed,
}

/// Outcome of a key in the remote-management overlay.
#[derive(Debug, Clone, PartialEq, Eq)]
pub enum RemoteManageOutcome {
    Redraw,
    OpenAddRemote,
    SetEnabled { remote_id: String, enabled: bool },
    Delete { remote_id: String },
}

/// Outcome of selecting a client-menu row.
#[derive(Debug, Clone, PartialEq, Eq)]
pub enum ClientMenuOutcome {
    Redraw,
    Settings,
    Keybinds,
    ReloadConfig,
    Detach,
    HostAddSpace(ServerId),
    HostToggleEnabled { remote_id: String, enabled: bool },
    HostToggleAutoUpdate { remote_id: String, auto_update: bool },
    HostDisconnect(ServerId),
    HostReconnect(ServerId),
    HostUpdate(ServerId),
    FetchWorktreeList { server_id: ServerId, workspace_id: String },
    ToggleWorktreeGroup { group_key: String },
    FetchSessionList { server_id: ServerId, remote_id: String },
}

/// Outcome of the session picker.
#[derive(Debug, Clone, PartialEq, Eq)]
pub enum SessionPickerOutcome {
    Redraw,
    OpenNewSession,
    Select { server_id: ServerId, remote_id: String, session: Option<String> },
}

/// Outcome of the new-session input.
#[derive(Debug, Clone, PartialEq, Eq)]
pub enum NewSessionOutcome {
    Redraw,
    Submit { server_id: ServerId, remote_id: String, session: Option<String> },
}

/// Outcome of the rename-workspace form.
#[derive(Debug, Clone, PartialEq, Eq)]
pub enum RenameWorkspaceOutcome {
    Redraw,
    Submit { server_id: ServerId, workspace_id: String, label: String },
}

/// Outcome of the close-workspace confirmation.
#[derive(Debug, Clone, PartialEq, Eq)]
pub enum ConfirmCloseOutcome {
    Redraw,
    Confirm { server_id: ServerId, workspace_id: String },
}

/// Outcome of the new-worktree form.
#[derive(Debug, Clone, PartialEq, Eq)]
pub enum NewWorktreeOutcome {
    Redraw,
    Submit { server_id: ServerId, workspace_id: String, branch: String },
}

/// Outcome of the delete-worktree confirmation.
#[derive(Debug, Clone, PartialEq, Eq)]
pub enum ConfirmDeleteWorktreeOutcome {
    Redraw,
    Confirm { server_id: ServerId, workspace_id: String },
}

/// Outcome of the worktree picker.
#[derive(Debug, Clone, PartialEq, Eq)]
pub enum WorktreePickerOutcome {
    Redraw,
    Open { server_id: ServerId, workspace_id: String, path: String },
}

/// A remote-management outcome as a dispatch: the overlay-opening row only repaints.
pub fn dispatch_for_remote_manage_outcome(outcome: RemoteManageOutcome) -> (r: ClientInputDispatch)
    ensures
        r == match outcome {
            RemoteManageOutcome::Redraw | RemoteManageOutcome::OpenAddRemote => ClientInputDispatch::Redraw,
            RemoteManageOutcome::SetEnabled { remote_id, enabled } =>
                ClientInputDispatch::SetRemoteEnabled { remote_id, enabled },
            RemoteManageOutcome::Delete { remote_id } => ClientInputDispatch::DeleteRemote { remote_id },
        },
{
    match outcome {
        RemoteManageOutcome::Redraw | RemoteManageOutcome::OpenAddRemote => ClientInputDispatch::Redraw,
        RemoteManageOutcome::SetEnabled { remote_id, enabled } =>
            ClientInputDispatch::SetRemoteEnabled { remote_id, enabled },
        RemoteManageOutcome::Delete { remote_id } => ClientInputDispatch::DeleteRemote { remote_id },
    }
}

/// The dispatch is an API request to `server_id` with an immediate refresh, id `id` and
/// method `method`.
pub open spec fn is_api_request(d: ClientInputDispatch, server_id: ServerId, id: Seq<char>, method: Method) -> bool {
    d matches ClientInputDispatch::ApiRequest { server_id: s, refresh, request } && s == server_id
        && refresh == ClientApiRefreshPolicy::Immediate && request.id@ == id && request.method == method
}

/// `n` and `r` are what the client-menu outcome `outcome` gives (see
/// `dispatch_for_client_menu_outcome`).
pub open spec fn client_menu_outcome_done(m: ClientSupervisorModel, n: ClientSupervisorModel, outcome: ClientMenuOutcome, r: ClientInputDispatch) -> bool {
    &&& (outcome is Settings || outcome is Keybinds) ==> n == (ClientSupervisorModel {
        active_server_id: ServerId::Main,
        ..m
    })
    &&& !(outcome is Settings || outcome is Keybinds) ==> n == m
    &&& match outcome {
        ClientMenuOutcome::Redraw => r == ClientInputDispatch::Redraw,
        ClientMenuOutcome::Settings => r == (ClientInputDispatch::ServerControl {
            server_id: ServerId::Main, message: ClientMessage::OpenSettings }),
        ClientMenuOutcome::Keybinds => r == (ClientInputDispatch::ServerControl {
            server_id: ServerId::Main, message: ClientMessage::OpenKeybindHelp }),
        ClientMenuOutcome::ReloadConfig => is_api_request(r, ServerId::Main, "client:reload-config"@,
            Method::ServerReloadConfig),
        ClientMenuOutcome::Detach => r == ClientInputDispatch::DetachAll,
        ClientMenuOutcome::HostAddSpace(server_id) => if knows_server(m.secondaries@, server_id@) {
            r matches ClientInputDispatch::ApiRequest { server_id: s, refresh, request } && s == server_id
                && refresh == ClientApiRefreshPolicy::Immediate && is_workspace_create(*request)
        } else {
            r == ClientInputDispatch::Redraw
        },
        ClientMenuOutcome::HostToggleEnabled { remote_id, enabled } =>
            r == (ClientInputDispatch::SetRemoteEnabled { remote_id, enabled }),
        ClientMenuOutcome::HostToggleAutoUpdate { remote_id, auto_update } =>
            r == (ClientInputDispatch::SetRemoteAutoUpdate { remote_id, auto_update }),
        ClientMenuOutcome::HostDisconnect(server_id) => r == (ClientInputDispatch::DisconnectRemote { server_id }),
        ClientMenuOutcome::HostReconnect(server_id) => r == (ClientInputDispatch::ReconnectRemote { server_id }),
        ClientMenuOutcome::HostUpdate(server_id) => r == (ClientInputDispatch::UpdateRemote { server_id }),
        ClientMenuOutcome::FetchWorktreeList { server_id, workspace_id } =>
            r == (ClientInputDispatch::FetchWorktreeList { server_id, workspace_id }),
        ClientMenuOutcome::ToggleWorktreeGroup { group_key } =>
            r == (ClientInputDispatch::ToggleWorktreeGroup { group_key }),
        ClientMenuOutcome::FetchSessionList { server_id, remote_id } =>
            r == (ClientInputDispatch::FetchSessionList { server_id, remote_id }),
    }
}

/// A client-menu outcome as a dispatch. Settings and key-binding help activate the main server
/// first; a host's "add space" becomes a create request on that host when the model knows it.
pub fn dispatch_for_client_menu_outcome(model: &mut ClientSupervisorModel, outcome: ClientMenuOutcome) -> (r: ClientInputDispatch)
    ensures
        client_menu_outcome_done(*old(model), *final(model), outcome, r),

{
    match outcome {
        ClientMenuOutcome::Redraw => ClientInputDispatch::Redraw,
        ClientMenuOutcome::Settings => {
            model.activate_main_server();
            ClientInputDispatch::ServerControl { server_id: ServerId::Main, message: ClientMessage::OpenSettings }
        },
        ClientMenuOutcome::Keybinds => {
            model.activate_main_server();
            ClientInputDispatch::ServerControl { server_id: ServerId::Main, message: ClientMessage::OpenKeybindHelp }
        },
        ClientMenuOutcome::ReloadConfig => ClientInputDispatch::ApiRequest {
            server_id: ServerId::Main,
            refresh: ClientApiRefreshPolicy::Immediate,
            request: Box::new(Request {
                id: String::from_str("client:reload-config"),
                method: Method::ServerReloadConfig,
            }),
        },
        ClientMenuOutcome::Detach => ClientInputDispatch::DetachAll,
        ClientMenuOutcome::HostAddSpace(server_id) => match model.workspace_create_route(&server_id) {
            Some((id, request)) => ClientInputDispatch::ApiRequest {
                server_id: id,
                refresh: ClientApiRefreshPolicy::Immediate,
                request: Box::new(request),
            },
            None => ClientInputDispatch::Redraw,
        },
        ClientMenuOutcome::HostToggleEnabled { remote_id, enabled } =>
            ClientInputDispatch::SetRemoteEnabled { remote_id, enabled },
        ClientMenuOutcome::HostToggleAutoUpdate { remote_id, auto_update } =>
            ClientInputDispatch::SetRemoteAutoUpdate { remote_id, auto_update },
        ClientMenuOutcome::HostDisconnect(server_id) => ClientInputDispatch::DisconnectRemote { server_id },
        ClientMenuOutcome::HostReconnect(server_id) => ClientInputDispatch::ReconnectRemote { server_id },
        ClientMenuOutcome::HostUpdate(server_id) => ClientInputDispatch::UpdateRemote { server_id },
        ClientMenuOutcome::FetchWorktreeList { server_id, workspace_id } =>
            ClientInputDispatch::FetchWorktreeList { server_id, workspace_id },
        ClientMenuOutcome::ToggleWorktreeGroup { group_key } => ClientInputDispatch::ToggleWorktreeGroup { group_key },
        ClientMenuOutcome::FetchSessionList { server_id, remote_id } =>
            ClientInputDispatch::FetchSessionList { server_id, remote_id },
    }
}

/// A session-picker outcome as a dispatch: a picked row becomes the session switch.
pub fn dispatch_for_session_picker_outcome(outcome: SessionPickerOutcome) -> (r: ClientInputDispatch)
    ensures
        r == match outcome {
            SessionPickerOutcome::Redraw | SessionPickerOutcome::OpenNewSession => ClientInputDispatch::Redraw,
            SessionPickerOutcome::Select { server_id, remote_id, session } =>
                ClientInputDispatch::SetRemoteSession { server_id, remote_id, session },
        },
{
    match outcome {
        SessionPickerOutcome::Redraw | SessionPickerOutcome::OpenNewSession => ClientInputDispatch::Redraw,
        SessionPickerOutcome::Select { server_id, remote_id, session } =>
            ClientInputDispatch::SetRemoteSession { server_id, remote_id, session },
    }
}

/// A new-session outcome as a dispatch: a typed name takes the same switch as a picked row.
pub fn dispatch_for_new_session_outcome(outcome: NewSessionOutcome) -> (r: ClientInputDispatch)
    ensures
        r == match outcome {
            NewSessionOutcome::Redraw => ClientInputDispatch::Redraw,
            NewSessionOutcome::Submit { server_id, remote_id, session } =>
                ClientInputDispatch::SetRemoteSession { server_id, remote_id, session },
        },
{
    match outcome {
        NewSessionOutcome::Redraw => ClientInputDispatch::Redraw,
        NewSessionOutcome::Submit { server_id, remote_id, session } =>
            ClientInputDispatch::SetRemoteSession { server_id, remote_id, session },
    }
}

/// A rename outcome as a dispatch: a submit becomes `workspace.rename` on the owning server.
pub fn dispatch_for_rename_workspace_outcome(outcome: RenameWorkspaceOutcome) -> (r: ClientInputDispatch)
    ensures
        match outcome {
            RenameWorkspaceOutcome::Redraw => r == ClientInputDispatch::Redraw,
            RenameWorkspaceOutcome::Submit { server_id, workspace_id, label } => is_api_request(r,
                server_id, "client:workspace-rename"@,
                Method::WorkspaceRename(WorkspaceRenameParams { workspace_id, label })),
        },
{
    match outcome {
        RenameWorkspaceOutcome::Redraw => ClientInputDispatch::Redraw,
        RenameWorkspaceOutcome::Submit { server_id, workspace_id, label } => ClientInputDispatch::ApiRequest {
            server_id,
            refresh: ClientApiRefreshPolicy::Immediate,
            request: Box::new(Request {
                id: String::from_str("client:workspace-rename"),
                method: Method::WorkspaceRename(WorkspaceRenameParams { workspace_id, label }),
            }),
        },
    }
}

/// A close confirmation as a dispatch: `workspace.close` on the owning server.
pub fn dispatch_for_confirm_close_outcome(outcome: ConfirmCloseOutcome) -> (r: ClientInputDispatch)
    ensures
        match outcome {
            ConfirmCloseOutcome::Redraw => r == ClientInputDispatch::Redraw,
            ConfirmCloseOutcome::Confirm { server_id, workspace_id } => is_api_request(r, server_id,
                "client:workspace-close"@, Method::WorkspaceClose(WorkspaceTarget { workspace_id })),
        },
{
    match outcome {
        ConfirmCloseOutcome::Redraw => ClientInputDispatch::Redraw,
        ConfirmCloseOutcome::Confirm { server_id, workspace_id } => ClientInputDispatch::ApiRequest {
            server_id,
            refresh: ClientApiRefreshPolicy::Immediate,
            request: Box::new(Request {
                id: String::from_str("client:workspace-close"),
                method: Method::WorkspaceClose(WorkspaceTarget { workspace_id }),
            }),
        },
    }
}

/// A new-worktree submit as a dispatch: `worktree.create` (focusing the new space) on the owner.
pub fn dispatch_for_new_worktree_outcome(outcome: NewWorktreeOutcome) -> (r: ClientInputDispatch)
    ensures
        match outcome {
            NewWorktreeOutcome::Redraw => r == ClientInputDispatch::Redraw,
            NewWorktreeOutcome::Submit { server_id, workspace_id, branch } => is_api_request(r, server_id,
                "client:worktree-create"@, Method::WorktreeCreate(WorktreeCreateParams {
                    workspace_id: Some(workspace_id), branch: Some(branch), focus: true })),
        },
{
    match outcome {
        NewWorktreeOutcome::Redraw => ClientInputDispatch::Redraw,
        NewWorktreeOutcome::Submit { server_id, workspace_id, branch } => ClientInputDispatch::ApiRequest {
            server_id,
            refresh: ClientApiRefreshPolicy::Immediate,
            request: Box::new(Request {
                id: String::from_str("client:worktree-create"),
                method: Method::WorktreeCreate(WorktreeCreateParams {
                    workspace_id: Some(workspace_id),
                    branch: Some(branch),
                    focus: true,
                }),
            }),
        },
    }
}

/// A delete-worktree confirmation as a dispatch: `worktree.remove` (not forced) on the owner.
pub fn dispatch_for_confirm_delete_worktree_outcome(outcome: ConfirmDeleteWorktreeOutcome) -> (r: ClientInputDispatch)
    ensures
        match outcome {
            ConfirmDeleteWorktreeOutcome::Redraw => r == ClientInputDispatch::Redraw,
            ConfirmDeleteWorktreeOutcome::Confirm { server_id, workspace_id } => is_api_request(r, server_id,
                "client:worktree-remove"@, Method::WorktreeRemove(WorktreeRemoveParams { workspace_id, force: false })),
        },
{
    match outcome {
        ConfirmDeleteWorktreeOutcome::Redraw => ClientInputDispatch::Redraw,
        ConfirmDeleteWorktreeOutcome::Confirm { server_id, workspace_id } => ClientInputDispatch::ApiRequest {
            server_id,
            refresh: ClientApiRefreshPolicy::Immediate,
            request: Box::new(Request {
                id: String::from_str("client:worktree-remove"),
                method: Method::WorktreeRemove(WorktreeRemoveParams { workspace_id, force: false }),
            }),
        },
    }
}

/// A picked worktree as a dispatch: `worktree.open` (focusing it) on the owning server.
pub fn dispatch_for_worktree_picker_outcome(outcome: WorktreePickerOutcome) -> (r: ClientInputDispatch)
    ensures
        match outcome {
            WorktreePickerOutcome::Redraw => r == ClientInputDispatch::Redraw,
            WorktreePickerOutcome::Open { server_id, workspace_id, path } => is_api_request(r, server_id,
                "client:worktree-open"@, Method::WorktreeOpen(WorktreeOpenParams {
                    workspace_id: Some(workspace_id), path: Some(path), focus: true })),
        },
{
    match outcome {
        WorktreePickerOutcome::Redraw => ClientInputDispatch::Redraw,
        WorktreePickerOutcome::Open { server_id, workspace_id, path } => ClientInputDispatch::ApiRequest {
            server_id,
            refresh: ClientApiRefreshPolicy::Immediate,
            request: Box::new(Request {
                id: String::from_str("client:worktree-open"),
                method: Method::WorktreeOpen(WorktreeOpenParams {
                    workspace_id: Some(workspace_id),
                    path: Some(path),
                    focus: true,
                }),
            }),
        },
    }
}

/// A dispatch is a command the event loop must handle (not a repaint the batcher may coalesce).
pub open spec fn requires_loop_handling(d: ClientInputDispatch) -> bool {
    !(d is Forward || d is Redraw || d is HoverRedraw || d is Consumed)
}

/// Whether a dispatch is an actionable command the event loop must handle.
pub fn dispatch_requires_loop_handling(dispatch: &ClientInputDispatch) -> (r: bool)
    ensures
        r == requires_loop_handling(*dispatch),
{
    match dispatch {
        ClientInputDispatch::AddRemote(_)
        | ClientInputDispatch::SetRemoteEnabled { .. }
        | ClientInputDispatch::SetRemoteAutoUpdate { .. }
        | ClientInputDispatch::SetRemoteSession { .. }
        | ClientInputDispatch::DeleteRemote { .. }
        | ClientInputDispatch::DisconnectRemote { .. }
        | ClientInputDispatch::ReconnectRemote { .. }
        | ClientInputDispatch::UpdateRemote { .. }
        | ClientInputDispatch::FetchWorktreeList { .. }
        | ClientInputDispatch::FetchSessionList { .. }
        | ClientInputDispatch::ToggleWorktreeGroup { .. }
        | ClientInputDispatch::ApiRequest { .. }
        | ClientInputDispatch::ServerControl { .. }
        | ClientInputDispatch::Resize { .. }
        | ClientInputDispatch::DetachAll => true,
        ClientInputDispatch::Forward(_)
        | ClientInputDispatch::Redraw
        | ClientInputDispatch::HoverRedraw
        | ClientInputDispatch::Consumed => false,
    }
}

/// The refresh policy of a focus: staying on the active server defers, switching refreshes the
/// newly focused server at once.
pub fn focus_refresh_policy(current_active: &ServerId, target_server: &ServerId) -> (r: ClientApiRefreshPolicy)
    ensures
        r == if current_active@ == target_server@ {
            ClientApiRefreshPolicy::Deferred
        } else {
            ClientApiRefreshPolicy::ImmediateFocused
        },
{
    if current_active.same_as(target_server) {
        ClientApiRefreshPolicy::Deferred
    } else {
        ClientApiRefreshPolicy::ImmediateFocused
    }
}

/// The index a `delta` step lands on among `len` targets (with wraparound): from `current`, or,
/// with nothing focused, a forward step starts before the first and a backward step at the first.
pub open spec fn step_index(len: int, current: Option<usize>, delta: isize) -> int {
    let base: int = match current {
        Some(i) => i as int,
        None => if delta >= 0 { -1 } else { 0 },
    };
    (base + delta) % len
}

proof fn lemma_negative_mod(b: int, len: int, a: int)
    requires
        b < 0,
        len > 0,
        a == (-b) % len,
    ensures
        (if a == 0 { 0 } else { len - a }) == b % len,
{
    let n = -b;
    let q = n / len;
    assert(n == q * len + a) by (nonlinear_arith)
        requires len > 0, q == n / len, a == n % len;
    assert(0 <= a < len);
    if a == 0 {
        assert(b == (-q) * len) by (nonlinear_arith) requires n == q * len, b == -n;
        vstd::arithmetic::div_mod::lemma_mod_multiples_basic(-q, len);
    } else {
        assert(b == (-q - 1) * len + (len - a)) by (nonlinear_arith)
            requires n == q * len + a, b == -n;
        vstd::arithmetic::div_mod::lemma_mod_multiples_vanish(-q - 1, len - a, len);
        vstd::arithmetic::div_mod::lemma_small_mod((len - a) as nat, len as nat);
    }
}

/// A step back undoes a step: from target `i`, stepping by `delta` and then by `-delta` lands on
/// `i` again.
pub proof fn lemma_step_back_undoes_step(len: int, i: usize, delta: isize)
    requires
        0 < len <= usize::MAX,
        i < len,
        delta > isize::MIN,
    ensures
        ({
            let j = step_index(len, Some(i), delta);
            0 <= j < len && step_index(len, Some(j as usize), (-delta) as isize) == i
        }),
{
    let j = step_index(len, Some(i), delta);
    vstd::arithmetic::div_mod::lemma_mod_bound(i + delta, len);
    assert(0 <= j < len);
    vstd::arithmetic::div_mod::lemma_fundamental_div_mod(i + delta, len);
    let q = (i + delta) / len;
    assert(j + (-delta) == i - q * len) by (nonlinear_arith)
        requires
            i + delta == len * q + j;
    vstd::arithmetic::div_mod::lemma_mod_multiples_vanish(-q, i as int, len);
    assert(i - q * len == (-q) * len + i) by (nonlinear_arith);
    vstd::arithmetic::div_mod::lemma_small_mod(i as nat, len as nat);
    let nd: isize = (-delta) as isize;
    assert(nd as int == -delta);
    assert((j as usize) as int == j);
    assert(step_index(len, Some(j as usize), nd) == (j + nd) % len);
    assert((j + nd) % len == ((-q) * len + i) % len);
    assert((-q) * len + i == len * (-q) + i) by (nonlinear_arith);
    assert(((-q) * len + i) % len == i);
}

/// Stepping forward from the last target wraps to the first, and back from the first to the last.
pub proof fn lemma_step_wraps(len: int)
    requires
        0 < len <= usize::MAX,
    ensures
        step_index(len, Some((len - 1) as usize), 1isize) == 0,
        step_index(len, Some(0usize), -1isize) == len - 1,
{
    vstd::arithmetic::div_mod::lemma_mod_self_0(len);
    vstd::arithmetic::div_mod::lemma_mod_multiples_vanish(-1, len - 1, len);
    vstd::arithmetic::div_mod::lemma_small_mod((len - 1) as nat, len as nat);
}

/// The index a `delta` step selects among `len` targets, `None` when there are none.
fn step_focus_index(len: usize, current: Option<usize>, delta: isize) -> (r: Option<usize>)
    ensures
        match r {
            Some(i) => len > 0 && i as int == step_index(len as int, current, delta) && i < len,
            None => len == 0,
        },
{
    if len == 0 {
        return None;
    }
    let base: i128 = match current {
        Some(i) => i as i128,
        None => if delta >= 0 { -1 } else { 0 },
    };
    let b: i128 = base + delta as i128;
    let l: u128 = len as u128;
    let next: u128 = if b >= 0 {
        (b as u128) % l
    } else {
        let a: u128 = ((0 - b) as u128) % l;
        proof {
            lemma_negative_mod(b as int, l as int, a as int);
        }
        if a == 0 { 0 } else { l - a }
    };
    proof {
        vstd::arithmetic::div_mod::lemma_mod_bound(b as int, l as int);
    }
    Some(next as usize)
}

/// The target a `delta` step selects among `targets` from the one at `current` (with
/// wraparound; with no current target a forward step starts at the first and a backward step at
/// the last), `None` when there are none.
pub fn step_focus_target(targets: &Vec<FocusTarget>, current: Option<usize>, delta: isize) -> (r: Option<FocusTarget>)
    ensures
        match r {
            Some(t) => targets@.len() > 0 && t == targets@[step_index(targets@.len() as int, current, delta)],
            None => targets@.len() == 0,
        },
{
    match step_focus_index(targets.len(), current, delta) {
        None => None,
        Some(k) => {
            let t = &targets[k];
            Some(FocusTarget { server_id: t.server_id.duplicate(), id: t.id.clone(), focused: t.focused })
        },
    }
}

/// A focusable sidebar entry: its server, its id, and whether its server reports it focused.
#[derive(Debug, Clone, PartialEq, Eq)]
pub struct FocusTarget {
    pub server_id: ServerId,
    pub id: String,
    pub focused: bool,
}

/// The focusable workspace rows, in sidebar order (placeholder rows skipped).
pub open spec fn workspace_targets(rows: Seq<WorkspaceRow>) -> Seq<FocusTarget>
    decreases rows.len(),
{
    if rows.len() == 0 {
        Seq::empty()
    } else {
        let rest = workspace_targets(rows.drop_last());
        match rows.last().workspace_id {
            Some(w) => rest.push(FocusTarget { server_id: rows.last().server_id, id: w, focused: rows.last().focused }),
            None => rest,
        }
    }
}

/// The agents of all groups flattened in sidebar order.
pub open spec fn agent_targets(groups: Seq<AgentGroup>) -> Seq<FocusTarget>
    decreases groups.len(),
{
    if groups.len() == 0 {
        Seq::empty()
    } else {
        let g = groups.last();
        agent_targets(groups.drop_last()) + g.agents@.map_values(|a: crate::supervisor::AgentRow|
            FocusTarget { server_id: g.server_id, id: a.agent_id, focused: a.focused })
    }
}

/// The number of agents in the first `g` groups.
pub open spec fn agents_before(groups: Seq<AgentGroup>, g: int) -> int
    decreases g,
{
    if g <= 0 { 0 } else { agents_before(groups, g - 1) + groups[g - 1].agents@.len() }
}

proof fn lemma_agents_before_prefix(groups: Seq<AgentGroup>, g: int)
    requires
        groups.len() > 0,
        0 <= g <= groups.len() - 1,
    ensures
        agents_before(groups, g) == agents_before(groups.drop_last(), g),
    decreases g,
{
    if g > 0 {
        lemma_agents_before_prefix(groups, g - 1);
        assert(groups[g - 1] == groups.drop_last()[g - 1]);
    }
}

proof fn lemma_agents_before_monotone(groups: Seq<AgentGroup>, g: int, h: int)
    requires
        0 <= g <= h,
    ensures
        agents_before(groups, g) <= agents_before(groups, h),
    decreases h - g,
{
    if g < h {
        lemma_agents_before_monotone(groups, g, h - 1);
    }
}

/// The agent focus targets are every agent of every group in sidebar order: the target at
/// index (agents of the earlier groups + `j`) is agent `j` of group `g`, on that group's server.
pub proof fn lemma_agent_targets_in_sidebar_order(groups: Seq<AgentGroup>, g: int, j: int)
    requires
        0 <= g < groups.len(),
        0 <= j < groups[g].agents@.len(),
    ensures
        agent_targets(groups).len() == agents_before(groups, groups.len() as int),
        agents_before(groups, g) + j < agent_targets(groups).len(),
        agent_targets(groups)[agents_before(groups, g) + j] == (FocusTarget {
            server_id: groups[g].server_id,
            id: groups[g].agents@[j].agent_id,
            focused: groups[g].agents@[j].focused,
        }),
    decreases groups.len(),
{
    let rest = groups.drop_last();
    let last = groups.len() - 1;
    let grp = groups.last();
    let mapped = grp.agents@.map_values(|a: crate::supervisor::AgentRow|
        FocusTarget { server_id: grp.server_id, id: a.agent_id, focused: a.focused });
    assert(agent_targets(groups) == agent_targets(rest) + mapped);
    lemma_agent_targets_len(groups);
    lemma_agent_targets_len(rest);
    lemma_agents_before_prefix(groups, last);
    let i = agents_before(groups, g) + j;
    lemma_agents_before_monotone(groups, 0, g);
    if g < last {
        assert(rest[g] == groups[g]);
        lemma_agent_targets_in_sidebar_order(rest, g, j);
        lemma_agents_before_prefix(groups, g);
        lemma_agents_before_monotone(rest, g + 1, last);
        assert(agents_before(rest, g + 1) == agents_before(rest, g) + rest[g].agents@.len());
        assert(i < agent_targets(rest).len());
        assert(agent_targets(groups)[i] == agent_targets(rest)[i]);
    } else {
        assert(i == agent_targets(rest).len() + j);
        assert(agent_targets(groups)[i] == mapped[j]);
    }
}

proof fn lemma_agent_targets_len(groups: Seq<AgentGroup>)
    ensures
        agent_targets(groups).len() == agents_before(groups, groups.len() as int),
    decreases groups.len(),
{
    if groups.len() > 0 {
        lemma_agent_targets_len(groups.drop_last());
        lemma_agents_before_prefix(groups, groups.len() - 1);
    }
}

/// A forward step from agent `j` of a group whose next agent `j + 1` exists focuses that next
/// agent, on the same server.
pub proof fn lemma_agent_step_moves_to_next_agent(groups: Seq<AgentGroup>, active: Option<Seq<char>>, g: int, j: int)
    requires
        0 <= g < groups.len(),
        0 <= j,
        j + 1 < groups[g].agents@.len(),
        agent_targets(groups).len() <= usize::MAX,
        focus_anchor(agent_targets(groups), active) == Some((agents_before(groups, g) + j) as usize),
    ensures
        stepped_target(agent_targets(groups), active, 1) == Some(FocusTarget {
            server_id: groups[g].server_id,
            id: groups[g].agents@[j + 1].agent_id,
            focused: groups[g].agents@[j + 1].focused,
        }),
{
    lemma_agent_targets_in_sidebar_order(groups, g, j);
    lemma_agent_targets_in_sidebar_order(groups, g, j + 1);
    let k = agents_before(groups, g) + j;
    let len = agent_targets(groups).len() as int;
    assert(0 <= k) by {
        lemma_agents_before_monotone(groups, 0, g);
    }
    assert((k + 1) % len == k + 1) by {
        vstd::arithmetic::div_mod::lemma_small_mod((k + 1) as nat, len as nat);
    }
    assert((k as usize) as int == k);
    assert(step_index(len, Some(k as usize), 1isize) == k + 1);
}

/// The index of the first focused target (on server `active` only, when `on_active`).
pub open spec fn first_focused(targets: Seq<FocusTarget>, active: Option<Seq<char>>, on_active: bool) -> Option<int>
    decreases targets.len(),
{
    if targets.len() == 0 {
        None
    } else {
        match first_focused(targets.drop_last(), active, on_active) {
            Some(i) => Some(i),
            None => {
                let t = targets.last();
                if t.focused && (!on_active || t.server_id@ == active) {
                    Some(targets.len() - 1)
                } else {
                    None
                }
            },
        }
    }
}

/// An index found by a search, as a machine index.
pub open spec fn as_index(o: Option<int>) -> Option<usize> {
    match o {
        Some(i) => Some(i as usize),
        None => None,
    }
}

/// The target a focus step starts from: the first focused target of the active server, else the
/// first focused target at all.
pub open spec fn focus_anchor(targets: Seq<FocusTarget>, active: Option<Seq<char>>) -> Option<usize> {
    match first_focused(targets, active, true) {
        Some(i) => Some(i as usize),
        None => as_index(first_focused(targets, active, false)),
    }
}

/// The target a `delta` step from the anchor lands on, `None` when there are no targets.
pub open spec fn stepped_target(targets: Seq<FocusTarget>, active: Option<Seq<char>>, delta: isize) -> Option<FocusTarget> {
    if targets.len() == 0 {
        None
    } else {
        Some(targets[step_index(targets.len() as int, focus_anchor(targets, active), delta)])
    }
}

proof fn lemma_first_focused_bound(targets: Seq<FocusTarget>, active: Option<Seq<char>>, on_active: bool)
    ensures
        first_focused(targets, active, on_active) matches Some(i) ==> 0 <= i < targets.len(),
    decreases targets.len(),
{
    if targets.len() > 0 {
        lemma_first_focused_bound(targets.drop_last(), active, on_active);
    }
}

/// The anchor of a focus step among `targets`.
fn focus_anchor_index(targets: &Vec<FocusTarget>, active: &ServerId) -> (r: Option<usize>)
    ensures
        r == focus_anchor(targets@, active@),
        r matches Some(i) ==> i < targets@.len(),
{
    let mut on_active: Option<usize> = None;
    let mut any: Option<usize> = None;
    let mut i: usize = 0;
    while i < targets.len()
        invariant
            i <= targets@.len(),
            on_active == as_index(first_focused(targets@.take(i as int), active@, true)),
            any == as_index(first_focused(targets@.take(i as int), active@, false)),
            on_active matches Some(k) ==> k < i,
            any matches Some(k) ==> k < i,
        decreases targets@.len() - i,
    {
        let t = &targets[i];
        proof {
            assert(targets@.take(i + 1).drop_last() == targets@.take(i as int));
            assert(targets@.take(i + 1).last() == targets@[i as int]);
        }
        if t.focused {
            if any.is_none() {
                any = Some(i);
            }
            if on_active.is_none() && t.server_id.same_as(active) {
                on_active = Some(i);
            }
        }
        i = i + 1;
    }
    proof {
        assert(targets@.take(targets@.len() as int) == targets@);
        lemma_first_focused_bound(targets@, active@, true);
        lemma_first_focused_bound(targets@, active@, false);
    }
    if on_active.is_some() { on_active } else { any }
}

/// The focusable workspace targets of `rows`, in order.
fn collect_workspace_targets(rows: &Vec<WorkspaceRow>) -> (r: Vec<FocusTarget>)
    ensures
        r@ == workspace_targets(rows@),
{
    let mut targets: Vec<FocusTarget> = Vec::new();
    let mut i: usize = 0;
    while i < rows.len()
        invariant
            i <= rows@.len(),
            targets@ == workspace_targets(rows@.take(i as int)),
        decreases rows@.len() - i,
    {
        let row = &rows[i];
        proof {
            assert(rows@.take(i + 1).drop_last() == rows@.take(i as int));
            assert(rows@.take(i + 1).last() == rows@[i as int]);
        }
        match &row.workspace_id {
            Some(w) => {
                targets.push(FocusTarget { server_id: row.server_id.duplicate(), id: w.clone(), focused: row.focused });
            },
            None => {},
        }
        i = i + 1;
    }
    proof {
        assert(rows@.take(rows@.len() as int) == rows@);
    }
    targets
}

/// The agent targets of `groups`, flattened in order.
fn collect_agent_targets(groups: &Vec<AgentGroup>) -> (r: Vec<FocusTarget>)
    ensures
        r@ == agent_targets(groups@),
{
    let mut targets: Vec<FocusTarget> = Vec::new();
    let mut i: usize = 0;
    while i < groups.len()
        invariant
            i <= groups@.len(),
            targets@ == agent_targets(groups@.take(i as int)),
        decreases groups@.len() - i,
    {
        let group = &groups[i];
        proof {
            assert(groups@.take(i + 1).drop_last() == groups@.take(i as int));
            assert(groups@.take(i + 1).last() == groups@[i as int]);
        }
        let ghost before = targets@;
        let ghost mapped = group.agents@.map_values(|a: crate::supervisor::AgentRow|
            FocusTarget { server_id: group.server_id, id: a.agent_id, focused: a.focused });
        let mut j: usize = 0;
        while j < group.agents.len()
            invariant
                j <= group.agents@.len(),
                targets@ == before + mapped.take(j as int),
                mapped.len() == group.agents@.len(),
                mapped == group.agents@.map_values(|a: crate::supervisor::AgentRow|
                    FocusTarget { server_id: group.server_id, id: a.agent_id, focused: a.focused }),
            decreases group.agents@.len() - j,
        {
            let agent = &group.agents[j];
            targets.push(FocusTarget { server_id: group.server_id.duplicate(), id: agent.agent_id.clone(), focused: agent.focused });
            proof {
                assert(mapped.take(j + 1) == mapped.take(j as int).push(mapped[j as int]));
            }
            j = j + 1;
        }
        proof {
            assert(mapped.take(mapped.len() as int) == mapped);
        }
        i = i + 1;
    }
    proof {
        assert(groups@.take(groups@.len() as int) == groups@);
    }
    targets
}

/// The result of stepping to `target`: the focus request for it, with the refresh policy that
/// switching (or staying on) the active server calls for.
pub open spec fn focus_step_dispatch(d: ClientInputDispatch, active: Option<Seq<char>>, target: FocusTarget, id: Seq<char>, method: Method) -> bool {
    d matches ClientInputDispatch::ApiRequest { server_id, refresh, request }
        && server_id == target.server_id
        && refresh == (if active == target.server_id@ { ClientApiRefreshPolicy::Deferred } else { ClientApiRefreshPolicy::ImmediateFocused })
        && request.id@ == id && request.method == method
}

/// Step the keyboard workspace focus by `delta` rows (with wraparound) across all servers,
/// anchored on the active server's focused workspace; the target's server becomes active.
pub fn step_workspace_focus(model: &mut ClientSupervisorModel, delta: isize) -> (r: ClientInputDispatch)
    ensures
        match stepped_target(workspace_targets(old(model).workspace_rows@), old(model).active_server_id@, delta) {
            Some(t) => *final(model) == (ClientSupervisorModel { active_server_id: t.server_id, ..*old(model) })
                && focus_step_dispatch(r, old(model).active_server_id@, t, "client:workspace-focus"@,
                    Method::WorkspaceFocus(WorkspaceTarget { workspace_id: t.id })),
            None => r == ClientInputDispatch::Consumed && *final(model) == *old(model),
        },
{
    let targets = collect_workspace_targets(&model.workspace_rows);
    let current = focus_anchor_index(&targets, &model.active_server_id);
    match step_focus_target(&targets, current, delta) {
        None => ClientInputDispatch::Consumed,
        Some(target) => {
            let refresh = focus_refresh_policy(&model.active_server_id, &target.server_id);
            let server_id = target.server_id.duplicate();
            let request = model.focus_workspace_route(&target.server_id, target.id);
            ClientInputDispatch::ApiRequest { server_id, refresh, request: Box::new(request) }
        },
    }
}

/// Step the keyboard agent focus by `delta` agents (with wraparound) across all servers,
/// anchored on the active server's focused agent; the target's server becomes active.
pub fn step_agent_focus(model: &mut ClientSupervisorModel, delta: isize) -> (r: ClientInputDispatch)
    ensures
        match stepped_target(agent_targets(old(model).agent_groups@), old(model).active_server_id@, delta) {
            Some(t) => *final(model) == (ClientSupervisorModel { active_server_id: t.server_id, ..*old(model) })
                && focus_step_dispatch(r, old(model).active_server_id@, t, "client:agent-focus"@,
                    Method::AgentFocus(AgentTarget { agent_id: t.id })),
            None => r == ClientInputDispatch::Consumed && *final(model) == *old(model),
        },
{
    let targets = collect_agent_targets(&model.agent_groups);
    let current = focus_anchor_index(&targets, &model.active_server_id);
    match step_focus_target(&targets, current, delta) {
        None => ClientInputDispatch::Consumed,
        Some(target) => {
            let refresh = focus_refresh_policy(&model.active_server_id, &target.server_id);
            let server_id = target.server_id.duplicate();
            let request = model.focus_agent_route(&target.server_id, target.id);
            ClientInputDispatch::ApiRequest { server_id, refresh, request: Box::new(request) }
        },
    }
}

/// Which workspace overlay the keyboard opens for the focused workspace.
#[derive(Debug, Clone, Copy, PartialEq, Eq)]
pub enum FocusedWorkspaceOverlay {
    Rename,
    Close,
}

/// The index of the first focused row that names a workspace.
pub open spec fn first_focused_row(rows: Seq<WorkspaceRow>) -> Option<int>
    decreases rows.len(),
{
    if rows.len() == 0 {
        None
    } else {
        match first_focused_row(rows.drop_last()) {
            Some(i) => Some(i),
            None => if rows.last().focused && rows.last().workspace_id is Some {
                Some(rows.len() - 1)
            } else {
                None
            },
        }
    }
}

proof fn lemma_first_focused_row(rows: Seq<WorkspaceRow>)
    ensures
        first_focused_row(rows) matches Some(i) ==> 0 <= i < rows.len() && rows[i].focused
            && rows[i].workspace_id is Some,
    decreases rows.len(),
{
    if rows.len() > 0 {
        lemma_first_focused_row(rows.drop_last());
    }
}

/// `label` is what the model shows for workspace `workspace_id` of `server_id`: the label of the
/// first row listing it, or the id itself when no row does.
pub open spec fn shown_label(rows: Seq<WorkspaceRow>, server_id: Option<Seq<char>>, workspace_id: Seq<char>, label: Seq<char>) -> bool {
    ||| exists|i: int| 0 <= i < rows.len() && label_row(#[trigger] rows[i], server_id, workspace_id)
            && rows[i].label@ == label
            && forall|j: int| 0 <= j < i ==> !label_row(#[trigger] rows[j], server_id, workspace_id)
    ||| (forall|i: int| 0 <= i < rows.len() ==> !label_row(#[trigger] rows[i], server_id, workspace_id))
            && label == workspace_id
}

/// `n` and `r` are what opening `overlay` for the first focused workspace of `m` gives: the
/// overlay names that workspace, its server and its shown label, and the client menu is consumed;
/// with no focused workspace nothing changes.
pub open spec fn focused_overlay_opened(m: ClientSupervisorModel, n: ClientSupervisorModel, r: ClientInputDispatch, overlay: FocusedWorkspaceOverlay) -> bool {
    match first_focused_row(m.workspace_rows@) {
        Some(i) => {
            let row = m.workspace_rows@[i];
            &&& r == ClientInputDispatch::Redraw
            &&& n == (ClientSupervisorModel { client_menu: None, overlay: n.overlay, ..m })
            &&& match n.overlay {
                WorkspaceOverlay::Rename { server_id, workspace_id, label } =>
                    overlay == FocusedWorkspaceOverlay::Rename && server_id == row.server_id
                    && row.workspace_id == Some(workspace_id)
                    && shown_label(m.workspace_rows@, server_id@, workspace_id@, label@),
                WorkspaceOverlay::ConfirmClose { server_id, workspace_id, label } =>
                    overlay == FocusedWorkspaceOverlay::Close && server_id == row.server_id
                    && row.workspace_id == Some(workspace_id)
                    && shown_label(m.workspace_rows@, server_id@, workspace_id@, label@),
                WorkspaceOverlay::Closed => false,
            }
        },
        None => r == ClientInputDispatch::Consumed && n == m,
    }
}

/// Open the rename or confirm-close overlay for the first focused workspace (the client menu is
/// consumed by it); with no focused workspace nothing changes.
pub fn open_focused_workspace_overlay(model: &mut ClientSupervisorModel, overlay: FocusedWorkspaceOverlay) -> (r: ClientInputDispatch)
    ensures
        focused_overlay_opened(*old(model), *final(model), r, overlay),
{
    let mut found: Option<usize> = None;
    let mut i: usize = 0;
    while i < model.workspace_rows.len()
        invariant
            i <= model.workspace_rows@.len(),
            found == as_index(first_focused_row(model.workspace_rows@.take(i as int))),
            found matches Some(k) ==> k < i,
        decreases model.workspace_rows@.len() - i,
    {
        proof {
            assert(model.workspace_rows@.take(i + 1).drop_last() == model.workspace_rows@.take(i as int));
            assert(model.workspace_rows@.take(i + 1).last() == model.workspace_rows@[i as int]);
        }
        if found.is_none() && model.workspace_rows[i].focused && model.workspace_rows[i].workspace_id.is_some() {
            found = Some(i);
        }
        i = i + 1;
    }
    proof {
        assert(model.workspace_rows@.take(model.workspace_rows@.len() as int) == model.workspace_rows@);
        lemma_first_focused_row(model.workspace_rows@);
    }
    match found {
        None => ClientInputDispatch::Consumed,
        Some(k) => {
            let server_id = model.workspace_rows[k].server_id.duplicate();
            let workspace_id = match &model.workspace_rows[k].workspace_id {
                Some(w) => w.clone(),
                None => String::new(),
            };
            let label = match model.workspace_label(&server_id, workspace_id.as_str()) {
                Some(l) => l,
                None => workspace_id.clone(),
            };
            model.client_menu = None;
            model.overlay = match overlay {
                FocusedWorkspaceOverlay::Rename => WorkspaceOverlay::Rename { server_id, workspace_id, label },
                FocusedWorkspaceOverlay::Close => WorkspaceOverlay::ConfirmClose { server_id, workspace_id, label },
            };
            ClientInputDispatch::Redraw
        },
    }
}

/// Whether row `index` of the open client menu is a selectable row that opens the session picker.
pub fn client_menu_row_opens_session_picker(model: &ClientSupervisorModel, index: usize) -> (r: bool)
    ensures
        r == (model.client_menu matches Some(menu) && index < menu.items@.len()
            && menu.items@[index as int].selectable
            && menu.items@[index as int].action == ClientMenuAction::OpenSessionPicker),
{
    match &model.client_menu {
        Some(menu) => {
            if index < menu.items.len() {
                let item = &menu.items[index];
                item.selectable && match item.action {
                    ClientMenuAction::OpenSessionPicker => true,
                    _ => false,
                }
            } else {
                false
            }
        },
        None => false,
    }
}

/// A sidebar navigation action a key binding names.
#[derive(Debug, Clone, Copy, PartialEq, Eq)]
pub enum SidebarAction {
    NextWorkspace,
    PreviousWorkspace,
    NextAgent,
    PreviousAgent,
    RenameWorkspace,
    CloseWorkspace,
    ToggleSidebar,
}

/// `n` and `d` are what performing sidebar action `action` on `m` gives.
pub open spec fn sidebar_action_done(action: SidebarAction, m: ClientSupervisorModel, n: ClientSupervisorModel, d: ClientInputDispatch) -> bool {
    match action {
        SidebarAction::NextWorkspace | SidebarAction::PreviousWorkspace => {
            let delta: isize = if action is NextWorkspace { 1isize } else { -1isize };
            match stepped_target(workspace_targets(m.workspace_rows@), m.active_server_id@, delta) {
                Some(t) => n == (ClientSupervisorModel { active_server_id: t.server_id, ..m })
                    && focus_step_dispatch(d, m.active_server_id@, t, "client:workspace-focus"@,
                        Method::WorkspaceFocus(WorkspaceTarget { workspace_id: t.id })),
                None => d == ClientInputDispatch::Consumed && n == m,
            }
        },
        SidebarAction::NextAgent | SidebarAction::PreviousAgent => {
            let delta: isize = if action is NextAgent { 1isize } else { -1isize };
            match stepped_target(agent_targets(m.agent_groups@), m.active_server_id@, delta) {
                Some(t) => n == (ClientSupervisorModel { active_server_id: t.server_id, ..m })
                    && focus_step_dispatch(d, m.active_server_id@, t, "client:agent-focus"@,
                        Method::AgentFocus(AgentTarget { agent_id: t.id })),
                None => d == ClientInputDispatch::Consumed && n == m,
            }
        },
        SidebarAction::RenameWorkspace => focused_overlay_opened(m, n, d, FocusedWorkspaceOverlay::Rename),
        SidebarAction::CloseWorkspace => focused_overlay_opened(m, n, d, FocusedWorkspaceOverlay::Close),
        SidebarAction::ToggleSidebar => d == ClientInputDispatch::Consumed && n == m,
    }
}

/// Perform a sidebar navigation action the way the mouse does: stepping the workspace or agent
/// focus by one (with wraparound, across servers), opening the rename or close overlay for the
/// focused workspace, or consuming a sidebar toggle (which the compositor performs itself).
pub fn sidebar_action_dispatch(action: SidebarAction, model: &mut ClientSupervisorModel) -> (r: ClientInputDispatch)
    ensures
        sidebar_action_done(action, *old(model), *final(model), r),
{
    match action {
        SidebarAction::NextWorkspace => step_workspace_focus(model, 1),
        SidebarAction::PreviousWorkspace => step_workspace_focus(model, -1),
        SidebarAction::NextAgent => step_agent_focus(model, 1),
        SidebarAction::PreviousAgent => step_agent_focus(model, -1),
        SidebarAction::RenameWorkspace => open_focused_workspace_overlay(model, FocusedWorkspaceOverlay::Rename),
        SidebarAction::CloseWorkspace => open_focused_workspace_overlay(model, FocusedWorkspaceOverlay::Close),
        SidebarAction::ToggleSidebar => ClientInputDispatch::Consumed,
    }
}

/// The client's prefix-key state: whether the prefix is armed, and the raw bytes of the prefix
/// key that armed it (replayed to the server when the follow-up is not a sidebar action).
#[derive(Debug, Clone, PartialEq, Eq)]
pub struct PrefixState {
    pub armed: bool,
    pub pending: Option<Vec<u8>>,
}

/// What the key bindings make of one key event.
#[derive(Debug, Clone, Copy, PartialEq, Eq)]
pub struct KeyFacts {
    /// A press or a repeat (not a release).
    pub press: bool,
    /// The configured prefix key.
    pub is_prefix: bool,
    /// The Escape key.
    pub is_escape: bool,
    /// The sidebar action a prefix-mode binding names for this key, if any.
    pub prefix_action: Option<SidebarAction>,
    /// The sidebar action a direct binding names for this key, if any.
    pub direct_action: Option<SidebarAction>,
}

/// The bytes a follow-up key replays: the buffered prefix bytes, then the key's own.
pub open spec fn replayed(pending: Option<Vec<u8>>, data: Seq<u8>) -> Seq<u8> {
    match pending {
        Some(p) => p@ + data,
        None => data,
    }
}

/// Route one key (its raw bytes `data`) through the prefix gate. While armed: a release is
/// swallowed and keeps the prefix armed; any press disarms it, and then Escape or the prefix
/// key itself just leaves prefix mode, a prefix-mode sidebar binding runs its action, and any
/// other key is replayed to the server after the buffered prefix bytes. While not armed: a press
/// of the prefix key arms it (its bytes buffered, nothing forwarded), a press with a direct
/// sidebar binding runs its action, and anything else is left to the caller (`None`).
pub fn dispatch_composited_key_input(prefix: &mut PrefixState, key: KeyFacts, data: &[u8], model: &mut ClientSupervisorModel) -> (r: Option<ClientInputDispatch>)
    ensures
        old(prefix).armed ==> if !key.press {
            r == Some(ClientInputDispatch::Consumed) && *final(prefix) == *old(prefix) && *final(model) == *old(model)
        } else {
            &&& *final(prefix) == (PrefixState { armed: false, pending: None })
            &&& if key.is_escape || key.is_prefix {
                    r == Some(ClientInputDispatch::Redraw) && *final(model) == *old(model)
                } else {
                    match key.prefix_action {
                        Some(a) => (r matches Some(d) && sidebar_action_done(a, *old(model), *final(model), d)),
                        None => *final(model) == *old(model) && (r matches Some(ClientInputDispatch::Forward(bytes))
                            && bytes@ == replayed(old(prefix).pending, data@)),
                    }
                }
        },
        !old(prefix).armed ==> if key.press && key.is_prefix {
            &&& r == Some(ClientInputDispatch::Redraw)
            &&& final(prefix).armed
            &&& final(prefix).pending matches Some(p) && p@ == data@
            &&& *final(model) == *old(model)
        } else {
            &&& *final(prefix) == *old(prefix)
            &&& if key.press && key.direct_action is Some {
                    (r matches Some(d) && sidebar_action_done(key.direct_action->0, *old(model), *final(model), d))
                } else {
                    r is None && *final(model) == *old(model)
                }
        },
{
    if prefix.armed {
        if !key.press {
            return Some(ClientInputDispatch::Consumed);
        }
        let pending = prefix.pending.take();
        prefix.armed = false;
        if key.is_escape || key.is_prefix {
            return Some(ClientInputDispatch::Redraw);
        }
        match key.prefix_action {
            Some(a) => Some(sidebar_action_dispatch(a, model)),
            None => {
                let mut forwarded: Vec<u8> = match pending {
                    Some(p) => p,
                    None => Vec::new(),
                };
                push_all(&mut forwarded, data);
                proof {
                    if old(prefix).pending is None {
                        assert(forwarded@ =~= data@);
                    }
                }
                Some(ClientInputDispatch::Forward(forwarded))
            },
        }
    } else if key.press && key.is_prefix {
        prefix.armed = true;
        let mut buffered: Vec<u8> = Vec::new();
        push_all(&mut buffered, data);
        assert(buffered@ =~= data@);
        prefix.pending = Some(buffered);
        Some(ClientInputDispatch::Redraw)
    } else if key.press {
        match key.direct_action {
            Some(a) => Some(sidebar_action_dispatch(a, model)),
            None => None,
        }
    } else {
        None
    }
}

/// What selecting a menu row with action `a` asks for.
pub open spec fn menu_outcome(a: ClientMenuAction) -> ClientMenuOutcome {
    match a {
        ClientMenuAction::Settings => ClientMenuOutcome::Settings,
        ClientMenuAction::Keybinds => ClientMenuOutcome::Keybinds,
        ClientMenuAction::ReloadConfig => ClientMenuOutcome::ReloadConfig,
        ClientMenuAction::Detach => ClientMenuOutcome::Detach,
        ClientMenuAction::HostAddSpace(id) => ClientMenuOutcome::HostAddSpace(id),
        ClientMenuAction::HostToggleEnabled { remote_id, enabled } => ClientMenuOutcome::HostToggleEnabled { remote_id, enabled },
        ClientMenuAction::HostDisconnect(id) => ClientMenuOutcome::HostDisconnect(id),
        ClientMenuAction::HostReconnect(id) => ClientMenuOutcome::HostReconnect(id),
        ClientMenuAction::HostUpdate(id) => ClientMenuOutcome::HostUpdate(id),
        _ => ClientMenuOutcome::Redraw,
    }
}

/// The workspace overlay selecting action `a` of a menu of `kind` opens (else `current`).
pub open spec fn menu_overlay(kind: ClientMenuKind, a: ClientMenuAction, current: WorkspaceOverlay) -> WorkspaceOverlay {
    match kind {
        ClientMenuKind::Workspace { server_id, workspace_id, label } => match a {
            ClientMenuAction::RenameWorkspace => WorkspaceOverlay::Rename { server_id, workspace_id, label },
            ClientMenuAction::CloseWorkspace => WorkspaceOverlay::ConfirmClose { server_id, workspace_id, label },
            _ => current,
        },
        _ => current,
    }
}

/// `n` and `o` are what selecting row `index` of the open menu of `m` gives: a selectable row
/// closes the menu and asks for its action (managing remotes opens that overlay, a workspace
/// menu's rename and close rows open those overlays); anything else only repaints.
pub open spec fn menu_item_selected(m: ClientSupervisorModel, n: ClientSupervisorModel, index: usize, o: ClientMenuOutcome) -> bool {
    match m.client_menu {
        Some(menu) => if index < menu.items@.len() && menu.items@[index as int].selectable {
            let a = menu.items@[index as int].action;
            &&& o == menu_outcome(a)
            &&& n == (ClientSupervisorModel {
                    client_menu: None,
                    remote_manage: if a is ManageRemotes {
                        Some(RemoteManageOverlay { confirm_delete: None, pending: None })
                    } else {
                        m.remote_manage
                    },
                    overlay: menu_overlay(menu.kind, a, m.overlay),
                    ..m
                })
        } else {
            o == ClientMenuOutcome::Redraw && n == m
        },
        None => o == ClientMenuOutcome::Redraw && n == m,
    }
}

/// Selecting a selectable row of the open menu closes the menu and asks for what the row names:
/// each launcher row its own command, each host row the command of the same name for the same
/// host (reconnect reconnects, disconnect disconnects, ...); the other rows only repaint.
pub proof fn lemma_menu_row_asks_for_its_own_command(m: ClientSupervisorModel, n: ClientSupervisorModel, index: usize, o: ClientMenuOutcome)
    requires
        menu_item_selected(m, n, index, o),
        m.client_menu is Some,
        index < m.client_menu->0.items@.len(),
        m.client_menu->0.items@[index as int].selectable,
    ensures
        n.client_menu is None,
        ({
            let a = m.client_menu->0.items@[index as int].action;
            &&& a == ClientMenuAction::Settings ==> o == ClientMenuOutcome::Settings
            &&& a == ClientMenuAction::Keybinds ==> o == ClientMenuOutcome::Keybinds
            &&& a == ClientMenuAction::ReloadConfig ==> o == ClientMenuOutcome::ReloadConfig
            &&& a == ClientMenuAction::Detach ==> o == ClientMenuOutcome::Detach
            &&& a matches ClientMenuAction::HostAddSpace(id) ==> o == ClientMenuOutcome::HostAddSpace(id)
            &&& a matches ClientMenuAction::HostToggleEnabled { remote_id, enabled }
                ==> o == (ClientMenuOutcome::HostToggleEnabled { remote_id, enabled })
            &&& a matches ClientMenuAction::HostDisconnect(id) ==> o == ClientMenuOutcome::HostDisconnect(id)
            &&& a matches ClientMenuAction::HostReconnect(id) ==> o == ClientMenuOutcome::HostReconnect(id)
            &&& a matches ClientMenuAction::HostUpdate(id) ==> o == ClientMenuOutcome::HostUpdate(id)
            &&& (a is AddRemote || a is ManageRemotes || a is OpenSessionPicker || a is RenameWorkspace
                    || a is CloseWorkspace || a is Other) ==> o == ClientMenuOutcome::Redraw
        }),
{
}

/// Select row `index` of the open client menu (see `menu_item_selected`).
pub fn select_client_menu_item(model: &mut ClientSupervisorModel, index: usize) -> (r: ClientMenuOutcome)
    ensures
        menu_item_selected(*old(model), *final(model), index, r),
{
    let selectable = match &model.client_menu {
        Some(menu) => index < menu.items.len() && menu.items[index].selectable,
        None => false,
    };
    if !selectable {
        return ClientMenuOutcome::Redraw;
    }
    let ghost m0 = *model;
    let mut menu = match model.client_menu.take() {
        Some(menu) => menu,
        None => {
            return ClientMenuOutcome::Redraw;
        },
    };
    let item = menu.items.remove(index);
    let kind = menu.kind;
    let action = item.action;
    match action {
        ClientMenuAction::Settings => ClientMenuOutcome::Settings,
        ClientMenuAction::Keybinds => ClientMenuOutcome::Keybinds,
        ClientMenuAction::ReloadConfig => ClientMenuOutcome::ReloadConfig,
        ClientMenuAction::Detach => ClientMenuOutcome::Detach,
        ClientMenuAction::HostAddSpace(id) => ClientMenuOutcome::HostAddSpace(id),
        ClientMenuAction::HostToggleEnabled { remote_id, enabled } => ClientMenuOutcome::HostToggleEnabled { remote_id, enabled },
        ClientMenuAction::HostDisconnect(id) => ClientMenuOutcome::HostDisconnect(id),
        ClientMenuAction::HostReconnect(id) => ClientMenuOutcome::HostReconnect(id),
        ClientMenuAction::HostUpdate(id) => ClientMenuOutcome::HostUpdate(id),
        ClientMenuAction::ManageRemotes => {
            model.remote_manage = Some(RemoteManageOverlay { confirm_delete: None, pending: None });
            ClientMenuOutcome::Redraw
        },
        ClientMenuAction::RenameWorkspace => {
            match kind {
                ClientMenuKind::Workspace { server_id, workspace_id, label } => {
                    model.overlay = WorkspaceOverlay::Rename { server_id, workspace_id, label };
                },
                _ => {},
            }
            ClientMenuOutcome::Redraw
        },
        ClientMenuAction::CloseWorkspace => {
            match kind {
                ClientMenuKind::Workspace { server_id, workspace_id, label } => {
                    model.overlay = WorkspaceOverlay::ConfirmClose { server_id, workspace_id, label };
                },
                _ => {},
            }
            ClientMenuOutcome::Redraw
        },
        _ => ClientMenuOutcome::Redraw,
    }
}

/// `n` and `r` are what a mouse event gives while a client menu is open: the menu owns the whole
/// screen and nothing reaches the pane. `row` is the menu row under the pointer, if any. Motion
/// over a row highlights it (a repaint only when it moves); a left press on a row selects and
/// activates it; a right or middle press activates only the session-picker row; any other press
/// dismisses the client overlays; everything else is swallowed.
pub open spec fn open_menu_mouse_done(m: ClientSupervisorModel, n: ClientSupervisorModel, row: Option<usize>, mouse: MouseEvent, r: ClientInputDispatch) -> bool {
    let menu = m.client_menu->0;
    let close = ClientSupervisorModel {
        client_menu: None,
        overlay: WorkspaceOverlay::Closed,
        remote_manage: None,
        new_session: None,
        ..m
    };
    match mouse.kind {
        MouseEventKind::Moved => match row {
            Some(i) => if menu.selected == i {
                r == ClientInputDispatch::Consumed && n == m
            } else {
                r == ClientInputDispatch::HoverRedraw
                    && n == (ClientSupervisorModel { client_menu: Some(ClientMenu { selected: i, ..menu }), ..m })
            },
            None => r == ClientInputDispatch::Consumed && n == m,
        },
        MouseEventKind::Down(b) => match row {
            Some(i) if b == MouseButton::Left || (i < menu.items@.len() && menu.items@[i as int].selectable
                && menu.items@[i as int].action == ClientMenuAction::OpenSessionPicker) => {
                let picked = ClientSupervisorModel { client_menu: Some(ClientMenu { selected: i, ..menu }), ..m };
                exists|mid: ClientSupervisorModel, o: ClientMenuOutcome|
                    menu_item_selected(picked, mid, i, o) && client_menu_outcome_done(mid, n, o, r)
            },
            _ => r == ClientInputDispatch::Redraw && n == close,
        },
        _ => r == ClientInputDispatch::Consumed && n == m,
    }
}

/// Route a mouse event to the open client menu (see `open_menu_mouse_done`).
pub fn dispatch_open_client_menu_mouse(model: &mut ClientSupervisorModel, row: Option<usize>, mouse: &MouseEvent) -> (r: ClientInputDispatch)
    requires
        old(model).client_menu is Some,
    ensures
        open_menu_mouse_done(*old(model), *final(model), row, *mouse, r),
        !(r is Forward),
{
    let ghost m0 = *model;
    match mouse.kind {
        MouseEventKind::Moved => match row {
            Some(i) => {
                let same = match &model.client_menu {
                    Some(menu) => menu.selected == i,
                    None => true,
                };
                if same {
                    ClientInputDispatch::Consumed
                } else {
                    model.set_client_menu_selected(i);
                    ClientInputDispatch::HoverRedraw
                }
            },
            None => ClientInputDispatch::Consumed,
        },
        MouseEventKind::Down(b) => {
            let left = match b {
                MouseButton::Left => true,
                _ => false,
            };
            match row {
                Some(i) => {
                    if left || client_menu_row_opens_session_picker(model, i) {
                        model.set_client_menu_selected(i);
                        let ghost picked = *model;
                        let outcome = select_client_menu_item(model, i);
                        let ghost mid = *model;
                        let ghost o = outcome;
                        let r = dispatch_for_client_menu_outcome(model, outcome);
                        proof {
                            assert(menu_item_selected(picked, mid, i, o) && client_menu_outcome_done(mid, *model, o, r));
                        }
                        r
                    } else {
                        model.close_client_overlay();
                        ClientInputDispatch::Redraw
                    }
                },
                None => {
                    model.close_client_overlay();
                    ClientInputDispatch::Redraw
                },
            }
        },
        _ => ClientInputDispatch::Consumed,
    }
}

/// What a left press on the client-rendered sidebar hit.
#[derive(Debug, Clone, PartialEq, Eq)]
pub enum SidebarHitTarget {
    Workspace { server_id: ServerId, workspace_id: String },
    Agent { server_id: ServerId, agent_id: String },
    Menu,
    AgentScopeToggle,
    CollapsedSidebarToggle,
    WorktreeChevron { group_key: String },
    HostBanner { server_id: ServerId },
    HostBannerGlyph { server_id: ServerId },
    AddRemoteCancel,
    RenameWorkspaceCancel,
    ConfirmCloseWorkspaceCancel,
    NewSessionCancel,
    RemoteManageCancelDelete,
    RemoteManageConfirmDelete,
    RenameWorkspaceSubmit,
    ConfirmCloseWorkspaceConfirm,
    ClientMenuRow { index: usize },
}

/// Submit the open rename form: with a label to give, the form closes and asks for the rename
/// on the workspace's own server; otherwise (an empty label, or no rename form open) nothing
/// changes and the form is repainted.
pub fn submit_rename_workspace(model: &mut ClientSupervisorModel) -> (r: RenameWorkspaceOutcome)
    ensures
        match old(model).overlay {
            WorkspaceOverlay::Rename { server_id, workspace_id, label } => if label@.len() > 0 {
                r == (RenameWorkspaceOutcome::Submit { server_id, workspace_id, label })
                    && *final(model) == (ClientSupervisorModel { overlay: WorkspaceOverlay::Closed, ..*old(model) })
            } else {
                r == RenameWorkspaceOutcome::Redraw && *final(model) == *old(model)
            },
            _ => r == RenameWorkspaceOutcome::Redraw && *final(model) == *old(model),
        },
{
    let submit = match &model.overlay {
        WorkspaceOverlay::Rename { label, .. } => !label.as_str().is_empty(),
        _ => false,
    };
    if !submit {
        return RenameWorkspaceOutcome::Redraw;
    }
    let mut overlay = WorkspaceOverlay::Closed;
    std::mem::swap(&mut overlay, &mut model.overlay);
    match overlay {
        WorkspaceOverlay::Rename { server_id, workspace_id, label } => RenameWorkspaceOutcome::Submit { server_id, workspace_id, label },
        other => {
            model.overlay = other;
            RenameWorkspaceOutcome::Redraw
        },
    }
}

/// Accept the open close-workspace confirmation: it closes and asks to close the workspace on
/// its own server; with no confirmation open nothing changes.
pub fn accept_confirm_close_workspace(model: &mut ClientSupervisorModel) -> (r: ConfirmCloseOutcome)
    ensures
        match old(model).overlay {
            WorkspaceOverlay::ConfirmClose { server_id, workspace_id, .. } =>
                r == (ConfirmCloseOutcome::Confirm { server_id, workspace_id })
                    && *final(model) == (ClientSupervisorModel { overlay: WorkspaceOverlay::Closed, ..*old(model) }),
            _ => r == ConfirmCloseOutcome::Redraw && *final(model) == *old(model),
        },
{
    let confirm = match &model.overlay {
        WorkspaceOverlay::ConfirmClose { .. } => true,
        _ => false,
    };
    if !confirm {
        return ConfirmCloseOutcome::Redraw;
    }
    let mut overlay = WorkspaceOverlay::Closed;
    std::mem::swap(&mut overlay, &mut model.overlay);
    match overlay {
        WorkspaceOverlay::ConfirmClose { server_id, workspace_id, .. } => ConfirmCloseOutcome::Confirm { server_id, workspace_id },
        other => {
            model.overlay = other;
            ConfirmCloseOutcome::Redraw
        },
    }
}

/// `n` and `r` are what a press on sidebar target `target` gives (see `dispatch_sidebar_hit_target`).
pub open spec fn sidebar_hit_done(m: ClientSupervisorModel, n: ClientSupervisorModel, target: SidebarHitTarget, mouse: MouseEvent, r: ClientInputDispatch) -> bool {
    &&& !(mouse.kind == MouseEventKind::Down(MouseButton::Left)) ==> r == ClientInputDispatch::Consumed && n == m
    &&& mouse.kind == MouseEventKind::Down(MouseButton::Left) ==> match target {
        SidebarHitTarget::Workspace { server_id, workspace_id } => {
            let t = FocusTarget { server_id, id: workspace_id, focused: false };
            &&& focus_step_dispatch(r, m.active_server_id@, t, "client:workspace-focus"@,
                    Method::WorkspaceFocus(WorkspaceTarget { workspace_id }))
            &&& n == (ClientSupervisorModel { active_server_id: server_id, ..m })
        },
        SidebarHitTarget::Agent { server_id, agent_id } => {
            let t = FocusTarget { server_id, id: agent_id, focused: false };
            &&& focus_step_dispatch(r, m.active_server_id@, t, "client:agent-focus"@,
                    Method::AgentFocus(AgentTarget { agent_id }))
            &&& n == (ClientSupervisorModel { active_server_id: server_id, ..m })
        },
        SidebarHitTarget::Menu => r == ClientInputDispatch::Redraw
            && (n.client_menu matches Some(menu) && is_launcher_menu(menu)
                && menu.anchor_column == mouse.column && menu.anchor_row == mouse.row)
            && n == (ClientSupervisorModel { client_menu: n.client_menu, ..m }),
        SidebarHitTarget::HostBannerGlyph { server_id } => n == m
            && r == if reconnectable(m, server_id@) {
                ClientInputDispatch::ReconnectRemote { server_id }
            } else {
                ClientInputDispatch::Consumed
            },
        SidebarHitTarget::AddRemoteCancel | SidebarHitTarget::RenameWorkspaceCancel
        | SidebarHitTarget::ConfirmCloseWorkspaceCancel | SidebarHitTarget::NewSessionCancel =>
            r == ClientInputDispatch::Redraw && n == (ClientSupervisorModel {
                client_menu: None,
                overlay: WorkspaceOverlay::Closed,
                remote_manage: None,
                new_session: None,
                ..m
            }),
        SidebarHitTarget::RemoteManageCancelDelete => r == ClientInputDispatch::Redraw
            && n.remote_manage == match m.remote_manage {
                Some(o) => Some(RemoteManageOverlay { confirm_delete: None, pending: o.pending }),
                None => None,
            }
            && n == (ClientSupervisorModel { remote_manage: n.remote_manage, ..m }),
        SidebarHitTarget::RemoteManageConfirmDelete => match m.remote_manage {
            Some(o) if o.confirm_delete is Some => {
                &&& r == (ClientInputDispatch::DeleteRemote { remote_id: o.confirm_delete->0 })
                &&& n == (ClientSupervisorModel {
                        remote_manage: Some(RemoteManageOverlay { confirm_delete: None, pending: o.confirm_delete }),
                        ..m
                    })
            },
            _ => r == ClientInputDispatch::Redraw && n == m,
        },
        SidebarHitTarget::RenameWorkspaceSubmit => match m.overlay {
            WorkspaceOverlay::Rename { server_id, workspace_id, label } => if label@.len() > 0 {
                &&& is_api_request(r, server_id, "client:workspace-rename"@,
                        Method::WorkspaceRename(WorkspaceRenameParams { workspace_id, label }))
                &&& n == (ClientSupervisorModel { overlay: WorkspaceOverlay::Closed, ..m })
            } else {
                r == ClientInputDispatch::Redraw && n == m
            },
            _ => r == ClientInputDispatch::Redraw && n == m,
        },
        SidebarHitTarget::ConfirmCloseWorkspaceConfirm => match m.overlay {
            WorkspaceOverlay::ConfirmClose { server_id, workspace_id, .. } => {
                &&& is_api_request(r, server_id, "client:workspace-close"@,
                        Method::WorkspaceClose(WorkspaceTarget { workspace_id }))
                &&& n == (ClientSupervisorModel { overlay: WorkspaceOverlay::Closed, ..m })
            },
            _ => r == ClientInputDispatch::Redraw && n == m,
        },
        SidebarHitTarget::ClientMenuRow { index } => {
            let picked = ClientSupervisorModel {
                client_menu: match m.client_menu {
                    Some(menu) => Some(ClientMenu { selected: index, ..menu }),
                    None => None,
                },
                ..m
            };
            exists|mid: ClientSupervisorModel, o: ClientMenuOutcome|
                menu_item_selected(picked, mid, index, o) && client_menu_outcome_done(mid, n, o, r)
        },
        _ => r == ClientInputDispatch::Consumed && n == m,
    }
}

/// A left click on a selectable host row of the open menu sends that row's command for that
/// host: reconnect reconnects it, disconnect disconnects it, update updates it, the enable or
/// disable row sets the registry entry as it says; detach detaches every server.
pub proof fn lemma_menu_row_click_dispatches_its_command(m: ClientSupervisorModel, n: ClientSupervisorModel, index: usize, mouse: MouseEvent, r: ClientInputDispatch)
    requires
        mouse.kind == MouseEventKind::Down(MouseButton::Left),
        sidebar_hit_done(m, n, SidebarHitTarget::ClientMenuRow { index }, mouse, r),
        m.client_menu is Some,
        index < m.client_menu->0.items@.len(),
        m.client_menu->0.items@[index as int].selectable,
    ensures
        ({
            let a = m.client_menu->0.items@[index as int].action;
            &&& a matches ClientMenuAction::HostReconnect(id) ==> r == (ClientInputDispatch::ReconnectRemote { server_id: id })
            &&& a matches ClientMenuAction::HostDisconnect(id) ==> r == (ClientInputDispatch::DisconnectRemote { server_id: id })
            &&& a matches ClientMenuAction::HostUpdate(id) ==> r == (ClientInputDispatch::UpdateRemote { server_id: id })
            &&& a matches ClientMenuAction::HostToggleEnabled { remote_id, enabled }
                ==> r == (ClientInputDispatch::SetRemoteEnabled { remote_id, enabled })
            &&& a == ClientMenuAction::Detach ==> r == ClientInputDispatch::DetachAll
        }),
        n.client_menu is None,
{
    let menu = m.client_menu->0;
    let picked = ClientSupervisorModel { client_menu: Some(ClientMenu { selected: index, ..menu }), ..m };
    let (mid, o) = choose|mid: ClientSupervisorModel, o: ClientMenuOutcome|
        menu_item_selected(picked, mid, index, o) && client_menu_outcome_done(mid, n, o, r);
    lemma_menu_row_asks_for_its_own_command(picked, mid, index, o);
}

/// A mouse press on a sidebar target. Only a left press acts: a workspace or agent row focuses
/// it (switching servers as needed, with the refresh policy of the switch); the menu button
/// opens the launcher menu at the clicked cell; a down host's status glyph reconnects it; a
/// cancel button closes the client overlays or steps back from a delete confirmation; the
/// confirm button deletes the remote awaiting confirmation; the rename form's submit button and
/// the close confirmation's confirm button ask the workspace's server to rename or close it; a
/// client-menu row is selected and activated. The toggles, chevrons and banners are handled before this point and are
/// consumed here.
pub fn dispatch_sidebar_hit_target(target: SidebarHitTarget, model: &mut ClientSupervisorModel, mouse: &MouseEvent) -> (r: ClientInputDispatch)
    ensures
        sidebar_hit_done(*old(model), *final(model), target, *mouse, r),

{
    let left_press = match mouse.kind {
        MouseEventKind::Down(MouseButton::Left) => true,
        _ => false,
    };
    if !left_press {
        return ClientInputDispatch::Consumed;
    }
    match target {
        SidebarHitTarget::Workspace { server_id, workspace_id } => {
            let refresh = focus_refresh_policy(&model.active_server_id, &server_id);
            let request = model.focus_workspace_route(&server_id, workspace_id);
            ClientInputDispatch::ApiRequest { server_id, refresh, request: Box::new(request) }
        },
        SidebarHitTarget::Agent { server_id, agent_id } => {
            let refresh = focus_refresh_policy(&model.active_server_id, &server_id);
            let request = model.focus_agent_route(&server_id, agent_id);
            ClientInputDispatch::ApiRequest { server_id, refresh, request: Box::new(request) }
        },
        SidebarHitTarget::Menu => {
            model.open_client_global_menu(mouse.column, mouse.row);
            ClientInputDispatch::Redraw
        },
        SidebarHitTarget::HostBannerGlyph { server_id } => {
            if model.server_is_reconnectable(&server_id) {
                ClientInputDispatch::ReconnectRemote { server_id }
            } else {
                ClientInputDispatch::Consumed
            }
        },
        SidebarHitTarget::AddRemoteCancel | SidebarHitTarget::RenameWorkspaceCancel
        | SidebarHitTarget::ConfirmCloseWorkspaceCancel | SidebarHitTarget::NewSessionCancel => {
            model.close_client_overlay();
            ClientInputDispatch::Redraw
        },
        SidebarHitTarget::RemoteManageCancelDelete => {
            model.cancel_remote_manage_delete();
            ClientInputDispatch::Redraw
        },
        SidebarHitTarget::RemoteManageConfirmDelete => {
            let confirm = match &model.remote_manage {
                Some(o) => match &o.confirm_delete {
                    Some(id) => Some(id.clone()),
                    None => None,
                },
                None => None,
            };
            match confirm {
                Some(remote_id) => {
                    model.remote_manage = Some(RemoteManageOverlay { confirm_delete: None, pending: Some(remote_id.clone()) });
                    ClientInputDispatch::DeleteRemote { remote_id }
                },
                None => ClientInputDispatch::Redraw,
            }
        },
        SidebarHitTarget::RenameWorkspaceSubmit => dispatch_for_rename_workspace_outcome(submit_rename_workspace(model)),
        SidebarHitTarget::ConfirmCloseWorkspaceConfirm => dispatch_for_confirm_close_outcome(accept_confirm_close_workspace(model)),
        SidebarHitTarget::ClientMenuRow { index } => {
            model.set_client_menu_selected(index);
            let ghost picked = *model;
            let outcome = select_client_menu_item(model, index);
            let ghost mid = *model;
            let ghost o = outcome;
            let r = dispatch_for_client_menu_outcome(model, outcome);
            proof {
                assert(menu_item_selected(picked, mid, index, o) && client_menu_outcome_done(mid, *model, o, r));
            }
            r
        },
        SidebarHitTarget::AgentScopeToggle | SidebarHitTarget::CollapsedSidebarToggle
        | SidebarHitTarget::WorktreeChevron { .. } | SidebarHitTarget::HostBanner { .. } => ClientInputDispatch::Consumed,
    }
}

/// `n` and `r` are what a mouse event over the composed screen gives, once the compositor's
/// own handlers (overlay drag, sidebar resize, dividers, scrollbar, scrolling, reordering) have
/// passed it on: while a client menu is open the menu owns every event (`open_menu_mouse_done`:
/// nothing reaches the pane); a right press on a workspace row opens its context menu with the
/// row's shown label, and one on a host banner or its glyph opens the host menu; motion over the
/// sidebar, or while a hover is shown, defers a hover repaint; an event on a sidebar target (`hit`) is handled there (the scope toggle and a
/// worktree chevron repaint on a left press, the collapse toggle is consumed, the others act as
/// `sidebar_hit_done` says); any other event over the sidebar is consumed; an event over the
/// content is forwarded to the server as an SGR report at the content-relative column.
pub open spec fn composited_mouse_done(m: ClientSupervisorModel, n: ClientSupervisorModel, sidebar_width: u16, hover_active: bool, menu_row: Option<usize>, hit: Option<SidebarHitTarget>, mouse: MouseEvent, r: ClientInputDispatch) -> bool {
    let left_press = mouse.kind == MouseEventKind::Down(MouseButton::Left);
    if m.client_menu is Some {
        open_menu_mouse_done(m, n, menu_row, mouse, r)
    } else if mouse.kind == MouseEventKind::Moved && (mouse.column < sidebar_width || hover_active) {
        r == ClientInputDispatch::HoverRedraw && n == m
    } else if mouse.kind == MouseEventKind::Down(MouseButton::Right) && hit matches Some(SidebarHitTarget::Workspace { .. }) {
        let server_id = hit->0->Workspace_server_id;
        let workspace_id = hit->0->Workspace_workspace_id;
        &&& r == ClientInputDispatch::Redraw
        &&& exists|label: String| shown_label(m.workspace_rows@, server_id@, workspace_id@, label@)
                && (n.client_menu matches Some(menu)
                    && is_workspace_menu(menu, server_id, workspace_id, label, mouse.column, mouse.row))
        &&& n == (ClientSupervisorModel { client_menu: n.client_menu, ..m })
    } else if mouse.kind == MouseEventKind::Down(MouseButton::Right)
        && (hit matches Some(SidebarHitTarget::HostBanner { .. }) || hit matches Some(SidebarHitTarget::HostBannerGlyph { .. })) {
        let id = match hit->0 {
            SidebarHitTarget::HostBanner { server_id } => server_id,
            SidebarHitTarget::HostBannerGlyph { server_id } => server_id,
            _ => ServerId::Main,
        };
        &&& r == ClientInputDispatch::Redraw
        &&& n.client_menu matches Some(menu) && is_host_menu(menu, m, id, mouse.column, mouse.row)
        &&& n == (ClientSupervisorModel { client_menu: n.client_menu, ..m })
    } else {
        match hit {
            Some(SidebarHitTarget::AgentScopeToggle) =>
                n == m && r == (if left_press { ClientInputDispatch::Redraw } else { ClientInputDispatch::Consumed }),
            Some(SidebarHitTarget::CollapsedSidebarToggle) => n == m && r == ClientInputDispatch::Consumed,
            Some(SidebarHitTarget::WorktreeChevron { .. }) =>
                n == m && r == (if left_press { ClientInputDispatch::Redraw } else { ClientInputDispatch::Consumed }),
            Some(target) => sidebar_hit_done(m, n, target, mouse, r),
            None => if mouse.column < sidebar_width {
                n == m && r == ClientInputDispatch::Consumed
            } else {
                n == m && (r matches ClientInputDispatch::Forward(b)
                    && b@ == sgr_report(mouse.kind, (mouse.column - sidebar_width) as u16, mouse.row, mouse.modifiers))
            },
        }
    }
}

/// Route a mouse event over the composed screen (see `composited_mouse_done`).
pub fn dispatch_composited_mouse_input(
    model: &mut ClientSupervisorModel,
    sidebar_width: u16,
    hover_active: bool,
    menu_row: Option<usize>,
    hit: Option<SidebarHitTarget>,
    mouse: &MouseEvent,
) -> (r: ClientInputDispatch)
    ensures
        composited_mouse_done(*old(model), *final(model), sidebar_width, hover_active, menu_row, hit, *mouse, r),
        old(model).client_menu is Some ==> !(r is Forward),
{
    if model.client_menu.is_some() {
        return dispatch_open_client_menu_mouse(model, menu_row, mouse);
    }
    let left_press = match mouse.kind {
        MouseEventKind::Down(MouseButton::Left) => true,
        _ => false,
    };
    let right_press = match mouse.kind {
        MouseEventKind::Down(MouseButton::Right) => true,
        _ => false,
    };
    let moved = match mouse.kind {
        MouseEventKind::Moved => true,
        _ => false,
    };
    if moved && (mouse.column < sidebar_width || hover_active) {
        return ClientInputDispatch::HoverRedraw;
    }
    if right_press {
        match &hit {
            Some(SidebarHitTarget::Workspace { server_id, workspace_id }) => {
                let label = match model.workspace_label(server_id, workspace_id.as_str()) {
                    Some(l) => l,
                    None => workspace_id.clone(),
                };
                let ghost gl = label;
                model.open_workspace_context_menu(server_id.duplicate(), workspace_id.clone(), label, mouse.column, mouse.row);
                proof {
                    assert(shown_label(old(model).workspace_rows@, server_id@, workspace_id@, gl@));
                }
                return ClientInputDispatch::Redraw;
            },
            Some(SidebarHitTarget::HostBanner { server_id }) | Some(SidebarHitTarget::HostBannerGlyph { server_id }) => {
                model.open_host_context_menu(server_id.duplicate(), mouse.column, mouse.row);
                return ClientInputDispatch::Redraw;
            },
            _ => {},
        }
    }
    match hit {
        Some(SidebarHitTarget::AgentScopeToggle) => if left_press { ClientInputDispatch::Redraw } else { ClientInputDispatch::Consumed },
        Some(SidebarHitTarget::CollapsedSidebarToggle) => ClientInputDispatch::Consumed,
        Some(SidebarHitTarget::WorktreeChevron { .. }) => if left_press { ClientInputDispatch::Redraw } else { ClientInputDispatch::Consumed },
        Some(target) => dispatch_sidebar_hit_target(target, model, mouse),
        None => {
            if mouse.column < sidebar_width {
                ClientInputDispatch::Consumed
            } else {
                ClientInputDispatch::Forward(encode_sgr_mouse(mouse.kind, mouse.column - sidebar_width, mouse.row, mouse.modifiers))
            }
        },
    }
}

/// Whether the overlay input loop goes on after an event's dispatch, and what it holds so far.
#[derive(Debug, Clone, PartialEq, Eq)]
pub enum OverlayStep {
    /// A command for the event loop: it is the batch's dispatch and no later event is handled.
    Stop(ClientInputDispatch),
    /// Keep handling events with this dispatch so far.
    Continue(ClientInputDispatch),
}

/// The overlay loop's dispatch after one more event's dispatch `next`: a loop command stops the
/// batch; otherwise a repaint is promoted over `Consumed`, and a full `Redraw` wins over a
/// `HoverRedraw`.
pub open spec fn overlay_step(current: ClientInputDispatch, next: ClientInputDispatch) -> OverlayStep {
    if requires_loop_handling(next) {
        OverlayStep::Stop(next)
    } else if next is Redraw {
        OverlayStep::Continue(ClientInputDispatch::Redraw)
    } else if next is HoverRedraw && !(current is Redraw) {
        OverlayStep::Continue(ClientInputDispatch::HoverRedraw)
    } else {
        OverlayStep::Continue(current)
    }
}

/// Fold one event's dispatch into the overlay loop's dispatch (see `overlay_step`).
pub fn fold_overlay_dispatch(current: ClientInputDispatch, next: ClientInputDispatch) -> (r: OverlayStep)
    ensures
        r == overlay_step(current, next),
{
    if dispatch_requires_loop_handling(&next) {
        return OverlayStep::Stop(next);
    }
    match next {
        ClientInputDispatch::Redraw => OverlayStep::Continue(ClientInputDispatch::Redraw),
        ClientInputDispatch::HoverRedraw => match current {
            ClientInputDispatch::Redraw => OverlayStep::Continue(current),
            _ => OverlayStep::Continue(ClientInputDispatch::HoverRedraw),
        },
        _ => OverlayStep::Continue(current),
    }
}

/// The overlay loop's dispatch for a batch whose events dispatched as `ds`, in order, starting
/// from `current`.
pub open spec fn overlay_batch(current: ClientInputDispatch, ds: Seq<ClientInputDispatch>) -> ClientInputDispatch
    decreases ds.len(),
{
    if ds.len() == 0 {
        current
    } else {
        match overlay_step(current, ds[0]) {
            OverlayStep::Stop(d) => d,
            OverlayStep::Continue(c) => overlay_batch(c, ds.drop_first()),
        }
    }
}

/// The index of the first dispatch of `ds` that the event loop must handle.
pub open spec fn first_loop_command(ds: Seq<ClientInputDispatch>) -> Option<int>
    decreases ds.len(),
{
    if ds.len() == 0 {
        None
    } else if requires_loop_handling(ds[0]) {
        Some(0)
    } else {
        match first_loop_command(ds.drop_first()) {
            Some(k) => Some(k + 1),
            None => None,
        }
    }
}

/// The strongest repaint among `current` and `ds`: a full repaint over a hover repaint over
/// nothing.
pub open spec fn strongest_repaint(current: ClientInputDispatch, ds: Seq<ClientInputDispatch>) -> ClientInputDispatch {
    if current is Redraw || exists|i: int| 0 <= i < ds.len() && ds[i] is Redraw {
        ClientInputDispatch::Redraw
    } else if current is HoverRedraw || exists|i: int| 0 <= i < ds.len() && ds[i] is HoverRedraw {
        ClientInputDispatch::HoverRedraw
    } else {
        ClientInputDispatch::Consumed
    }
}

/// The overlay batch law: the first dispatch the loop must handle wins; without one, the batch
/// gives a full repaint if any event asked for one, else a hover repaint if any did, else it is
/// consumed; it never forwards input to the pane.
pub proof fn lemma_overlay_batch(current: ClientInputDispatch, ds: Seq<ClientInputDispatch>)
    requires
        current is Consumed || current is Redraw || current is HoverRedraw,
    ensures
        overlay_batch(current, ds) == match first_loop_command(ds) {
            Some(k) => ds[k],
            None => strongest_repaint(current, ds),
        },
        first_loop_command(ds) matches Some(k) ==> 0 <= k < ds.len() && requires_loop_handling(ds[k]),
        !(overlay_batch(current, ds) is Forward),
    decreases ds.len(),
{
    if ds.len() > 0 {
        let rest = ds.drop_first();
        if !requires_loop_handling(ds[0]) {
            let c = match overlay_step(current, ds[0]) {
                OverlayStep::Continue(c) => c,
                OverlayStep::Stop(d) => d,
            };
            lemma_overlay_batch(c, rest);
            match first_loop_command(rest) {
                Some(k) => {
                    assert(rest[k] == ds[k + 1]);
                },
                None => {
                    assert((exists|i: int| 0 <= i < ds.len() && ds[i] is Redraw)
                        == (ds[0] is Redraw || exists|i: int| 0 <= i < rest.len() && rest[i] is Redraw)) by {
                        if exists|i: int| 0 <= i < ds.len() && ds[i] is Redraw {
                            let i = choose|i: int| 0 <= i < ds.len() && ds[i] is Redraw;
                            if i > 0 {
                                assert(rest[i - 1] == ds[i]);
                            }
                        }
                        if exists|i: int| 0 <= i < rest.len() && rest[i] is Redraw {
                            let i = choose|i: int| 0 <= i < rest.len() && rest[i] is Redraw;
                            assert(ds[i + 1] == rest[i]);
                        }
                    }
                    assert((exists|i: int| 0 <= i < ds.len() && ds[i] is HoverRedraw)
                        == (ds[0] is HoverRedraw || exists|i: int| 0 <= i < rest.len() && rest[i] is HoverRedraw)) by {
                        if exists|i: int| 0 <= i < ds.len() && ds[i] is HoverRedraw {
                            let i = choose|i: int| 0 <= i < ds.len() && ds[i] is HoverRedraw;
                            if i > 0 {
                                assert(rest[i - 1] == ds[i]);
                            }
                        }
                        if exists|i: int| 0 <= i < rest.len() && rest[i] is HoverRedraw {
                            let i = choose|i: int| 0 <= i < rest.len() && rest[i] is HoverRedraw;
                            assert(ds[i + 1] == rest[i]);
                        }
                    }
                },
            }
        }
    }
}

/// The overlay loop's dispatch for a whole batch of per-event dispatches (see `overlay_batch`).
pub fn dispatch_overlay_batch(dispatches: Vec<ClientInputDispatch>) -> (r: ClientInputDispatch)
    ensures
        r == overlay_batch(ClientInputDispatch::Consumed, dispatches@),
        r == match first_loop_command(dispatches@) {
            Some(k) => dispatches@[k],
            None => strongest_repaint(ClientInputDispatch::Consumed, dispatches@),
        },
        !(r is Forward),
{
    proof {
        lemma_overlay_batch(ClientInputDispatch::Consumed, dispatches@);
    }
    let ghost all = dispatches@;
    let mut current = ClientInputDispatch::Consumed;
    let mut rest = dispatches;
    while rest.len() > 0
        invariant
            all == dispatches@,
            current is Consumed || current is Redraw || current is HoverRedraw,
            overlay_batch(current, rest@) == overlay_batch(ClientInputDispatch::Consumed, all),
        decreases rest@.len(),
    {
        let ghost before = rest@;
        let ghost cur = current;
        let next = rest.remove(0);
        proof {
            assert(before[0] == next);
            assert(before.drop_first() =~= rest@);
        }
        match fold_overlay_dispatch(current, next) {
            OverlayStep::Stop(d) => {
                assert(overlay_batch(cur, before) == d);
                assert(overlay_batch(ClientInputDispatch::Consumed, dispatches@) == d);
                proof {
                    lemma_overlay_batch(ClientInputDispatch::Consumed, dispatches@);
                }
                return d;
            },
            OverlayStep::Continue(c) => {
                current = c;
            },
        }
    }
    current
}

/// Once a batch holds a full repaint, no later event's dispatch downgrades it: it stays a
/// `Redraw` or the batch stops on a loop command.
pub proof fn lemma_overlay_redraw_sticks(next: ClientInputDispatch)
    ensures
        match overlay_step(ClientInputDispatch::Redraw, next) {
            OverlayStep::Continue(d) => d == ClientInputDispatch::Redraw,
            OverlayStep::Stop(d) => d == next && requires_loop_handling(next),
        },
{
}

} // verus!
