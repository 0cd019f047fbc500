//! The client's view of the servers it supervises: the aggregated sidebar rows, the active
//! server, the open client menu and workspace overlays, and the registered secondaries.

use vstd::prelude::*;
use crate::protocol::{Method, Request, ServerId, WorkspaceCreateParams, WorkspaceTarget, AgentTarget};
use crate::text::str_is;
use crate::protocol::clone_opt_string;

verus! {

/// One aggregated workspace row of the sidebar (`workspace_id` is `None` for a placeholder).
#[derive(Debug, Clone, PartialEq, Eq)]
pub struct WorkspaceRow {
    pub server_id: ServerId,
    pub workspace_id: Option<String>,
    pub label: String,
    pub focused: bool,
}

/// One agent row of the sidebar.
#[derive(Debug, Clone, PartialEq, Eq)]
pub struct AgentRow {
    pub agent_id: String,
    pub status: String,
    pub focused: bool,
}

/// The agents one server reports.
#[derive(Debug, Clone, PartialEq, Eq)]
pub struct AgentGroup {
    pub server_id: ServerId,
    pub agents: Vec<AgentRow>,
}

/// What activating a client-menu row does.
#[derive(Debug, Clone, PartialEq, Eq)]
pub enum ClientMenuAction {
    AddRemote,
    ManageRemotes,
    Settings,
    Keybinds,
    ReloadConfig,
    Detach,
    OpenSessionPicker,
    /// Open the rename form of the menu's workspace.
    RenameWorkspace,
    /// Ask to close the menu's workspace.
    CloseWorkspace,
    /// Create a workspace on this host.
    HostAddSpace(ServerId),
    /// Enable or disable this registered remote.
    HostToggleEnabled { remote_id: String, enabled: bool },
    /// Drop this host's stream without disabling it.
    HostDisconnect(ServerId),
    /// Bring this host's stream back.
    HostReconnect(ServerId),
    /// Reinstall this host's herdr.
    HostUpdate(ServerId),
    Other,
}

/// Which menu is open.
#[derive(Debug, Clone, PartialEq, Eq)]
pub enum ClientMenuKind {
    /// The global launcher menu.
    Launcher,
    /// The context menu of a workspace row, with the label it showed.
    Workspace { server_id: ServerId, workspace_id: String, label: String },
    /// The context menu of a host banner.
    Host { server_id: ServerId },
}

/// One row of an open client menu.
#[derive(Debug, Clone, PartialEq, Eq)]
pub struct ClientMenuItem {
    pub label: String,
    pub selectable: bool,
    pub action: ClientMenuAction,
}

/// The open client menu (launcher, workspace or host menu).
#[derive(Debug, Clone, PartialEq, Eq)]
pub struct ClientMenu {
    pub kind: ClientMenuKind,
    pub selected: usize,
    /// The column of the cell the menu floats from (the clicked cell).
    pub anchor_column: u16,
    /// The row of the cell the menu floats from.
    pub anchor_row: u16,
    pub items: Vec<ClientMenuItem>,
}

/// A workspace overlay the keyboard opens for the focused workspace.
#[derive(Debug, Clone, PartialEq, Eq)]
pub enum WorkspaceOverlay {
    Closed,
    Rename { server_id: ServerId, workspace_id: String, label: String },
    ConfirmClose { server_id: ServerId, workspace_id: String, label: String },
}

/// How far the client's stream to a server has come.
#[derive(Debug, Clone, Copy, PartialEq, Eq, Structural)]
pub enum ConnectionState {
    Connecting,
    Connected,
    Disconnected,
    /// The server speaks another protocol version than this client.
    ProtocolMismatch { server_protocol: Option<u32>, client_protocol: u32 },
}

/// The terminal outcome line of a host update (or of a refused registry change).
#[derive(Debug, Clone, PartialEq, Eq)]
pub struct HostUpdateOutcome {
    pub message: String,
    pub success: bool,
}

/// A registered secondary server and what its host banner shows.
#[derive(Debug, Clone, PartialEq, Eq)]
pub struct SecondaryServer {
    pub server_id: ServerId,
    pub name: String,
    pub disabled: bool,
    pub connection_state: ConnectionState,
    pub update_progress: Option<String>,
    pub update_outcome: Option<HostUpdateOutcome>,
}

/// The remote-management overlay: the remote awaiting a delete confirmation and the remote
/// whose registry change is in flight.
#[derive(Debug, Clone, PartialEq, Eq)]
pub struct RemoteManageOverlay {
    pub confirm_delete: Option<String>,
    pub pending: Option<String>,
}

/// The new-session form of a remote, with the reason a switch was refused.
#[derive(Debug, Clone, PartialEq, Eq)]
pub struct NewSessionForm {
    pub remote_id: String,
    pub error: Option<String>,
}

/// A change to the banner state of a secondary: each field that is `Some` replaces the
/// secondary's own.
#[derive(Debug, Clone, PartialEq, Eq)]
pub struct BannerChange {
    pub connection: Option<ConnectionState>,
    pub progress: Option<Option<String>>,
    pub outcome: Option<Option<HostUpdateOutcome>>,
}

/// A secondary after `change`.
pub open spec fn changed_secondary(s: SecondaryServer, change: BannerChange) -> SecondaryServer {
    SecondaryServer {
        connection_state: match change.connection {
            Some(c) => c,
            None => s.connection_state,
        },
        update_progress: match change.progress {
            Some(p) => p,
            None => s.update_progress,
        },
        update_outcome: match change.outcome {
            Some(o) => o,
            None => s.update_outcome,
        },
        ..s
    }
}

/// `n` is `m` with `change` applied to every secondary whose id is in `ids`; a server that
/// drops to `Disconnected` stops being the active one, and the main server takes over.
pub open spec fn banners_updated(m: ClientSupervisorModel, n: ClientSupervisorModel, ids: Set<Option<Seq<char>>>, change: BannerChange) -> bool {
    &&& banner_fields_updated(m, n, ids, change)
    &&& n == (ClientSupervisorModel { secondaries: n.secondaries, active_server_id: n.active_server_id, ..m })
}

/// The secondaries and the active server of `n` are those of `m` after `change` to `ids`.
pub open spec fn banner_fields_updated(m: ClientSupervisorModel, n: ClientSupervisorModel, ids: Set<Option<Seq<char>>>, change: BannerChange) -> bool {
    &&& n.secondaries@.len() == m.secondaries@.len()
    &&& forall|i: int| 0 <= i < m.secondaries@.len() ==> #[trigger] n.secondaries@[i] == if ids.contains(m.secondaries@[i].server_id@) {
            changed_secondary(m.secondaries@[i], change)
        } else {
            m.secondaries@[i]
        }
    &&& n.active_server_id == if change.connection == Some(ConnectionState::Disconnected) && ids.contains(m.active_server_id@) {
            ServerId::Main
        } else {
            m.active_server_id
        }
}

/// Applying `change` to `ids` and then to `id` applies it to both.
pub proof fn lemma_banners_compose(m1: ClientSupervisorModel, m2: ClientSupervisorModel, m3: ClientSupervisorModel, ids: Set<Option<Seq<char>>>, id: Option<Seq<char>>, change: BannerChange)
    requires
        banners_updated(m1, m2, ids, change),
        banners_updated(m2, m3, set![id], change),
    ensures
        banners_updated(m1, m3, ids.insert(id), change),
{
    assert forall|i: int| 0 <= i < m1.secondaries@.len() implies #[trigger] m3.secondaries@[i] == if ids.insert(id).contains(m1.secondaries@[i].server_id@) {
        changed_secondary(m1.secondaries@[i], change)
    } else {
        m1.secondaries@[i]
    } by {
        assert(m2.secondaries@[i].server_id == m1.secondaries@[i].server_id);
    }
}

/// The model holds a connection plan for `id`: an enabled secondary registered as `id`.
pub open spec fn has_connection_plan(m: ClientSupervisorModel, id: Option<Seq<char>>) -> bool {
    exists|i: int| 0 <= i < m.secondaries@.len() && (#[trigger] m.secondaries@[i]).server_id@ == id
        && !m.secondaries@[i].disabled
}

/// Banner changes keep the connection plans.
pub proof fn lemma_banners_keep_plans(m: ClientSupervisorModel, n: ClientSupervisorModel, ids: Set<Option<Seq<char>>>, change: BannerChange, id: Option<Seq<char>>)
    requires
        banners_updated(m, n, ids, change),
    ensures
        has_connection_plan(m, id) == has_connection_plan(n, id),
{
    if has_connection_plan(m, id) {
        let i = choose|i: int| 0 <= i < m.secondaries@.len() && (#[trigger] m.secondaries@[i]).server_id@ == id
            && !m.secondaries@[i].disabled;
        assert(n.secondaries@[i].server_id == m.secondaries@[i].server_id);
    }
    if has_connection_plan(n, id) {
        let i = choose|i: int| 0 <= i < n.secondaries@.len() && (#[trigger] n.secondaries@[i]).server_id@ == id
            && !n.secondaries@[i].disabled;
        assert(n.secondaries@[i].server_id == m.secondaries@[i].server_id);
    }
}

/// Nothing changes for an empty set of servers, with or without a model.
pub proof fn lemma_banners_none_opt(m: Option<ClientSupervisorModel>, change: BannerChange)
    ensures
        match m {
            Some(a) => banners_updated(a, a, Set::empty(), change),
            None => true,
        },
{
}


/// The remote-management overlay once the change for `remote_id` has finished.
pub open spec fn manage_cleared(o: Option<RemoteManageOverlay>, remote_id: Seq<char>) -> Option<RemoteManageOverlay> {
    match o {
        Some(o) => Some(RemoteManageOverlay {
            confirm_delete: if o.confirm_delete matches Some(c) && c@ == remote_id { None } else { o.confirm_delete },
            pending: if o.pending matches Some(p) && p@ == remote_id { None } else { o.pending },
        }),
        None => None,
    }
}

/// The new-session form once a switch for `remote_id` was refused with `error`.
pub open spec fn session_failed(f: Option<NewSessionForm>, remote_id: Seq<char>, error: String) -> Option<NewSessionForm> {
    match f {
        Some(f) => if f.remote_id@ == remote_id {
            Some(NewSessionForm { remote_id: f.remote_id, error: Some(error) })
        } else {
            Some(f)
        },
        None => None,
    }
}

/// The new-session form once a switch for `remote_id` landed.
pub open spec fn session_finished(f: Option<NewSessionForm>, remote_id: Seq<char>) -> Option<NewSessionForm> {
    match f {
        Some(f) => if f.remote_id@ == remote_id { None } else { Some(f) },
        None => None,
    }
}

/// The secondaries of `m` without those registered as `id`, and the active server after the
/// main server takes over from `id`.
pub open spec fn secondary_removed(m: ClientSupervisorModel, n: ClientSupervisorModel, id: Option<Seq<char>>) -> bool {
    &&& n.secondaries@ == m.secondaries@.filter(|s: SecondaryServer| s.server_id@ != id)
    &&& n.active_server_id == (if m.active_server_id@ == id { ServerId::Main } else { m.active_server_id })
}

/// A copy of an update outcome.
pub fn copy_outcome(o: &Option<HostUpdateOutcome>) -> (r: Option<HostUpdateOutcome>)
    ensures
        r == *o,
{
    match o {
        Some(x) => Some(HostUpdateOutcome { message: x.message.clone(), success: x.success }),
        None => None,
    }
}

/// The client's supervisor model.
#[derive(Debug, Clone)]
pub struct ClientSupervisorModel {
    pub main_display_name: String,
    pub active_server_id: ServerId,
    pub workspace_rows: Vec<WorkspaceRow>,
    pub agent_groups: Vec<AgentGroup>,
    pub client_menu: Option<ClientMenu>,
    pub overlay: WorkspaceOverlay,
    pub secondaries: Vec<SecondaryServer>,
    pub remote_manage: Option<RemoteManageOverlay>,
    pub new_session: Option<NewSessionForm>,
}

/// The rows of the client's global launcher menu, in order.
pub open spec fn global_menu_labels() -> Seq<Seq<char>> {
    seq!["settings"@, "keybinds"@, "reload config"@, "detach"@, "add remote"@, "manage remotes"@]
}

/// The action of row `i` of the global launcher menu.
pub open spec fn global_menu_action(i: int) -> ClientMenuAction {
    if i == 0 {
        ClientMenuAction::Settings
    } else if i == 1 {
        ClientMenuAction::Keybinds
    } else if i == 2 {
        ClientMenuAction::ReloadConfig
    } else if i == 3 {
        ClientMenuAction::Detach
    } else if i == 4 {
        ClientMenuAction::AddRemote
    } else {
        ClientMenuAction::ManageRemotes
    }
}

/// The global launcher menu: its rows in order, all selectable, the first selected.
pub open spec fn is_launcher_menu(menu: ClientMenu) -> bool {
    &&& menu.kind == ClientMenuKind::Launcher
    &&& menu.selected == 0
    &&& menu.items@.len() == global_menu_labels().len()
    &&& forall|i: int| 0 <= i < menu.items@.len() ==> (#[trigger] menu.items@[i]).label@ == global_menu_labels()[i]
            && menu.items@[i].selectable && menu.items@[i].action == global_menu_action(i)
}

/// The index of the first secondary of `secs` registered as `id`.
pub open spec fn first_secondary(secs: Seq<SecondaryServer>, id: Option<Seq<char>>) -> Option<int>
    decreases secs.len(),
{
    if secs.len() == 0 {
        None
    } else {
        match first_secondary(secs.drop_last(), id) {
            Some(k) => Some(k),
            None => if secs.last().server_id@ == id { Some(secs.len() - 1) } else { None },
        }
    }
}

/// The registry id of a secondary (empty for the main server).
pub open spec fn registry_id(id: ServerId) -> Seq<char> {
    match id {
        ServerId::Secondary(r) => r@,
        ServerId::Main => Seq::empty(),
    }
}

/// A selectable menu row.
pub open spec fn menu_row(item: ClientMenuItem, label: Seq<char>, action: ClientMenuAction) -> bool {
    item.label@ == label && item.selectable && item.action == action
}

/// The context menu of workspace `workspace_id` of `server_id`, shown as `label`, opened at
/// (`column`, `row`): rename and close.
pub open spec fn is_workspace_menu(menu: ClientMenu, server_id: ServerId, workspace_id: String, label: String, column: u16, row: u16) -> bool {
    &&& menu.kind == (ClientMenuKind::Workspace { server_id, workspace_id, label })
    &&& menu.selected == 0
    &&& menu.anchor_column == column && menu.anchor_row == row
    &&& menu.items@.len() == 2
    &&& menu_row(menu.items@[0], "rename"@, ClientMenuAction::RenameWorkspace)
    &&& menu_row(menu.items@[1], "close"@, ClientMenuAction::CloseWorkspace)
}

/// The context menu of host `id` in `m`, opened at (`column`, `row`): add a workspace; for a
/// registered remote also enable or disable it, disconnect or reconnect it (by whether it is
/// connected), and update it.
pub open spec fn is_host_menu(menu: ClientMenu, m: ClientSupervisorModel, id: ServerId, column: u16, row: u16) -> bool {
    &&& menu.kind == (ClientMenuKind::Host { server_id: id })
    &&& menu.selected == 0
    &&& menu.anchor_column == column && menu.anchor_row == row
    &&& menu.items@.len() >= 1
    &&& menu_row(menu.items@[0], "add space"@, ClientMenuAction::HostAddSpace(id))
    &&& match first_secondary(m.secondaries@, id@) {
        None => menu.items@.len() == 1,
        Some(k) => {
            let s = m.secondaries@[k];
            let connected = s.connection_state == ConnectionState::Connected;
            &&& menu.items@.len() == 4
            &&& menu.items@[1].label@ == (if s.disabled { "enable"@ } else { "disable"@ })
            &&& menu.items@[1].selectable
            &&& menu.items@[1].action matches ClientMenuAction::HostToggleEnabled { remote_id, enabled }
                && remote_id@ == registry_id(id) && enabled == s.disabled
            &&& menu_row(menu.items@[2], if connected { "disconnect"@ } else { "reconnect"@ },
                    if connected { ClientMenuAction::HostDisconnect(id) } else { ClientMenuAction::HostReconnect(id) })
            &&& menu_row(menu.items@[3], "update"@, ClientMenuAction::HostUpdate(id))
        },
    }
}

/// The first registration found for `id` is one.
pub proof fn lemma_first_secondary(secs: Seq<SecondaryServer>, id: Option<Seq<char>>)
    ensures
        first_secondary(secs, id) matches Some(k) ==> 0 <= k < secs.len() && secs[k].server_id@ == id,
    decreases secs.len(),
{
    if secs.len() > 0 {
        lemma_first_secondary(secs.drop_last(), id);
    }
}

/// `id` is a registered secondary that is disconnected.
pub open spec fn reconnectable(m: ClientSupervisorModel, id: Option<Seq<char>>) -> bool {
    exists|i: int| 0 <= i < m.secondaries@.len() && (#[trigger] m.secondaries@[i]).server_id@ == id
        && m.secondaries@[i].connection_state == ConnectionState::Disconnected
}

/// The ids of the enabled secondaries, in registry order.
pub open spec fn enabled_secondary_ids(s: Seq<SecondaryServer>) -> Seq<ServerId>
    decreases s.len(),
{
    if s.len() == 0 {
        Seq::empty()
    } else {
        let rest = enabled_secondary_ids(s.drop_last());
        if s.last().disabled { rest } else { rest.push(s.last().server_id) }
    }
}

/// Whether the model knows the server `id` (the main server or a registered secondary).
pub open spec fn knows_server(secondaries: Seq<SecondaryServer>, id: Option<Seq<char>>) -> bool {
    id is None || exists|i: int| 0 <= i < secondaries.len() && (#[trigger] secondaries[i]).server_id@ == id
}

impl ClientSupervisorModel {
    /// A main-only model labelled `main_display_name`: no secondaries, no rows, nothing open.
    pub fn new(main_display_name: &str) -> (r: ClientSupervisorModel)
        ensures
            r.main_display_name@ == main_display_name@,
            r.active_server_id@ is None,
            r.workspace_rows@.len() == 0,
            r.agent_groups@.len() == 0,
            r.client_menu is None,
            r.overlay == WorkspaceOverlay::Closed,
            r.secondaries@.len() == 0,
            r.remote_manage is None,
            r.new_session is None,
    {
        ClientSupervisorModel {
            main_display_name: String::from_str(main_display_name),
            active_server_id: ServerId::Main,
            workspace_rows: Vec::new(),
            agent_groups: Vec::new(),
            client_menu: None,
            overlay: WorkspaceOverlay::Closed,
            secondaries: Vec::new(),
            remote_manage: None,
            new_session: None,
        }
    }

    /// The server the user is on.
    pub fn active_server_id(&self) -> (r: &ServerId)
        ensures
            *r == self.active_server_id,
    {
        &self.active_server_id
    }

    /// Make the main server the active one.
    pub fn activate_main_server(&mut self)
        ensures
            *final(self) == (ClientSupervisorModel { active_server_id: ServerId::Main, ..*old(self) }),
    {
        self.active_server_id = ServerId::Main;
    }

    /// The labels of the global launcher menu.
    pub fn client_global_menu_items(&self) -> (r: Vec<&'static str>)
        ensures
            r@.len() == global_menu_labels().len(),
            forall|i: int| 0 <= i < r@.len() ==> (#[trigger] r@[i])@ == global_menu_labels()[i],
    {
        let mut v: Vec<&'static str> = Vec::new();
        v.push("settings");
        v.push("keybinds");
        v.push("reload config");
        v.push("detach");
        v.push("add remote");
        v.push("manage remotes");
        v
    }

    /// The secondaries the client should hold a stream to: the enabled ones, in registry order.
    pub fn secondary_connection_plans(&self) -> (r: Vec<ServerId>)
        ensures
            r@ == enabled_secondary_ids(self.secondaries@),
    {
        let mut r: Vec<ServerId> = Vec::new();
        let mut i: usize = 0;
        while i < self.secondaries.len()
            invariant
                i <= self.secondaries@.len(),
                r@ == enabled_secondary_ids(self.secondaries@.subrange(0, i as int)),
            decreases self.secondaries@.len() - i,
        {
            proof {
                assert(self.secondaries@.subrange(0, i + 1).drop_last() =~= self.secondaries@.subrange(0, i as int));
            }
            if !self.secondaries[i].disabled {
                r.push(self.secondaries[i].server_id.duplicate());
            }
            i = i + 1;
        }
        proof {
            assert(self.secondaries@.subrange(0, self.secondaries@.len() as int) =~= self.secondaries@);
        }
        r
    }

    /// Whether the model knows the server `id`.
    pub fn knows_server(&self, id: &ServerId) -> (r: bool)
        ensures
            r == knows_server(self.secondaries@, id@),
    {
        if id.is_main() {
            return true;
        }
        let mut i: usize = 0;
        while i < self.secondaries.len()
            invariant
                i <= self.secondaries@.len(),
                !(id@ is None),
                forall|j: int| 0 <= j < i ==> (#[trigger] self.secondaries@[j]).server_id@ != id@,
            decreases self.secondaries@.len() - i,
        {
            if self.secondaries[i].server_id.same_as(id) {
                return true;
            }
            i = i + 1;
        }
        false
    }

    /// Apply `change` to the banner of every secondary registered as `id`.
    pub fn update_banner(&mut self, id: &ServerId, change: &BannerChange)
        ensures
            banners_updated(*old(self), *final(self), set![id@], *change),
    {
        let mut i: usize = 0;
        while i < self.secondaries.len()
            invariant
                i <= self.secondaries@.len(),
                self.secondaries@.len() == old(self).secondaries@.len(),
                forall|j: int| 0 <= j < self.secondaries@.len() ==> #[trigger] self.secondaries@[j] == if j < i
                    && set![id@].contains(old(self).secondaries@[j].server_id@) {
                    changed_secondary(old(self).secondaries@[j], *change)
                } else {
                    old(self).secondaries@[j]
                },
                *self == (ClientSupervisorModel { secondaries: self.secondaries, ..*old(self) }),
            decreases self.secondaries@.len() - i,
        {
            if self.secondaries[i].server_id.same_as(id) {
                let s = &self.secondaries[i];
                let updated = SecondaryServer {
                    server_id: s.server_id.duplicate(),
                    name: s.name.clone(),
                    disabled: s.disabled,
                    connection_state: match change.connection {
                        Some(c) => c,
                        None => s.connection_state,
                    },
                    update_progress: match &change.progress {
                        Some(p) => clone_opt_string(p),
                        None => clone_opt_string(&s.update_progress),
                    },
                    update_outcome: match &change.outcome {
                        Some(o) => copy_outcome(o),
                        None => copy_outcome(&s.update_outcome),
                    },
                };
                self.secondaries.set(i, updated);
            }
            i = i + 1;
        }
        let disconnected = match change.connection {
            Some(ConnectionState::Disconnected) => true,
            _ => false,
        };
        if disconnected && self.active_server_id.same_as(id) {
            self.active_server_id = ServerId::Main;
        }
    }

    /// Record the connection state of a secondary. A server that drops to `Disconnected` stops
    /// being the active one: the main server takes over.
    pub fn set_connection_state(&mut self, id: &ServerId, state: ConnectionState)
        ensures
            banners_updated(*old(self), *final(self), set![id@],
                BannerChange { connection: Some(state), progress: None, outcome: None }),
    {
        self.update_banner(id, &BannerChange { connection: Some(state), progress: None, outcome: None });
    }

    /// Set (or clear) the progress line of a secondary's banner.
    pub fn set_update_progress(&mut self, id: &ServerId, progress: Option<String>)
        ensures
            banners_updated(*old(self), *final(self), set![id@],
                BannerChange { connection: None, progress: Some(progress), outcome: None }),
    {
        self.update_banner(id, &BannerChange { connection: None, progress: Some(progress), outcome: None });
    }

    /// Show a terminal outcome line on a secondary's banner.
    pub fn set_update_outcome(&mut self, id: &ServerId, outcome: HostUpdateOutcome)
        ensures
            banners_updated(*old(self), *final(self), set![id@],
                BannerChange { connection: None, progress: None, outcome: Some(Some(outcome)) }),
    {
        self.update_banner(id, &BannerChange { connection: None, progress: None, outcome: Some(Some(outcome)) });
    }

    /// Clear the outcome line of a secondary's banner.
    pub fn clear_update_outcome(&mut self, id: &ServerId)
        ensures
            banners_updated(*old(self), *final(self), set![id@],
                BannerChange { connection: None, progress: None, outcome: Some(None) }),
    {
        self.update_banner(id, &BannerChange { connection: None, progress: None, outcome: Some(None) });
    }

    /// Forget the secondary `id`: its registrations leave the model, and when it was the active
    /// server the main server takes over.
    pub fn remove_secondary(&mut self, id: &ServerId)
        ensures
            secondary_removed(*old(self), *final(self), id@),
            *final(self) == (ClientSupervisorModel {
                secondaries: final(self).secondaries,
                active_server_id: final(self).active_server_id,
                ..*old(self)
            }),
    {
        let ghost pred = |s: SecondaryServer| s.server_id@ != id@;
        let old_list = &self.secondaries;
        let mut kept: Vec<SecondaryServer> = Vec::new();
        let mut i: usize = 0;
        proof {
            reveal(Seq::filter);
        }
        while i < old_list.len()
            invariant
                i <= old_list@.len(),
                old_list@ == old(self).secondaries@,
                kept@ == old_list@.take(i as int).filter(pred),
                pred == (|s: SecondaryServer| s.server_id@ != id@),
            decreases old_list@.len() - i,
        {
            proof {
                reveal(Seq::filter);
                assert(old_list@.take(i + 1).drop_last() == old_list@.take(i as int));
                assert(old_list@.take(i + 1).last() == old_list@[i as int]);
            }
            let s = &old_list[i];
            if !s.server_id.same_as(id) {
                kept.push(SecondaryServer {
                    server_id: s.server_id.duplicate(),
                    name: s.name.clone(),
                    disabled: s.disabled,
                    connection_state: s.connection_state,
                    update_progress: clone_opt_string(&s.update_progress),
                    update_outcome: copy_outcome(&s.update_outcome),
                });
            }
            i = i + 1;
        }
        proof {
            assert(old_list@.take(old_list@.len() as int) == old_list@);
        }
        self.secondaries = kept;
        if self.active_server_id.same_as(id) {
            self.active_server_id = ServerId::Main;
        }
    }

    /// The registry change for `remote_id` has finished: the remote-management overlay stops
    /// waiting on it and drops a delete confirmation for it.
    pub fn clear_remote_manage_pending(&mut self, remote_id: &str)
        ensures
            final(self).remote_manage == manage_cleared(old(self).remote_manage, remote_id@),
            *final(self) == (ClientSupervisorModel { remote_manage: final(self).remote_manage, ..*old(self) }),
    {
        match &mut self.remote_manage {
            Some(o) => {
                let clear_confirm = match &o.confirm_delete {
                    Some(c) => str_is(c.as_str(), remote_id),
                    None => false,
                };
                let clear_pending = match &o.pending {
                    Some(p) => str_is(p.as_str(), remote_id),
                    None => false,
                };
                if clear_confirm {
                    o.confirm_delete = None;
                }
                if clear_pending {
                    o.pending = None;
                }
            },
            None => {},
        }
    }

    /// A session switch for `remote_id` was refused: its open new-session form shows why.
    pub fn fail_new_session(&mut self, remote_id: &str, error: String)
        ensures
            final(self).new_session == session_failed(old(self).new_session, remote_id@, error),
            *final(self) == (ClientSupervisorModel { new_session: final(self).new_session, ..*old(self) }),
    {
        match &mut self.new_session {
            Some(f) => {
                if str_is(f.remote_id.as_str(), remote_id) {
                    f.error = Some(error);
                }
            },
            None => {},
        }
    }

    /// A session switch for `remote_id` landed: its new-session form closes.
    pub fn finish_new_session(&mut self, remote_id: &str)
        ensures
            final(self).new_session == session_finished(old(self).new_session, remote_id@),
            *final(self) == (ClientSupervisorModel { new_session: final(self).new_session, ..*old(self) }),
    {
        let close = match &self.new_session {
            Some(f) => str_is(f.remote_id.as_str(), remote_id),
            None => false,
        };
        if close {
            self.new_session = None;
        }
    }

    /// Whether the model holds a connection plan for `id`.
    pub fn has_connection_plan(&self, id: &ServerId) -> (r: bool)
        ensures
            r == has_connection_plan(*self, id@),
    {
        let mut i: usize = 0;
        while i < self.secondaries.len()
            invariant
                i <= self.secondaries@.len(),
                forall|j: int| 0 <= j < i ==> !((#[trigger] self.secondaries@[j]).server_id@ == id@ && !self.secondaries@[j].disabled),
            decreases self.secondaries@.len() - i,
        {
            if !self.secondaries[i].disabled && self.secondaries[i].server_id.same_as(id) {
                return true;
            }
            i = i + 1;
        }
        false
    }

    /// Open the global launcher menu at cell (`column`, `row`): its rows in order, all
    /// selectable, the first selected.
    pub fn open_client_global_menu(&mut self, column: u16, row: u16)
        ensures
            final(self).client_menu matches Some(menu) && is_launcher_menu(menu) && menu.anchor_column == column && menu.anchor_row == row,
            *final(self) == (ClientSupervisorModel { client_menu: final(self).client_menu, ..*old(self) }),
    {
        let labels = self.client_global_menu_items();
        let mut items: Vec<ClientMenuItem> = Vec::new();
        let mut i: usize = 0;
        while i < labels.len()
            invariant
                i <= labels@.len(),
                labels@.len() == global_menu_labels().len(),
                forall|j: int| 0 <= j < labels@.len() ==> (#[trigger] labels@[j])@ == global_menu_labels()[j],
                items@.len() == i,
                forall|j: int| 0 <= j < i ==> (#[trigger] items@[j]).label@ == global_menu_labels()[j]
                    && items@[j].selectable && items@[j].action == global_menu_action(j),
            decreases labels@.len() - i,
        {
            let action = match i {
                0 => ClientMenuAction::Settings,
                1 => ClientMenuAction::Keybinds,
                2 => ClientMenuAction::ReloadConfig,
                3 => ClientMenuAction::Detach,
                4 => ClientMenuAction::AddRemote,
                _ => ClientMenuAction::ManageRemotes,
            };
            items.push(ClientMenuItem { label: String::from_str(labels[i]), selectable: true, action });
            i = i + 1;
        }
        self.client_menu = Some(ClientMenu { kind: ClientMenuKind::Launcher, selected: 0, anchor_column: column, anchor_row: row, items });
    }

    /// The index of the first secondary registered as `id`.
    pub fn secondary_index(&self, id: &ServerId) -> (r: Option<usize>)
        ensures
            match first_secondary(self.secondaries@, id@) {
                Some(k) => r matches Some(u) && u as int == k && k < self.secondaries@.len(),
                None => r is None,
            },
    {
        let mut found: Option<usize> = None;
        let mut i: usize = 0;
        while i < self.secondaries.len()
            invariant
                i <= self.secondaries@.len(),
                match first_secondary(self.secondaries@.take(i as int), id@) {
                    Some(k) => found matches Some(u) && u as int == k && 0 <= k < i,
                    None => found is None,
                },
            decreases self.secondaries@.len() - i,
        {
            proof {
                assert(self.secondaries@.take(i + 1).drop_last() == self.secondaries@.take(i as int));
                assert(self.secondaries@.take(i + 1).last() == self.secondaries@[i as int]);
            }
            if found.is_none() && self.secondaries[i].server_id.same_as(id) {
                found = Some(i);
            }
            i = i + 1;
        }
        proof {
            assert(self.secondaries@.take(self.secondaries@.len() as int) == self.secondaries@);
        }
        found
    }

    /// Open the context menu of a workspace row at (`column`, `row`), capturing its label.
    pub fn open_workspace_context_menu(&mut self, server_id: ServerId, workspace_id: String, label: String, column: u16, row: u16)
        ensures
            final(self).client_menu matches Some(menu)
                && is_workspace_menu(menu, server_id, workspace_id, label, column, row),
            *final(self) == (ClientSupervisorModel { client_menu: final(self).client_menu, ..*old(self) }),
    {
        let mut items: Vec<ClientMenuItem> = Vec::new();
        items.push(ClientMenuItem { label: String::from_str("rename"), selectable: true, action: ClientMenuAction::RenameWorkspace });
        items.push(ClientMenuItem { label: String::from_str("close"), selectable: true, action: ClientMenuAction::CloseWorkspace });
        self.client_menu = Some(ClientMenu {
            kind: ClientMenuKind::Workspace { server_id, workspace_id, label },
            selected: 0,
            anchor_column: column,
            anchor_row: row,
            items,
        });
    }

    /// Open the context menu of a host banner at (`column`, `row`).
    pub fn open_host_context_menu(&mut self, server_id: ServerId, column: u16, row: u16)
        ensures
            final(self).client_menu matches Some(menu) && is_host_menu(menu, *old(self), server_id, column, row),
            *final(self) == (ClientSupervisorModel { client_menu: final(self).client_menu, ..*old(self) }),
    {
        let mut items: Vec<ClientMenuItem> = Vec::new();
        items.push(ClientMenuItem {
            label: String::from_str("add space"),
            selectable: true,
            action: ClientMenuAction::HostAddSpace(server_id.duplicate()),
        });
        let found = self.secondary_index(&server_id);
        proof {
            lemma_first_secondary(self.secondaries@, server_id@);
        }
        match found {
            Some(k) => {

                let disabled = self.secondaries[k].disabled;
                let connected = match self.secondaries[k].connection_state {
                    ConnectionState::Connected => true,
                    _ => false,
                };
                let remote_id = match &server_id {
                    ServerId::Secondary(rid) => rid.clone(),
                    ServerId::Main => String::new(),
                };
                proof {
                    assert(self.secondaries@[k as int].server_id@ == server_id@) by {
                        lemma_first_secondary(self.secondaries@, server_id@);
                    }
                }
                items.push(ClientMenuItem {
                    label: String::from_str(if disabled { "enable" } else { "disable" }),
                    selectable: true,
                    action: ClientMenuAction::HostToggleEnabled { remote_id, enabled: disabled },
                });
                items.push(ClientMenuItem {
                    label: String::from_str(if connected { "disconnect" } else { "reconnect" }),
                    selectable: true,
                    action: if connected {
                        ClientMenuAction::HostDisconnect(server_id.duplicate())
                    } else {
                        ClientMenuAction::HostReconnect(server_id.duplicate())
                    },
                });
                items.push(ClientMenuItem {
                    label: String::from_str("update"),
                    selectable: true,
                    action: ClientMenuAction::HostUpdate(server_id.duplicate()),
                });
            },
            None => {},
        }
        proof {
            assert(items@.len() >= 1);
        }
        self.client_menu = Some(ClientMenu {
            kind: ClientMenuKind::Host { server_id },
            selected: 0,
            anchor_column: column,
            anchor_row: row,
            items,
        });
    }

    /// Highlight row `index` of the open client menu.
    pub fn set_client_menu_selected(&mut self, index: usize)
        ensures
            final(self).client_menu == match old(self).client_menu {
                Some(menu) => Some(ClientMenu { selected: index, ..menu }),
                None => None,
            },
            *final(self) == (ClientSupervisorModel { client_menu: final(self).client_menu, ..*old(self) }),
    {
        match &mut self.client_menu {
            Some(menu) => {
                menu.selected = index;
            },
            None => {},
        }
    }

    /// Close every client overlay: the client menu, the workspace overlays, the remote
    /// management overlay and the new-session form.
    pub fn close_client_overlay(&mut self)
        ensures
            *final(self) == (ClientSupervisorModel {
                client_menu: None,
                overlay: WorkspaceOverlay::Closed,
                remote_manage: None,
                new_session: None,
                ..*old(self)
            }),
    {
        self.client_menu = None;
        self.overlay = WorkspaceOverlay::Closed;
        self.remote_manage = None;
        self.new_session = None;
    }

    /// Step back from a delete confirmation in the remote management overlay.
    pub fn cancel_remote_manage_delete(&mut self)
        ensures
            final(self).remote_manage == match old(self).remote_manage {
                Some(o) => Some(RemoteManageOverlay { confirm_delete: None, pending: o.pending }),
                None => None,
            },
            *final(self) == (ClientSupervisorModel { remote_manage: final(self).remote_manage, ..*old(self) }),
    {
        match &mut self.remote_manage {
            Some(o) => {
                o.confirm_delete = None;
            },
            None => {},
        }
    }

    /// Whether `id` is a registered secondary that is down and can be reconnected.
    pub fn server_is_reconnectable(&self, id: &ServerId) -> (r: bool)
        ensures
            r == reconnectable(*self, id@),
    {
        let mut i: usize = 0;
        while i < self.secondaries.len()
            invariant
                i <= self.secondaries@.len(),
                forall|j: int| 0 <= j < i ==> !((#[trigger] self.secondaries@[j]).server_id@ == id@
                    && self.secondaries@[j].connection_state == ConnectionState::Disconnected),
            decreases self.secondaries@.len() - i,
        {
            let s = &self.secondaries[i];
            let down = match s.connection_state {
                ConnectionState::Disconnected => true,
                _ => false,
            };
            if down && s.server_id.same_as(id) {
                return true;
            }
            i = i + 1;
        }
        false
    }

    /// The registered secondary `id`, if any (the first registration).
    pub fn secondary(&self, id: &ServerId) -> (r: Option<&SecondaryServer>)
        ensures
            match r {
                Some(s) => exists|i: int| 0 <= i < self.secondaries@.len() && self.secondaries@[i] == *s
                    && s.server_id@ == id@
                    && forall|j: int| 0 <= j < i ==> (#[trigger] self.secondaries@[j]).server_id@ != id@,
                None => forall|i: int| 0 <= i < self.secondaries@.len() ==> (#[trigger] self.secondaries@[i]).server_id@ != id@,
            },
    {
        let mut i: usize = 0;
        while i < self.secondaries.len()
            invariant
                i <= self.secondaries@.len(),
                forall|j: int| 0 <= j < i ==> (#[trigger] self.secondaries@[j]).server_id@ != id@,
            decreases self.secondaries@.len() - i,
        {
            if self.secondaries[i].server_id.same_as(id) {
                return Some(&self.secondaries[i]);
            }
            i = i + 1;
        }
        None
    }

    /// The workspace-create route for a host: a create request on that host when the model
    /// knows it.
    pub fn workspace_create_route(&self, server_id: &ServerId) -> (r: Option<(ServerId, Request)>)
        ensures
            match r {
                Some((id, req)) => knows_server(self.secondaries@, server_id@) && id == *server_id
                    && is_workspace_create(req),
                None => !knows_server(self.secondaries@, server_id@),
            },
    {
        if self.knows_server(server_id) {
            Some((server_id.duplicate(), workspace_create_request()))
        } else {
            None
        }
    }

    /// Focus a workspace on a server: the server becomes active and the focus request is returned.
    pub fn focus_workspace_route(&mut self, server_id: &ServerId, workspace_id: String) -> (r: Request)
        ensures
            *final(self) == (ClientSupervisorModel { active_server_id: *server_id, ..*old(self) }),
            r.id@ == "client:workspace-focus"@,
            r.method == Method::WorkspaceFocus(WorkspaceTarget { workspace_id }),
    {
        self.active_server_id = server_id.duplicate();
        Request {
            id: String::from_str("client:workspace-focus"),
            method: Method::WorkspaceFocus(WorkspaceTarget { workspace_id }),
        }
    }

    /// Focus an agent on a server: the server becomes active and the focus request is returned.
    pub fn focus_agent_route(&mut self, server_id: &ServerId, agent_id: String) -> (r: Request)
        ensures
            *final(self) == (ClientSupervisorModel { active_server_id: *server_id, ..*old(self) }),
            r.id@ == "client:agent-focus"@,
            r.method == Method::AgentFocus(AgentTarget { agent_id }),
    {
        self.active_server_id = server_id.duplicate();
        Request {
            id: String::from_str("client:agent-focus"),
            method: Method::AgentFocus(AgentTarget { agent_id }),
        }
    }

    /// The label of a workspace row, if the model lists it.
    pub fn workspace_label(&self, server_id: &ServerId, workspace_id: &str) -> (r: Option<String>)
        ensures
            match r {
                Some(label) => exists|i: int| 0 <= i < self.workspace_rows@.len()
                    && label_row(#[trigger] self.workspace_rows@[i], server_id@, workspace_id@)
                    && self.workspace_rows@[i].label@ == label@
                    && forall|j: int| 0 <= j < i ==> !label_row(#[trigger] self.workspace_rows@[j], server_id@, workspace_id@),
                None => forall|i: int| 0 <= i < self.workspace_rows@.len()
                    ==> !label_row(#[trigger] self.workspace_rows@[i], server_id@, workspace_id@),
            },
    {
        let mut i: usize = 0;
        while i < self.workspace_rows.len()
            invariant
                i <= self.workspace_rows@.len(),
                forall|j: int| 0 <= j < i ==> !label_row(#[trigger] self.workspace_rows@[j], server_id@, workspace_id@),
            decreases self.workspace_rows@.len() - i,
        {
            let row = &self.workspace_rows[i];
            if row.server_id.same_as(server_id) {
                match &row.workspace_id {
                    Some(id) => {
                        if str_is(id.as_str(), workspace_id) {
                            return Some(row.label.clone());
                        }
                    },
                    None => {},
                }
            }
            i = i + 1;
        }
        None
    }
}

/// The row lists the workspace `workspace_id` of server `server_id`.
pub open spec fn label_row(row: WorkspaceRow, server_id: Option<Seq<char>>, workspace_id: Seq<char>) -> bool {
    &&& row.server_id@ == server_id
    &&& row.workspace_id matches Some(w) && w@ == workspace_id
}

/// The request is a focused, unlabelled `workspace.create` in the default directory.
pub open spec fn is_workspace_create(r: Request) -> bool {
    &&& r.id@ == "client:workspace-create"@
    &&& r.method == Method::WorkspaceCreate(WorkspaceCreateParams { cwd: None, focus: true, label: None })
}

/// The `workspace.create` request the New button and host menu send.
pub fn workspace_create_request() -> (r: Request)
    ensures
        is_workspace_create(r),
{
    Request {
        id: String::from_str("client:workspace-create"),
        method: Method::WorkspaceCreate(WorkspaceCreateParams { cwd: None, focus: true, label: None }),
    }
}

/// The server the user is on: the model's active server, or the main server without a model.
pub fn active_server_of(model: &Option<ClientSupervisorModel>) -> (r: ServerId)
    ensures
        r == match *model {
            Some(m) => m.active_server_id,
            None => ServerId::Main,
        },
{
    match model {
        Some(m) => m.active_server_id.duplicate(),
        None => ServerId::Main,
    }
}

/// The ids of the enabled secondaries.
pub open spec fn plan_ids(m: ClientSupervisorModel) -> Set<Option<Seq<char>>> {
    Set::new(|id: Option<Seq<char>>| has_connection_plan(m, id))
}

/// Mark every secondary with a connection plan as connecting; their streams come up through
/// the retry sweep.
pub fn connect_secondary_client_streams(model: &mut ClientSupervisorModel)
    ensures
        banners_updated(*old(model), *final(model), plan_ids(*old(model)),
            BannerChange { connection: Some(ConnectionState::Connecting), progress: None, outcome: None }),
{
    let ghost m0 = *model;
    let ghost change = BannerChange { connection: Some(ConnectionState::Connecting), progress: None, outcome: None };
    let plans = model.secondary_connection_plans();
    let ghost mut done: Set<Option<Seq<char>>> = Set::empty();
    proof {
        assert forall|i: int| 0 <= i < plans@.len() implies has_connection_plan(m0, (#[trigger] plans@[i])@) by {
            lemma_enabled_ids_have_plans(m0.secondaries@, i);
        }
    }
    let mut i: usize = 0;
    while i < plans.len()
        invariant
            i <= plans@.len(),
            plans@ == enabled_secondary_ids(m0.secondaries@),
            forall|j: int| 0 <= j < plans@.len() ==> has_connection_plan(m0, (#[trigger] plans@[j])@),
            banners_updated(m0, *model, done, change),
            change == (BannerChange { connection: Some(ConnectionState::Connecting), progress: None, outcome: None }),
            forall|id: Option<Seq<char>>| #[trigger] done.contains(id) <==> exists|j: int| 0 <= j < i && (#[trigger] plans@[j])@ == id,
        decreases plans@.len() - i,
    {
        let ghost prev = *model;
        model.update_banner(&plans[i], &BannerChange { connection: Some(ConnectionState::Connecting), progress: None, outcome: None });
        proof {
            lemma_banners_compose(m0, prev, *model, done, plans@[i as int]@, change);
            let d2 = done.insert(plans@[i as int]@);
            assert forall|id: Option<Seq<char>>| #[trigger] d2.contains(id) <==> exists|j: int| 0 <= j < i + 1 && (#[trigger] plans@[j])@ == id by {
                if d2.contains(id) && id != plans@[i as int]@ {
                    assert(done.contains(id));
                    let j = choose|j: int| 0 <= j < i && (#[trigger] plans@[j])@ == id;
                    assert(0 <= j < i + 1);
                }
            }
            done = d2;
        }
        i = i + 1;
    }
    proof {
        assert forall|id: Option<Seq<char>>| #[trigger] plan_ids(m0).contains(id) implies done.contains(id) by {
            let k = choose|k: int| 0 <= k < m0.secondaries@.len() && (#[trigger] m0.secondaries@[k]).server_id@ == id
                && !m0.secondaries@[k].disabled;
            let j = lemma_plan_listed(m0.secondaries@, k);
            assert(plans@[j]@ == id);
        }
        assert(done =~= plan_ids(m0));
    }
}

/// Every listed plan belongs to an enabled secondary.
proof fn lemma_enabled_ids_have_plans(s: Seq<SecondaryServer>, i: int)
    requires
        0 <= i < enabled_secondary_ids(s).len(),
    ensures
        exists|k: int| 0 <= k < s.len() && (#[trigger] s[k]).server_id == enabled_secondary_ids(s)[i] && !s[k].disabled,
    decreases s.len(),
{
    let rest = enabled_secondary_ids(s.drop_last());
    if i < rest.len() {
        lemma_enabled_ids_have_plans(s.drop_last(), i);
        let k = choose|k: int| 0 <= k < s.drop_last().len() && (#[trigger] s.drop_last()[k]).server_id == rest[i] && !s.drop_last()[k].disabled;
        assert(s[k] == s.drop_last()[k]);
    } else {
        assert(s[s.len() - 1] == s.last());
    }
}

/// Every enabled secondary is listed among the plans.
proof fn lemma_plan_listed(s: Seq<SecondaryServer>, k: int) -> (j: int)
    requires
        0 <= k < s.len(),
        !s[k].disabled,
    ensures
        0 <= j < enabled_secondary_ids(s).len(),
        enabled_secondary_ids(s)[j] == s[k].server_id,
    decreases s.len(),
{
    if k == s.len() - 1 {
        enabled_secondary_ids(s.drop_last()).len() as int
    } else {
        assert(s.drop_last()[k] == s[k]);
        lemma_plan_listed(s.drop_last(), k)
    }
}

} // verus!
