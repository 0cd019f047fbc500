//! The client's calls into the main server's API: the supervisor bootstrap and the add-remote
//! submission, over a `SupervisorApi` the caller supplies.

use vstd::prelude::*;
use crate::dispatch::AddRemoteDraft;
use crate::errors::{add_remote_error_message, add_remote_error_text};
use crate::protocol::{Method, RemoteAddParams, RemoteKeybindingsSnapshot, Request, clone_opt_string};
use crate::supervisor::ClientSupervisorModel;
use crate::text::append_str;

verus! {

/// Where a registered remote lives.
#[derive(Debug, Clone, PartialEq, Eq)]
pub enum RemoteTargetSnapshot {
    /// Another session on this machine.
    Local { session: Option<String> },
    /// A host reached over ssh.
    Ssh { target: String, args: Vec<String> },
}

/// A remote as the registry records it.
#[derive(Debug, Clone, PartialEq, Eq)]
pub struct RemoteDefinitionSnapshot {
    pub id: String,
    pub name: String,
    pub target: RemoteTargetSnapshot,
    pub session: Option<String>,
    pub keybindings: RemoteKeybindingsSnapshot,
    pub disabled: bool,
    pub auto_update: bool,
}

/// What a successful API call returned.
#[derive(Debug, Clone, PartialEq, Eq)]
pub enum ResponseResult {
    RemoteAdded { remote: RemoteDefinitionSnapshot },
    RemoteList { remotes: Vec<RemoteDefinitionSnapshot> },
    SessionList { sessions: Vec<String> },
}

/// A successful API response.
#[derive(Debug, Clone, PartialEq, Eq)]
pub struct SuccessResponse {
    pub id: String,
    pub result: ResponseResult,
}

/// The main server's API as the client supervisor uses it.
pub trait SupervisorApi {
    /// Whether this API keeps a record of its requests and answers (`sent`, `answers`).
    open spec fn keeps_record(&self) -> bool {
        false
    }

    /// The requests sent so far, in order, when a record is kept.
    open spec fn sent(&self) -> Seq<Request> {
        Seq::empty()
    }

    /// The answers received so far, in order, when a record is kept.
    open spec fn answers(&self) -> Seq<Result<SuccessResponse, String>> {
        Seq::empty()
    }

    /// Send one request; the response, or the error text. An API that keeps a record records
    /// the request and its answer, in order.
    fn request(&mut self, request: Request) -> (r: Result<SuccessResponse, String>)
        ensures
            final(self).keeps_record() == old(self).keeps_record(),
            old(self).keeps_record() ==> final(self).sent() == old(self).sent().push(request),
            old(self).keeps_record() ==> final(self).answers() == old(self).answers().push(r);
}

/// The name of a response's kind, as it reads in the unexpected-result complaint.
pub open spec fn result_kind_name(result: ResponseResult) -> Seq<char> {
    match result {
        ResponseResult::RemoteAdded { .. } => "RemoteAdded"@,
        ResponseResult::RemoteList { .. } => "RemoteList"@,
        ResponseResult::SessionList { .. } => "SessionList"@,
    }
}

/// The name of a response's kind.
pub fn response_result_kind(result: &ResponseResult) -> (r: &'static str)
    ensures
        r@ == result_kind_name(*result),
{
    match result {
        ResponseResult::RemoteAdded { .. } => "RemoteAdded",
        ResponseResult::RemoteList { .. } => "RemoteList",
        ResponseResult::SessionList { .. } => "SessionList",
    }
}

/// The main-only model a full-app client paints first: labelled `main_display_name`, with no
/// secondaries, no rows and nothing open.
pub open spec fn paint_first_model(m: ClientSupervisorModel, main_display_name: Seq<char>) -> bool {
    &&& m.main_display_name@ == main_display_name
    &&& m.active_server_id@ is None
    &&& m.workspace_rows@.len() == 0
    &&& m.agent_groups@.len() == 0
    &&& m.client_menu is None
    &&& m.secondaries@.len() == 0
    &&& m.remote_manage is None
    &&& m.new_session is None
}

/// The supervisor model a client starts with: none for a direct terminal attach; for the full
/// app a main-only model built without a single API round-trip (the registry and summaries
/// arrive later, off the UI loop).
pub fn bootstrap_supervisor_for_client<A: SupervisorApi>(
    direct_attach_requested: bool,
    api: &mut A,
    main_display_name: &str,
) -> (r: Result<Option<ClientSupervisorModel>, String>)
    ensures
        *final(api) == *old(api),
        direct_attach_requested ==> r == Ok::<Option<ClientSupervisorModel>, String>(None),
        !direct_attach_requested ==> (r matches Ok(Some(m)) && paint_first_model(m, main_display_name@)),
{
    if direct_attach_requested {
        return Ok(None);
    }
    Ok(Some(ClientSupervisorModel::new(main_display_name)))
}

/// The supervisor model a client starts with (see `bootstrap_supervisor_for_client`).
pub fn bootstrap_client_supervisor_model<A: SupervisorApi>(
    direct_attach_requested: bool,
    api: &mut A,
    main_display_name: &str,
) -> (r: Result<Option<ClientSupervisorModel>, String>)
    ensures
        *final(api) == *old(api),
        direct_attach_requested ==> r == Ok::<Option<ClientSupervisorModel>, String>(None),
        !direct_attach_requested ==> (r matches Ok(Some(m)) && paint_first_model(m, main_display_name@)),
{
    bootstrap_supervisor_for_client(direct_attach_requested, api, main_display_name)
}

/// Unicode white space, as `char::is_whitespace` classifies it.
pub open spec fn is_white_space(c: char) -> bool {
    ||| ('\u{9}' <= c && c <= '\u{d}')
    ||| c == ' '
    ||| c == '\u{85}'
    ||| c == '\u{a0}'
    ||| c == '\u{1680}'
    ||| ('\u{2000}' <= c && c <= '\u{200a}')
    ||| c == '\u{2028}'
    ||| c == '\u{2029}'
    ||| c == '\u{202f}'
    ||| c == '\u{205f}'
    ||| c == '\u{3000}'
}

/// Whether `c` is Unicode white space.
pub fn white_space(c: char) -> (r: bool)
    ensures
        r == is_white_space(c),
{
    ('\u{9}' <= c && c <= '\u{d}') || c == ' ' || c == '\u{85}' || c == '\u{a0}' || c == '\u{1680}'
        || ('\u{2000}' <= c && c <= '\u{200a}') || c == '\u{2028}' || c == '\u{2029}' || c == '\u{202f}'
        || c == '\u{205f}' || c == '\u{3000}'
}

/// The text is empty once trimmed: every character is white space.
pub open spec fn blank(s: Seq<char>) -> bool {
    forall|i: int| 0 <= i < s.len() ==> is_white_space(#[trigger] s[i])
}

/// The main server's label: the configured display name unless it is unset or blank, else "local".
pub open spec fn main_display_name(setting: Option<Seq<char>>) -> Seq<char> {
    match setting {
        Some(v) => if blank(v) { "local"@ } else { v },
        None => "local"@,
    }
}

fn display_name_or_local(v: &str) -> (r: String)
    ensures
        r@ == (if blank(v@) { "local"@ } else { v@ }),
{
    let chars = crate::text::chars_of(v);
    let mut i: usize = 0;
    while i < chars.len()
        invariant
            i <= chars@.len(),
            chars@ == v@,
            forall|j: int| 0 <= j < i ==> is_white_space(#[trigger] chars@[j]),
        decreases chars@.len() - i,
    {
        if !white_space(chars[i]) {
            assert(!is_white_space(v@[i as int]));
            return String::from_str(v);
        }
        i = i + 1;
    }
    String::from_str("local")
}

/// The main server's label from the display-name setting (`None` when unset).
pub fn main_display_name_for_client(setting: Option<&str>) -> (r: String)
    ensures
        r@ == main_display_name(match setting {
            Some(s) => Some(s@),
            None => None,
        }),
{
    match setting {
        Some(v) => display_name_or_local(v),
        None => String::from_str("local"),
    }
}

/// The `remote.add` request for a draft from the add-remote form.
pub open spec fn is_remote_add_request(r: Request, draft: AddRemoteDraft) -> bool {
    &&& r.id@ == "client:remote-add"@
    &&& r.method == Method::RemoteAdd(RemoteAddParams {
            name: draft.name,
            target: draft.target,
            session: draft.session,
            keybindings: draft.keybindings,
        })
}

/// The `remote.add` request for `draft`: its name, target, session (none meaning the remote's
/// default session) and key bindings, as the form gave them.
pub fn remote_add_request(draft: AddRemoteDraft) -> (r: Request)
    ensures
        is_remote_add_request(r, draft),
{
    Request {
        id: String::from_str("client:remote-add"),
        method: Method::RemoteAdd(RemoteAddParams {
            name: draft.name,
            target: draft.target,
            session: draft.session,
            keybindings: draft.keybindings,
        }),
    }
}

/// `r` is what the client makes of the answer to `remote.add`: the added remote, the dialog text
/// of a refusal, or a complaint about an unexpected result.
pub open spec fn remote_add_outcome_is(response: Result<SuccessResponse, String>, r: Result<RemoteDefinitionSnapshot, String>) -> bool {
    match response {
        Err(e) => r matches Err(text) && text@ == add_remote_error_text(e@),
        Ok(s) => match s.result {
            ResponseResult::RemoteAdded { remote } => r == Ok::<RemoteDefinitionSnapshot, String>(remote),
            other => r matches Err(text) && text@ == "remote.add returned unexpected result: "@ + result_kind_name(other),
        },
    }
}

/// What the client makes of the answer to `remote.add`.
pub fn remote_add_outcome(response: Result<SuccessResponse, String>) -> (r: Result<RemoteDefinitionSnapshot, String>)
    ensures
        remote_add_outcome_is(response, r),
{
    match response {
        Err(e) => Err(add_remote_error_message(e.as_str())),
        Ok(s) => match s.result {
            ResponseResult::RemoteAdded { remote } => Ok(remote),
            other => {
                let kind = response_result_kind(&other);
                Err(append_str(String::from_str("remote.add returned unexpected result: "), kind))
            },
        },
    }
}

/// Register `draft` with the main server: send exactly one request, the `remote.add` of the
/// draft, and make of its answer what `remote_add_outcome` says.
pub fn submit_remote_add_to_main_api<A: SupervisorApi>(api: &mut A, draft: AddRemoteDraft) -> (r: Result<RemoteDefinitionSnapshot, String>)
    ensures
        exists|response: Result<SuccessResponse, String>| remote_add_outcome_is(response, r),
        old(api).keeps_record() ==> {
            &&& final(api).sent().len() == old(api).sent().len() + 1
            &&& final(api).sent().drop_last() == old(api).sent()
            &&& is_remote_add_request(final(api).sent().last(), draft)
            &&& final(api).answers().len() == old(api).answers().len() + 1
            &&& final(api).answers().drop_last() == old(api).answers()
            &&& remote_add_outcome_is(final(api).answers().last(), r)
        },
{
    let request = remote_add_request(draft);
    let response = api.request(request);
    proof {
        if old(api).keeps_record() {
            assert(api.sent().drop_last() =~= old(api).sent());
            assert(api.answers().drop_last() =~= old(api).answers());
        }
    }
    remote_add_outcome(response)
}

/// How the client reaches a server the supervisor knows.
#[derive(Debug, Clone, PartialEq, Eq)]
pub enum ServerConnectionTarget {
    /// The main server of this client.
    Main,
    /// A session on this machine (`None`: the default session).
    LocalSession(Option<String>),
    /// A host reached over ssh.
    Ssh { destination: String, options: Vec<String> },
}

/// Where an API client connects.
#[derive(Debug, Clone, PartialEq, Eq)]
pub enum ConnectionTarget {
    /// A local session's API socket (`None`: the default session).
    LocalSession(Option<String>),
    /// An API socket at this path.
    SocketPath(String),
}

/// The API target of a local server: the main server's session or the named local session; an
/// ssh host has none of its own (its API is reached through its bridge).
pub fn api_target_for_connection_target(target: &ServerConnectionTarget) -> (r: Option<ConnectionTarget>)
    ensures
        r == match *target {
            ServerConnectionTarget::Main => Some(ConnectionTarget::LocalSession(None)),
            ServerConnectionTarget::LocalSession(session) => Some(ConnectionTarget::LocalSession(session)),
            ServerConnectionTarget::Ssh { .. } => None,
        },
{
    match target {
        ServerConnectionTarget::Main => Some(ConnectionTarget::LocalSession(None)),
        ServerConnectionTarget::LocalSession(session) => Some(ConnectionTarget::LocalSession(clone_opt_string(session))),
        ServerConnectionTarget::Ssh { .. } => None,
    }
}

/// The API target of a server: an ssh host through the API socket of its bridge, when the
/// client holds one (`bridge_api_socket`); a local server directly.
pub fn api_target_for_supervisor_target(target: &ServerConnectionTarget, bridge_api_socket: Option<&str>) -> (r: Option<ConnectionTarget>)
    ensures
        match *target {
            ServerConnectionTarget::Ssh { .. } => match bridge_api_socket {
                Some(path) => r matches Some(ConnectionTarget::SocketPath(p)) && p@ == path@,
                None => r is None,
            },
            ServerConnectionTarget::Main => r == Some(ConnectionTarget::LocalSession(None)),
            ServerConnectionTarget::LocalSession(session) => r == Some(ConnectionTarget::LocalSession(session)),
        },
{
    match target {
        ServerConnectionTarget::Ssh { .. } => match bridge_api_socket {
            Some(path) => Some(ConnectionTarget::SocketPath(String::from_str(path))),
            None => None,
        },
        _ => api_target_for_connection_target(target),
    }
}

} // verus!
