//! The event loop's per-server connection bookkeeping: which servers have a live stream, a
//! cached frame, a bridge, work in flight or a reconnect scheduled, and how each loop event
//! moves that state and the host banners of the supervisor model.

use vstd::prelude::*;
use crate::errors::{
    ClientError, ErrorContext, IoErrorKind, IoFailure, ProvisionFailureDisposition, bridge_error_text,
    classify_provision_failure, client_error_message, map_remote_bridge_error, provision_disposition,
};
use crate::protocol::{PROTOCOL_VERSION, RemoteManageAction, manage_action_label, remote_manage_action_label};
use crate::schedule::{HOST_UPDATE_FAILURE_TTL, HOST_UPDATE_OUTCOME_TTL};
use crate::text::{append_str, decimal, decimal_string};
use crate::protocol::ServerId;
use crate::schedule::{
    CLIENT_FOCUSED_SUMMARY_REFRESH_INTERVAL, CLIENT_SUPERVISOR_REFRESH_INTERVAL, LONGEST_RETRY_DELAY, elapsed,
    retry_delay, supervisor_summary_refresh_due,
};
use crate::supervisor::{
    BannerChange, ClientSupervisorModel, ConnectionState, HostUpdateOutcome, NewSessionForm, SecondaryServer,
    banner_fields_updated, banners_updated, has_connection_plan, manage_cleared, secondary_removed,
    session_failed, session_finished,
    lemma_banners_compose, lemma_banners_keep_plans,
};
use crate::render::{RenderCadence, TimerRender};
use crate::tracking::{IdMap, IdSet};

verus! {

/// When a secondary is next retried, and how many attempts came before.
#[derive(Debug, Clone, Copy, PartialEq, Eq, Structural)]
pub struct SecondaryRetryState {
    pub attempt: usize,
    /// Microseconds on the loop clock.
    pub next_retry_at: u64,
}

/// The loop-side connection state of every server the client talks to.
#[derive(Debug)]
pub struct ClientConnections {
    /// Servers with a live stream writer.
    pub server_writes: IdSet,
    /// Servers whose last frame is cached.
    pub frame_cache: IdSet,
    /// Servers with a summary-event subscription worker.
    pub summary_subscriptions: IdSet,
    /// Secondaries with a summary refresh in flight.
    pub pending_summary_refresh: IdSet,
    /// Secondaries with a connection attempt in flight.
    pub pending_connect: IdSet,
    /// Secondaries with an ssh bridge owned by this client.
    pub ssh_bridges: IdSet,
    /// Servers with a latency probe awaiting its answer.
    pub pending_pings: IdSet,
    /// Secondaries to reconnect, with their backoff.
    pub secondary_retries: IdMap<SecondaryRetryState>,
    /// Secondaries the user disconnected by hand; no sweep reconnects them.
    pub manually_disconnected: IdSet,
    /// Secondaries whose provisioning failed for good; no sweep reconnects them.
    pub provision_failed: IdSet,
    /// One-shot approvals to restart an incompatible remote server on the next attempt.
    pub retry_restart_incompatible: IdSet,
    /// Secondaries with an update running.
    pub pending_update_remote: IdSet,
    /// When each host's outcome line leaves its banner.
    pub update_outcome_expiry: IdMap<u64>,
    /// Secondaries left out of automatic updates after a failed one.
    pub auto_update_suppressed: IdSet,
    /// When each secondary's last summary refresh started.
    pub last_summary_refresh: IdMap<u64>,
    /// A main-server supervisor refresh is in flight.
    pub pending_main_refresh: bool,
    /// An add-remote submission is in flight.
    pub pending_add_remote: bool,
    /// A full repaint is due.
    pub full_redraw_requested: bool,
}

/// The model after applying `change` to the servers `ids`, when the client has a model.
pub open spec fn model_banners_updated(m: Option<ClientSupervisorModel>, n: Option<ClientSupervisorModel>, ids: Set<Option<Seq<char>>>, change: BannerChange) -> bool {
    match m {
        Some(a) => n matches Some(b) && banners_updated(a, b, ids, change),
        None => n is None,
    }
}

/// The banner change that only sets the connection state.
pub open spec fn connection_change(state: ConnectionState) -> BannerChange {
    BannerChange { connection: Some(state), progress: None, outcome: None }
}

/// When a retry scheduled at `now` for `attempt` falls due.
pub open spec fn retry_at(now: u64, attempt: usize) -> u64 {
    (now + retry_delay(attempt)) as u64
}

/// A reconnect attempt the sweep starts: the server, the attempt number, and whether it may
/// restart an incompatible remote server.
#[derive(Debug, Clone, PartialEq, Eq)]
pub struct RetryLaunch {
    pub server_id: ServerId,
    pub attempt: usize,
    pub restart_incompatible: bool,
}

/// What the retry sweep does with a due retry.
#[derive(Debug, Clone, Copy, PartialEq, Eq)]
pub enum RetryDecision {
    /// Forget the retry.
    Drop,
    /// Keep it: an attempt is already in flight.
    Hold,
    /// Start an attempt.
    Launch,
}

/// The client holds a connection plan for `id`.
pub open spec fn plan_available(m: Option<ClientSupervisorModel>, id: Option<Seq<char>>) -> bool {
    m matches Some(x) && has_connection_plan(x, id)
}

/// The sweep's decision for a due retry of `id`: a host parked by hand or stopped on a terminal
/// provisioning failure, one whose stream is live, or one without a connection plan is dropped;
/// one with an attempt in flight is held; any other is launched.
pub open spec fn retry_decision(b: ClientConnections, m: Option<ClientSupervisorModel>, id: Option<Seq<char>>) -> RetryDecision {
    if b.manually_disconnected@.contains(id) || b.provision_failed@.contains(id) {
        RetryDecision::Drop
    } else if b.server_writes@.contains(id) {
        RetryDecision::Drop
    } else if b.pending_connect@.contains(id) {
        RetryDecision::Hold
    } else if !plan_available(m, id) {
        RetryDecision::Drop
    } else {
        RetryDecision::Launch
    }
}

/// A retry of `id` is scheduled and due at `now`.
pub open spec fn retry_due(b: ClientConnections, id: Option<Seq<char>>, now: u64) -> bool {
    b.secondary_retries@.contains_key(id) && b.secondary_retries@[id].next_retry_at <= now
}

/// The due retries with decision `d`.
pub open spec fn swept(b: ClientConnections, m: Option<ClientSupervisorModel>, now: u64, d: RetryDecision) -> Set<Option<Seq<char>>> {
    Set::new(|id: Option<Seq<char>>| retry_due(b, id, now) && retry_decision(b, m, id) == d)
}

/// The banner of a host whose new attempt starts: connecting, with no progress or outcome line.
pub open spec fn launch_change() -> BannerChange {
    BannerChange { connection: Some(ConnectionState::Connecting), progress: Some(None), outcome: Some(None) }
}

/// Among the first `n` secondaries of `m`, an enabled one registered as `id` that is
/// connecting, or connected without a live stream in `writes`.
pub open spec fn stream_missing_upto(m: ClientSupervisorModel, writes: Set<Option<Seq<char>>>, id: Option<Seq<char>>, n: int) -> bool {
    exists|i: int| 0 <= i < n && i < m.secondaries@.len() && (#[trigger] m.secondaries@[i]).server_id@ == id
        && !m.secondaries@[i].disabled
        && (m.secondaries@[i].connection_state == ConnectionState::Connecting
            || (m.secondaries@[i].connection_state == ConnectionState::Connected && !writes.contains(id)))
}

/// A secondary whose stream should be (re)established by the background sweep: it is missing
/// its stream, and neither parked by hand nor stopped on a terminal provisioning failure.
pub open spec fn stream_retry_eligible(b: ClientConnections, m: Option<ClientSupervisorModel>, id: Option<Seq<char>>) -> bool {
    &&& m matches Some(x) && stream_missing_upto(x, b.server_writes@, id, x.secondaries@.len() as int)
    &&& !b.manually_disconnected@.contains(id)
    &&& !b.provision_failed@.contains(id)
}

/// The retry schedule once the sweep has added an immediate first attempt for every eligible
/// secondary without one; scheduled retries stay as they are.
pub open spec fn with_missing_retries(b: ClientConnections, m: Option<ClientSupervisorModel>, now: u64) -> Map<Option<Seq<char>>, SecondaryRetryState> {
    retries_with_missing(b.secondary_retries@, b, m, now)
}

/// The schedule `retries` once an immediate first attempt is added for every secondary that
/// `stream_retry_eligible` (over `b` and `m`) names and that has none.
pub open spec fn retries_with_missing(retries: Map<Option<Seq<char>>, SecondaryRetryState>, b: ClientConnections, m: Option<ClientSupervisorModel>, now: u64) -> Map<Option<Seq<char>>, SecondaryRetryState> {
    Map::new(
        |id: Option<Seq<char>>| retries.contains_key(id) || stream_retry_eligible(b, m, id),
        |id: Option<Seq<char>>| if retries.contains_key(id) {
            retries[id]
        } else {
            SecondaryRetryState { attempt: 0, next_retry_at: now }
        },
    )
}

/// The outcome lines due to leave at `now`.
pub open spec fn expired_outcomes(b: ClientConnections, now: u64) -> Set<Option<Seq<char>>> {
    Set::new(|id: Option<Seq<char>>| b.update_outcome_expiry@.contains_key(id) && now >= b.update_outcome_expiry@[id])
}

/// The banner change that clears the outcome line.
pub open spec fn outcome_cleared() -> BannerChange {
    BannerChange { connection: None, progress: None, outcome: Some(None) }
}

/// The model after a host update or registry change posts the outcome line `message`: the
/// progress line is cleared and, when `connection` is given, the connection state is set.
pub open spec fn outcome_posted(m: Option<ClientSupervisorModel>, n: Option<ClientSupervisorModel>, id: Option<Seq<char>>, connection: Option<ConnectionState>, message: Seq<char>, success: bool) -> bool {
    exists|o: HostUpdateOutcome| o.message@ == message && o.success == success
        && model_banners_updated(m, n, set![id], BannerChange { connection, progress: Some(None), outcome: Some(Some(o)) })
}

/// The model after the progress line of `id` became `text` (and, when `clear_outcome`, its
/// outcome line was cleared).
pub open spec fn progress_posted(m: Option<ClientSupervisorModel>, n: Option<ClientSupervisorModel>, id: Option<Seq<char>>, text: Seq<char>, clear_outcome: bool) -> bool {
    exists|p: String| p@ == text && model_banners_updated(m, n, set![id],
        BannerChange { connection: None, progress: Some(Some(p)), outcome: if clear_outcome { Some(None) } else { None } })
}

/// What the loop still has to do after a registry change finished.
#[derive(Debug, Clone, Copy, PartialEq, Eq)]
pub struct ManageFollowUp {
    /// Re-sync the registry and refresh the supervisor summaries.
    pub refresh_summaries: bool,
    /// Run the automatic-update sweep.
    pub auto_update_sweep: bool,
}

/// `b` is `a` after a registry change for `remote_id` finished: `change` applied to its banner,
/// the management overlay no longer waiting on it, and the new-session form `session`.
pub open spec fn managed_model(a: ClientSupervisorModel, b: ClientSupervisorModel, remote_id: Seq<char>, change: BannerChange, session: Option<NewSessionForm>) -> bool {
    &&& banner_fields_updated(a, b, set![Some(remote_id)], change)
    &&& b == (ClientSupervisorModel {
            secondaries: b.secondaries,
            active_server_id: b.active_server_id,
            remote_manage: manage_cleared(a.remote_manage, remote_id),
            new_session: session,
            ..a
        })
}

/// The banner change that leaves every line as it is.
pub open spec fn no_change() -> BannerChange {
    BannerChange { connection: None, progress: None, outcome: None }
}

/// How a reconnect attempt ended, as the loop saw it.
#[derive(Debug)]
pub enum SecondaryAttemptOutcome {
    /// The connection came up (with a new ssh bridge when `bridge`) and its stream is attached.
    Attached { bridge: bool },
    /// The connection came up (with a new ssh bridge when `bridge`) but attaching its stream failed.
    AttachFailed { bridge: bool, error: ClientError },
    /// The attempt failed.
    Failed(ClientError),
}

/// The connection state a failed attempt leaves: a rejected handshake is a protocol mismatch,
/// anything else a disconnect.
pub open spec fn state_for_error(e: ClientError) -> ConnectionState {
    match e {
        ClientError::HandshakeRejected { version, .. } => ConnectionState::ProtocolMismatch {
            server_protocol: Some(version),
            client_protocol: PROTOCOL_VERSION,
        },
        _ => ConnectionState::Disconnected,
    }
}

/// The connection state a failed attempt leaves.
pub fn connection_state_from_client_error(err: &ClientError) -> (r: ConnectionState)
    ensures
        r == state_for_error(*err),
{
    match err {
        ClientError::HandshakeRejected { version, .. } => ConnectionState::ProtocolMismatch {
            server_protocol: Some(*version),
            client_protocol: PROTOCOL_VERSION,
        },
        _ => ConnectionState::Disconnected,
    }
}

/// The attempt after `attempt` (saturating).
pub open spec fn next_attempt(attempt: usize) -> usize {
    if attempt == usize::MAX { attempt } else { (attempt + 1) as usize }
}

/// The banner line of a failure the sweep keeps retrying.
pub open spec fn retrying_text(e: ClientError, ctx: ErrorContext, next: usize) -> Seq<char> {
    "\u{2717} "@ + bridge_error_text(client_error_message(e, ctx)) + " \u{2014} retrying in "@
        + decimal((retry_delay(next) / 1_000_000) as nat) + "s"@
}

/// The banner outcome of a terminal provisioning failure, with what an explicit retry does.
pub open spec fn stopped_text(e: ClientError, ctx: ErrorContext, confirm: bool) -> Seq<char> {
    "\u{2717} "@ + bridge_error_text(client_error_message(e, ctx)) + "\n  "@ + if confirm {
        "retry restarts the remote server (live panes interrupted)"@
    } else {
        "fix the cause, then retry from the host menu or its status glyph"@
    }
}

/// The banner change for a host whose stream came up: connected, lines cleared.
pub open spec fn connected_change() -> BannerChange {
    BannerChange { connection: Some(ConnectionState::Connected), progress: Some(None), outcome: Some(None) }
}

/// A secondary's summary refresh is due at `now`: never refreshed, or its cadence (fast for the
/// active server, slow for the others) has elapsed since the last one started.
pub open spec fn summary_refresh_due(last: Map<Option<Seq<char>>, u64>, active: Option<Seq<char>>, id: Option<Seq<char>>, now: u64) -> bool {
    let interval = if id == active { CLIENT_FOCUSED_SUMMARY_REFRESH_INTERVAL } else { CLIENT_SUPERVISOR_REFRESH_INTERVAL };
    !last.contains_key(id) || elapsed(now, last[id]) >= interval
}

/// The connected, enabled secondaries of `secs` (in order) whose summary refresh is due.
pub open spec fn due_refresh_ids(last: Map<Option<Seq<char>>, u64>, active: Option<Seq<char>>, secs: Seq<SecondaryServer>, now: u64) -> Seq<ServerId>
    decreases secs.len(),
{
    if secs.len() == 0 {
        Seq::empty()
    } else {
        let rest = due_refresh_ids(last, active, secs.drop_last(), now);
        let s = secs.last();
        if !s.disabled && s.connection_state == ConnectionState::Connected && s.server_id@ is Some
            && summary_refresh_due(last, active, s.server_id@, now) {
            rest.push(s.server_id)
        } else {
            rest
        }
    }
}

/// The candidates (in order) the automatic-update sweep may update: none already updating,
/// showing an outcome line, or suppressed after a failure.
pub open spec fn auto_update_allowed(b: ClientConnections, candidates: Seq<ServerId>) -> Seq<ServerId>
    decreases candidates.len(),
{
    if candidates.len() == 0 {
        Seq::empty()
    } else {
        let rest = auto_update_allowed(b, candidates.drop_last());
        let id = candidates.last()@;
        if b.pending_update_remote@.contains(id) || b.update_outcome_expiry@.contains_key(id)
            || b.auto_update_suppressed@.contains(id) {
            rest
        } else {
            rest.push(candidates.last())
        }
    }
}

/// A host parked by hand or stopped on a terminal provisioning failure stays down: the retry
/// sweep never starts an attempt for it, and the missing-stream sweep never schedules one.
pub proof fn lemma_parked_hosts_stay_down(b: ClientConnections, m: Option<ClientSupervisorModel>, now: u64, id: Option<Seq<char>>)
    requires
        b.manually_disconnected@.contains(id) || b.provision_failed@.contains(id),
    ensures
        !swept(b, m, now, RetryDecision::Launch).contains(id),
        with_missing_retries(b, m, now).contains_key(id) == b.secondary_retries@.contains_key(id),
{
}

/// The retry sweep never starts an attempt for a host whose stream is live or whose attempt is
/// already in flight.
pub proof fn lemma_sweep_spares_live_and_pending(b: ClientConnections, m: Option<ClientSupervisorModel>, now: u64, id: Option<Seq<char>>)
    requires
        b.server_writes@.contains(id) || b.pending_connect@.contains(id),
    ensures
        !swept(b, m, now, RetryDecision::Launch).contains(id),
{
}

/// The main server never gets a secondary summary refresh.
pub proof fn lemma_due_refreshes_are_secondaries(last: Map<Option<Seq<char>>, u64>, active: Option<Seq<char>>, secs: Seq<SecondaryServer>, now: u64)
    ensures
        forall|i: int| 0 <= i < due_refresh_ids(last, active, secs, now).len()
            ==> (#[trigger] due_refresh_ids(last, active, secs, now)[i])@ is Some,
    decreases secs.len(),
{
    if secs.len() > 0 {
        lemma_due_refreshes_are_secondaries(last, active, secs.drop_last(), now);
    }
}

/// The servers of `targets` (in order, each once) that get a new summary subscription: those
/// not subscribed in `subscribed` nor listed earlier.
pub open spec fn new_subscriptions(subscribed: Set<Option<Seq<char>>>, targets: Seq<ServerId>) -> Seq<ServerId>
    decreases targets.len(),
{
    if targets.len() == 0 {
        Seq::empty()
    } else {
        let rest = new_subscriptions(subscribed, targets.drop_last());
        let id = targets.last()@;
        if subscribed.contains(id) || exists|j: int| 0 <= j < targets.len() - 1 && (#[trigger] targets[j])@ == id {
            rest
        } else {
            rest.push(targets.last())
        }
    }
}

/// The views of a list of servers.
pub open spec fn id_set(ids: Seq<ServerId>) -> Set<Option<Seq<char>>> {
    Set::new(|id: Option<Seq<char>>| exists|j: int| 0 <= j < ids.len() && (#[trigger] ids[j])@ == id)
}

/// The servers of `due` (in order, each once) whose single-server summary refresh starts: a
/// secondary whose API is reachable and that has no refresh in flight.
pub open spec fn started_refreshes(pending: Set<Option<Seq<char>>>, reachable: Set<Option<Seq<char>>>, due: Seq<ServerId>) -> Seq<ServerId>
    decreases due.len(),
{
    if due.len() == 0 {
        Seq::empty()
    } else {
        let rest = started_refreshes(pending, reachable, due.drop_last());
        let id = due.last()@;
        if id is Some && reachable.contains(id) && !pending.contains(id)
            && !exists|j: int| 0 <= j < due.len() - 1 && (#[trigger] due[j])@ == id {
            rest.push(due.last())
        } else {
            rest
        }
    }
}

/// A reachable secondary listed as due ends up with a refresh in flight: it already had one,
/// or one starts.
proof fn lemma_started_covers(pending: Set<Option<Seq<char>>>, reachable: Set<Option<Seq<char>>>, due: Seq<ServerId>, k: Option<Seq<char>>)
    requires
        id_set(due).contains(k),
        k is Some,
        reachable.contains(k),
    ensures
        pending.contains(k) || id_set(started_refreshes(pending, reachable, due)).contains(k),
    decreases due.len(),
{
    let rest_due = due.drop_last();
    let st = started_refreshes(pending, reachable, due);
    let rest = started_refreshes(pending, reachable, rest_due);
    if id_set(rest_due).contains(k) {
        lemma_started_covers(pending, reachable, rest_due, k);
        if !pending.contains(k) {
            let a = choose|a: int| 0 <= a < rest.len() && (#[trigger] rest[a])@ == k;
            assert(st[a] == rest[a]);
        }
    } else {
        let j = choose|j: int| 0 <= j < due.len() && (#[trigger] due[j])@ == k;
        if j < due.len() - 1 {
            assert(rest_due[j] == due[j]);
        }
        assert(due.last()@ == k);
        assert(!exists|jj: int| 0 <= jj < due.len() - 1 && (#[trigger] due[jj])@ == k) by {
            if exists|jj: int| 0 <= jj < due.len() - 1 && (#[trigger] due[jj])@ == k {
                let jj = choose|jj: int| 0 <= jj < due.len() - 1 && (#[trigger] due[jj])@ == k;
                assert(rest_due[jj] == due[jj]);
            }
        }
        if !pending.contains(k) {
            assert(st == rest.push(due.last()));
            assert(st[rest.len() as int]@ == k);
        }
    }
}

/// What the loop does with a frame a server sent.
#[derive(Debug, Clone, Copy, PartialEq, Eq)]
pub enum FrameRoute {
    /// Write it as it is (the server renders the whole app).
    Flush,
    /// Compose it with the sidebar and write it (the active server's content).
    Compose,
    /// Only keep it, for a later switch to that server.
    CacheOnly,
}

/// What one housekeeping tick asks of the loop.
#[derive(Debug)]
pub struct TimerActions {
    /// The deferred render to perform now.
    pub render: TimerRender,
    /// The reconnect attempts to start.
    pub launches: Vec<RetryLaunch>,
    /// The secondaries whose summary refresh to start.
    pub refreshes: Vec<ServerId>,
    /// Start the main-server supervisor refresh.
    pub main_refresh: bool,
    /// The servers whose summary subscription to start.
    pub subscriptions: Vec<ServerId>,
    /// Re-render once the refreshes are under way.
    pub render_after_refresh: bool,
}

/// `n`, `mm` and `r` are what a failed write to server `id` leaves (see `handle_server_write_failure`).
pub open spec fn write_failure_handled(b: ClientConnections, n: ClientConnections, m: Option<ClientSupervisorModel>, mm: Option<ClientSupervisorModel>, id: ServerId, error: IoFailure, now: u64, r: Result<(), ClientError>) -> bool {
    &&& id@ is None ==> r == Err::<(), ClientError>(ClientError::ConnectionLost(error))
            && n == b && mm == m
    &&& id@ is Some ==> {
            &&& r is Ok
            &&& n.server_writes@ == b.server_writes@.remove(id@)
            &&& n.summary_subscriptions@ == b.summary_subscriptions@.remove(id@)
            &&& n.pending_summary_refresh@ == b.pending_summary_refresh@.remove(id@)
            &&& n.pending_connect@ == b.pending_connect@.remove(id@)
            &&& n.ssh_bridges@ == b.ssh_bridges@.remove(id@)
            &&& n.pending_pings@ == b.pending_pings@.remove(id@)
            &&& n.secondary_retries@ == b.secondary_retries@.insert(id@,
                    SecondaryRetryState { attempt: 0, next_retry_at: retry_at(now, 0) })
            &&& n == (ClientConnections {
                    server_writes: n.server_writes,
                    summary_subscriptions: n.summary_subscriptions,
                    pending_summary_refresh: n.pending_summary_refresh,
                    pending_connect: n.pending_connect,
                    ssh_bridges: n.ssh_bridges,
                    pending_pings: n.pending_pings,
                    secondary_retries: n.secondary_retries,
                    full_redraw_requested: true,
                    ..b
                })
            &&& model_banners_updated(m, mm, set![id@],
                    connection_change(ConnectionState::Disconnected))
        }
}

/// `n` and `mm` are what disconnecting secondary `id` by hand leaves (see `disconnect_remote`).
pub open spec fn disconnected_by_hand(b: ClientConnections, n: ClientConnections, m: Option<ClientSupervisorModel>, mm: Option<ClientSupervisorModel>, id: ServerId) -> bool {
    &&& n.manually_disconnected@ == b.manually_disconnected@.insert(id@)
    &&& b.torn_down(ClientConnections {
            manually_disconnected: b.manually_disconnected,
            full_redraw_requested: b.full_redraw_requested,
            ..n
        }, id@)
    &&& n.full_redraw_requested
    &&& model_banners_updated(m, mm, set![id@], connection_change(ConnectionState::Disconnected))
}

/// `n` and `mm` are what reconnecting secondary `id` by hand at `now` leaves (see `reconnect_remote`).
pub open spec fn reconnected_by_hand(b: ClientConnections, n: ClientConnections, m: Option<ClientSupervisorModel>, mm: Option<ClientSupervisorModel>, id: ServerId, now: u64) -> bool {
    &&& n.manually_disconnected@ == b.manually_disconnected@.remove(id@)
    &&& n.provision_failed@ == b.provision_failed@.remove(id@)
    &&& n.update_outcome_expiry@ == b.update_outcome_expiry@.remove(id@)
    &&& n.secondary_retries@ == b.secondary_retries@.insert(id@,
            SecondaryRetryState { attempt: 0, next_retry_at: retry_at(now, 0) })
    &&& n == (ClientConnections {
            manually_disconnected: n.manually_disconnected,
            provision_failed: n.provision_failed,
            update_outcome_expiry: n.update_outcome_expiry,
            secondary_retries: n.secondary_retries,
            full_redraw_requested: true,
            ..b
        })
    &&& model_banners_updated(m, mm, set![id@], launch_change())
}

/// `n`, `mm` and `r` are what the end of server `id`'s stream leaves (see `server_disconnected`).
pub open spec fn stream_end_handled(b: ClientConnections, n: ClientConnections, m: Option<ClientSupervisorModel>, mm: Option<ClientSupervisorModel>, id: ServerId, now: u64, r: Result<(), ClientError>) -> bool {
    &&& id@ is None ==> {
            &&& n == b
            &&& mm == m
            &&& r matches Err(ClientError::ConnectionLost(io)) && io.kind == IoErrorKind::UnexpectedEof
                && io.message@ == "server closed connection"@ && io.restart_confirm is None
        }
    &&& id@ is Some ==> {
            &&& r is Ok
            &&& n.server_writes@ == b.server_writes@.remove(id@)
            &&& n.summary_subscriptions@ == b.summary_subscriptions@.remove(id@)
            &&& n.pending_summary_refresh@ == b.pending_summary_refresh@.remove(id@)
            &&& n.pending_connect@ == b.pending_connect@.remove(id@)
            &&& n.ssh_bridges@ == b.ssh_bridges@.remove(id@)
            &&& n.pending_pings@ == b.pending_pings@.remove(id@)
            &&& n.secondary_retries@ == b.secondary_retries@.insert(id@,
                    SecondaryRetryState { attempt: 0, next_retry_at: retry_at(now, 0) })
            &&& n == (ClientConnections {
                    server_writes: n.server_writes,
                    summary_subscriptions: n.summary_subscriptions,
                    pending_summary_refresh: n.pending_summary_refresh,
                    pending_connect: n.pending_connect,
                    ssh_bridges: n.ssh_bridges,
                    pending_pings: n.pending_pings,
                    secondary_retries: n.secondary_retries,
                    full_redraw_requested: b.full_redraw_requested || (m) is Some,
                    ..b
                })
            &&& model_banners_updated(m, mm, set![id@],
                    connection_change(ConnectionState::Disconnected))
        }
}

/// `n`, `mm` and `r` are what a shutdown of server `id` for `reason` leaves: the main server's
/// shutdown ends the session with that reason and changes nothing; a secondary's drops its
/// stream, subscription, in-flight refresh and connect and bridge (its last frame stays),
/// shows it disconnected and schedules a first reconnect.
pub open spec fn shutdown_handled(b: ClientConnections, n: ClientConnections, m: Option<ClientSupervisorModel>, mm: Option<ClientSupervisorModel>, id: ServerId, reason: Option<String>, now: u64, r: Result<(), ClientError>) -> bool {
    &&& id@ is None ==> r == Err::<(), ClientError>(ClientError::ServerShutdown { reason }) && n == b && mm == m
    &&& id@ is Some ==> {
            &&& r is Ok
            &&& n.server_writes@ == b.server_writes@.remove(id@)
            &&& n.summary_subscriptions@ == b.summary_subscriptions@.remove(id@)
            &&& n.pending_summary_refresh@ == b.pending_summary_refresh@.remove(id@)
            &&& n.pending_connect@ == b.pending_connect@.remove(id@)
            &&& n.ssh_bridges@ == b.ssh_bridges@.remove(id@)
            &&& n.secondary_retries@ == b.secondary_retries@.insert(id@,
                    SecondaryRetryState { attempt: 0, next_retry_at: retry_at(now, 0) })
            &&& n == (ClientConnections {
                    server_writes: n.server_writes,
                    summary_subscriptions: n.summary_subscriptions,
                    pending_summary_refresh: n.pending_summary_refresh,
                    pending_connect: n.pending_connect,
                    ssh_bridges: n.ssh_bridges,
                    secondary_retries: n.secondary_retries,
                    full_redraw_requested: b.full_redraw_requested || m is Some,
                    ..b
                })
            &&& model_banners_updated(m, mm, set![id@], connection_change(ConnectionState::Disconnected))
        }
}

/// `n` and `r` are what routing a frame from server `id` gives (see `route_incoming_frame`).
pub open spec fn frame_routed(b: ClientConnections, n: ClientConnections, model: Option<ClientSupervisorModel>, composited: bool, id: ServerId, r: FrameRoute) -> bool {
    match model {
        Some(m) if composited => {
            &&& n.frame_cache@ == b.frame_cache@.insert(id@)
            &&& n == (ClientConnections { frame_cache: n.frame_cache, ..b })
            &&& r == if m.active_server_id@ == id@ { FrameRoute::Compose } else { FrameRoute::CacheOnly }
        },
        _ => r == FrameRoute::Flush && n == b,
    }
}

/// `d` and `mm` are what a finished host update of `server_id` with `result` at `now` makes of `c`
/// and `m` (see `ClientConnections::apply_update_remote_finished`).
pub open spec fn update_finished_done(c: ClientConnections, d: ClientConnections, m: Option<ClientSupervisorModel>, mm: Option<ClientSupervisorModel>, server_id: ServerId, result: Result<(), String>, now: u64) -> bool {
    &&& match result {
        Ok(()) => {
            &&& outcome_posted(m, mm, server_id@, Some(ConnectionState::Connecting),
                    "\u{2713} update complete"@, true)
            &&& d.server_writes@ == c.server_writes@.remove(server_id@)
            &&& d.frame_cache@ == c.frame_cache@.remove(server_id@)
            &&& d.summary_subscriptions@ == c.summary_subscriptions@.remove(server_id@)
            &&& d.pending_summary_refresh@ == c.pending_summary_refresh@.remove(server_id@)
            &&& d.pending_connect@ == c.pending_connect@.remove(server_id@)
            &&& d.ssh_bridges@ == c.ssh_bridges@.remove(server_id@)
            &&& d.pending_pings@ == c.pending_pings@.remove(server_id@)
            &&& d.secondary_retries@ == c.secondary_retries@.insert(server_id@,
                    SecondaryRetryState { attempt: 0, next_retry_at: retry_at(now, 0) })
            &&& d.update_outcome_expiry@ == c.update_outcome_expiry@.insert(server_id@,
                    (now + HOST_UPDATE_OUTCOME_TTL) as u64)
            &&& d.auto_update_suppressed@ == c.auto_update_suppressed@.remove(server_id@)
            &&& d.manually_disconnected@ == c.manually_disconnected@.remove(server_id@)
            &&& d == (ClientConnections {
                    server_writes: d.server_writes,
                    frame_cache: d.frame_cache,
                    summary_subscriptions: d.summary_subscriptions,
                    pending_summary_refresh: d.pending_summary_refresh,
                    pending_connect: d.pending_connect,
                    ssh_bridges: d.ssh_bridges,
                    pending_pings: d.pending_pings,
                    secondary_retries: d.secondary_retries,
                    update_outcome_expiry: d.update_outcome_expiry,
                    auto_update_suppressed: d.auto_update_suppressed,
                    manually_disconnected: d.manually_disconnected,
                    ..c
                })
        },
        Err(message) => {
            &&& outcome_posted(m, mm, server_id@, None,
                    "\u{2717} update failed: "@ + message@, false)
            &&& d.update_outcome_expiry@ == c.update_outcome_expiry@.insert(server_id@,
                    (now + HOST_UPDATE_FAILURE_TTL) as u64)
            &&& d.auto_update_suppressed@ == c.auto_update_suppressed@.insert(server_id@)
            &&& d == (ClientConnections {
                    update_outcome_expiry: d.update_outcome_expiry,
                    auto_update_suppressed: d.auto_update_suppressed,
                    ..c
                })
        },
    }
}

/// `d`, `mm` and `r` are what a finished registry change `action` of `remote_id` with `result` at
/// `now` makes of `c` and `m` (see `ClientConnections::apply_remote_manage_request_finished`).
pub open spec fn manage_finished_done(c: ClientConnections, d: ClientConnections, m: Option<ClientSupervisorModel>, mm: Option<ClientSupervisorModel>, action: RemoteManageAction, remote_id: Seq<char>, result: Result<(), String>, now: u64, r: ManageFollowUp) -> bool {
    &&& ({
        let id = Some(remote_id);
        match result {
            Err(err) => {
                &&& r == (ManageFollowUp { refresh_summaries: false, auto_update_sweep: false })
                &&& d.update_outcome_expiry@ == c.update_outcome_expiry@.insert(id,
                        (now + HOST_UPDATE_OUTCOME_TTL) as u64)
                &&& d == (ClientConnections { update_outcome_expiry: d.update_outcome_expiry, ..c })
                &&& match (m, mm) {
                    (Some(a), Some(b)) => exists|o: HostUpdateOutcome|
                        o.message@ == "\u{2717} "@ + manage_action_label(action) + " failed: "@ + err@ && !o.success
                        && managed_model(a, b, remote_id, BannerChange { connection: None, progress: Some(None), outcome: Some(Some(o)) },
                            if action is SetSession { session_failed(a.new_session, remote_id, err) } else { a.new_session }),
                    (None, None) => true,
                    _ => false,
                }
            },
            Ok(()) => {
                &&& r == (ManageFollowUp { refresh_summaries: (m) is Some, auto_update_sweep: action is SetAutoUpdate })
                &&& match action {
                    RemoteManageAction::SetEnabled { enabled } => {
                        &&& (if enabled { d == c } else { c.torn_down(d, id) })
                        &&& match (m, mm) {
                            (Some(a), Some(b)) => managed_model(a, b, remote_id, connection_change(
                                if enabled { ConnectionState::Connecting } else { ConnectionState::Disconnected }), a.new_session),
                            (None, None) => true,
                            _ => false,
                        }
                    },
                    RemoteManageAction::SetAutoUpdate { .. } => {
                        &&& d.auto_update_suppressed@ == c.auto_update_suppressed@.remove(id)
                        &&& d == (ClientConnections { auto_update_suppressed: d.auto_update_suppressed, ..c })
                        &&& match (m, mm) {
                            (Some(a), Some(b)) => managed_model(a, b, remote_id, no_change(), a.new_session),
                            (None, None) => true,
                            _ => false,
                        }
                    },
                    RemoteManageAction::SetSession { .. } => {
                        &&& d.server_writes@ == c.server_writes@.remove(id)
                        &&& d.frame_cache@ == c.frame_cache@.remove(id)
                        &&& d.summary_subscriptions@ == c.summary_subscriptions@.remove(id)
                        &&& d.pending_summary_refresh@ == c.pending_summary_refresh@.remove(id)
                        &&& d.pending_connect@ == c.pending_connect@.remove(id)
                        &&& d.ssh_bridges@ == c.ssh_bridges@.remove(id)
                        &&& d.pending_pings@ == c.pending_pings@.remove(id)
                        &&& d.secondary_retries@ == c.secondary_retries@.insert(id,
                                SecondaryRetryState { attempt: 0, next_retry_at: retry_at(now, 0) })
                        &&& d.manually_disconnected@ == c.manually_disconnected@.remove(id)
                        &&& d.provision_failed@ == c.provision_failed@.remove(id)
                        &&& d.update_outcome_expiry@ == c.update_outcome_expiry@.remove(id)
                        &&& d == (ClientConnections {
                                server_writes: d.server_writes,
                                frame_cache: d.frame_cache,
                                summary_subscriptions: d.summary_subscriptions,
                                pending_summary_refresh: d.pending_summary_refresh,
                                pending_connect: d.pending_connect,
                                ssh_bridges: d.ssh_bridges,
                                pending_pings: d.pending_pings,
                                secondary_retries: d.secondary_retries,
                                manually_disconnected: d.manually_disconnected,
                                provision_failed: d.provision_failed,
                                update_outcome_expiry: d.update_outcome_expiry,
                                ..c
                            })
                        &&& match (m, mm) {
                            (Some(a), Some(b)) => managed_model(a, b, remote_id, launch_change(),
                                session_finished(a.new_session, remote_id)),
                            (None, None) => true,
                            _ => false,
                        }
                    },
                    RemoteManageAction::Delete => {
                        &&& c.torn_down(d, id)
                        &&& match (m, mm) {
                            (Some(a), Some(b)) => secondary_removed(a, b, id) && b == (ClientSupervisorModel {
                                secondaries: b.secondaries,
                                active_server_id: b.active_server_id,
                                remote_manage: manage_cleared(a.remote_manage, remote_id),
                                ..a
                            }),
                            (None, None) => true,
                            _ => false,
                        }
                    },
                }
            },
        }
    })
}

/// `d`, `mm` and `r` are what the end of reconnect attempt `attempt` of `server_id` with `outcome`
/// at `now` makes of `c` and `m` (see `ClientConnections::apply_secondary_attempt_finished`).
pub open spec fn attempt_finished_done(c: ClientConnections, d: ClientConnections, m: Option<ClientSupervisorModel>, mm: Option<ClientSupervisorModel>, server_id: ServerId, attempt: usize, outcome: SecondaryAttemptOutcome, ctx: ErrorContext, now: u64, r: bool) -> bool {
    &&& d.full_redraw_requested
    &&& d.pending_connect@ == c.pending_connect@.remove(server_id@)
    &&& match outcome {
        SecondaryAttemptOutcome::Attached { bridge } => {
            &&& r == m is Some
            &&& d.ssh_bridges@ == if bridge { c.ssh_bridges@.insert(server_id@) } else { c.ssh_bridges@ }
            &&& d.server_writes@ == c.server_writes@.insert(server_id@)
            &&& d.secondary_retries@ == c.secondary_retries@.remove(server_id@)
            &&& d.provision_failed@ == c.provision_failed@.remove(server_id@)
            &&& d.retry_restart_incompatible@ == c.retry_restart_incompatible@.remove(server_id@)
            &&& d.update_outcome_expiry@ == c.update_outcome_expiry@.remove(server_id@)
            &&& d.last_summary_refresh@ == if r {
                    c.last_summary_refresh@.insert(server_id@, now)
                } else {
                    c.last_summary_refresh@
                }
            &&& d == (ClientConnections {
                    pending_connect: d.pending_connect,
                    ssh_bridges: d.ssh_bridges,
                    server_writes: d.server_writes,
                    secondary_retries: d.secondary_retries,
                    provision_failed: d.provision_failed,
                    retry_restart_incompatible: d.retry_restart_incompatible,
                    update_outcome_expiry: d.update_outcome_expiry,
                    last_summary_refresh: d.last_summary_refresh,
                    full_redraw_requested: true,
                    ..c
                })
            &&& model_banners_updated(m, mm, set![server_id@], connected_change())
        },
        SecondaryAttemptOutcome::AttachFailed { bridge, error } => {
            &&& !r
            &&& d.ssh_bridges@ == if bridge { c.ssh_bridges@.insert(server_id@) } else { c.ssh_bridges@ }
            &&& d.secondary_retries@ == c.secondary_retries@.insert(server_id@,
                    SecondaryRetryState { attempt: next_attempt(attempt), next_retry_at: retry_at(now, next_attempt(attempt)) })
            &&& d == (ClientConnections {
                    pending_connect: d.pending_connect,
                    ssh_bridges: d.ssh_bridges,
                    secondary_retries: d.secondary_retries,
                    full_redraw_requested: true,
                    ..c
                })
            &&& model_banners_updated(m, mm, set![server_id@], connection_change(state_for_error(error)))
        },
        SecondaryAttemptOutcome::Failed(error) => {
            &&& !r
            &&& d.ssh_bridges@ == c.ssh_bridges@.remove(server_id@)
            &&& if error is HandshakeRejected {
                &&& d.secondary_retries@ == c.secondary_retries@.remove(server_id@)
                &&& d == (ClientConnections {
                        pending_connect: d.pending_connect,
                        ssh_bridges: d.ssh_bridges,
                        secondary_retries: d.secondary_retries,
                        full_redraw_requested: true,
                        ..c
                    })
                &&& model_banners_updated(m, mm, set![server_id@], connection_change(state_for_error(error)))
            } else if provision_disposition(error, ctx) == ProvisionFailureDisposition::Retry {
                &&& d.secondary_retries@ == c.secondary_retries@.insert(server_id@,
                        SecondaryRetryState { attempt: next_attempt(attempt), next_retry_at: retry_at(now, next_attempt(attempt)) })
                &&& d == (ClientConnections {
                        pending_connect: d.pending_connect,
                        ssh_bridges: d.ssh_bridges,
                        secondary_retries: d.secondary_retries,
                        full_redraw_requested: true,
                        ..c
                    })
                &&& exists|p: String| p@ == retrying_text(error, ctx, next_attempt(attempt))
                        && model_banners_updated(m, mm, set![server_id@], BannerChange {
                            connection: Some(ConnectionState::Disconnected),
                            progress: Some(Some(p)),
                            outcome: None,
                        })
            } else {
                let confirm = provision_disposition(error, ctx) == ProvisionFailureDisposition::StopNeedsRestartConfirm;
                &&& d.secondary_retries@ == c.secondary_retries@.remove(server_id@)
                &&& d.provision_failed@ == c.provision_failed@.insert(server_id@)
                &&& d.retry_restart_incompatible@ == if confirm {
                        c.retry_restart_incompatible@.insert(server_id@)
                    } else {
                        c.retry_restart_incompatible@
                    }
                &&& d.update_outcome_expiry@ == c.update_outcome_expiry@.remove(server_id@)
                &&& d == (ClientConnections {
                        pending_connect: d.pending_connect,
                        ssh_bridges: d.ssh_bridges,
                        secondary_retries: d.secondary_retries,
                        provision_failed: d.provision_failed,
                        retry_restart_incompatible: d.retry_restart_incompatible,
                        update_outcome_expiry: d.update_outcome_expiry,
                        full_redraw_requested: true,
                        ..c
                    })
                &&& outcome_posted(m, mm, server_id@, Some(ConnectionState::Disconnected),
                        stopped_text(error, ctx, confirm), false)
            }
        },
    }
}

/// `d`, `mm`, `cad1`, `last1` and `r` are what the loop's housekeeping tick at `now` makes of `c`,
/// `m`, the render cadence `cad0` and the last supervisor refresh `last0` (see
/// `ClientConnections::timer_housekeeping`).
pub open spec fn housekeeping_done(c: ClientConnections, d: ClientConnections, m: Option<ClientSupervisorModel>, mm: Option<ClientSupervisorModel>, cad0: RenderCadence, cad1: RenderCadence, last0: u64, last1: u64, reachable: IdSet, subscription_targets: Seq<ServerId>, now: u64, r: TimerActions) -> bool {
    &&& ({
        let expired = expired_outcomes(c, now);
        let launched = swept(c, m, now, RetryDecision::Launch);
        let dropped = swept(c, m, now, RetryDecision::Drop);
        let gate = elapsed(now, last0) >= CLIENT_SUPERVISOR_REFRESH_INTERVAL;
        let due = match mm {
            Some(m) => due_refresh_ids(c.last_summary_refresh@, m.active_server_id@, m.secondaries@, now),
            None => Seq::<ServerId>::empty(),
        };
        let subscribing = gate && (m) is Some;
        &&& (exists|m1: Option<ClientSupervisorModel>| model_banners_updated(m, m1, expired, outcome_cleared())
                && model_banners_updated(m1, mm, launched, launch_change()))
        &&& d.update_outcome_expiry@ == c.update_outcome_expiry@.remove_keys(expired).remove_keys(launched)
        &&& d.pending_connect@ == c.pending_connect@.union(launched)
        &&& d.retry_restart_incompatible@ == c.retry_restart_incompatible@.difference(launched)
        &&& forall|i: int, j: int| 0 <= i < r.launches@.len() && 0 <= j < r.launches@.len() && i != j
                ==> (#[trigger] r.launches@[i]).server_id@ != (#[trigger] r.launches@[j]).server_id@
        &&& forall|i: int| 0 <= i < r.launches@.len() ==> launched.contains((#[trigger] r.launches@[i]).server_id@)
                && r.launches@[i].attempt == c.secondary_retries@[r.launches@[i].server_id@].attempt
                && r.launches@[i].restart_incompatible == c.retry_restart_incompatible@.contains(r.launches@[i].server_id@)
        &&& forall|id: Option<Seq<char>>| #[trigger] launched.contains(id)
                ==> exists|i: int| 0 <= i < r.launches@.len() && (#[trigger] r.launches@[i]).server_id@ == id
        &&& r.refreshes@ == started_refreshes(c.pending_summary_refresh@, reachable@, due)
        &&& d.pending_summary_refresh@ == c.pending_summary_refresh@.union(id_set(r.refreshes@))
        &&& d.last_summary_refresh@ =~= Map::new(
                |k: Option<Seq<char>>| c.last_summary_refresh@.contains_key(k) || id_set(due).contains(k),
                |k: Option<Seq<char>>| if id_set(due).contains(k) { now } else { c.last_summary_refresh@[k] },
            )
        &&& d.secondary_retries@ == if gate {
                retries_with_missing(c.secondary_retries@.remove_keys(dropped), c, mm, now)
            } else {
                c.secondary_retries@.remove_keys(dropped)
            }
        &&& r.main_refresh == (subscribing && !c.pending_main_refresh)
        &&& d.pending_main_refresh == (c.pending_main_refresh || subscribing)
        &&& last1 == if subscribing { now } else { last0 }
        &&& d.summary_subscriptions@ == if subscribing {
                c.summary_subscriptions@.union(id_set(subscription_targets))
            } else {
                c.summary_subscriptions@
            }
        &&& r.subscriptions@ == if subscribing {
                new_subscriptions(c.summary_subscriptions@, subscription_targets)
            } else {
                Seq::<ServerId>::empty()
            }
        &&& r.render_after_refresh == (due.len() > 0 || gate)
        &&& d.full_redraw_requested == (c.full_redraw_requested || launched != Set::<Option<Seq<char>>>::empty())
        &&& d == (ClientConnections {
                update_outcome_expiry: d.update_outcome_expiry,
                pending_connect: d.pending_connect,
                retry_restart_incompatible: d.retry_restart_incompatible,
                secondary_retries: d.secondary_retries,
                pending_summary_refresh: d.pending_summary_refresh,
                last_summary_refresh: d.last_summary_refresh,
                summary_subscriptions: d.summary_subscriptions,
                pending_main_refresh: d.pending_main_refresh,
                full_redraw_requested: d.full_redraw_requested,
                ..c
            })
        &&& ({
            let c = if expired != Set::<Option<Seq<char>>>::empty() {
                RenderCadence { shell_cache: None, blit_baseline: false, pending_full_render: true, ..cad0 }
            } else {
                cad0
            };
            if c.pending_full_render {
                r.render == TimerRender::Full && cad1 == (RenderCadence { pending_full_render: false, pending_hover_render: false, ..c })
            } else if c.pending_hover_render {
                r.render == TimerRender::Hover && cad1 == (RenderCadence { pending_hover_render: false, ..c })
            } else {
                r.render == TimerRender::Nothing && cad1 == c
            }
        })
    })
}

/// `d`, `mm` and `r` are what starting an update of `server_id` (an ssh remote when
/// `has_ssh_target`) makes of `c` and `m` (see `ClientConnections::begin_remote_update`).
pub open spec fn update_begun(c: ClientConnections, d: ClientConnections, m: Option<ClientSupervisorModel>, mm: Option<ClientSupervisorModel>, server_id: ServerId, has_ssh_target: bool, r: bool) -> bool {
    &&& has_ssh_target ==> {
        &&& r == !c.pending_update_remote@.contains(server_id@)
        &&& d.pending_update_remote@ =~= c.pending_update_remote@.insert(server_id@)
        &&& d.update_outcome_expiry@ =~= c.update_outcome_expiry@.remove(server_id@)
        &&& d == (ClientConnections {
                pending_update_remote: d.pending_update_remote,
                update_outcome_expiry: d.update_outcome_expiry,
                ..c
            })
        &&& progress_posted(m, mm, server_id@, "starting update\u{2026}"@, true)
    }
    &&& !has_ssh_target ==> {
        &&& !r
        &&& d == c
        &&& progress_posted(m, mm, server_id@, "update is only available for ssh remotes"@, false)
    }
}

impl ClientConnections {
    /// Every collection holds each server at most once.
    pub open spec fn wf(&self) -> bool {
        &&& self.server_writes.wf()
        &&& self.frame_cache.wf()
        &&& self.summary_subscriptions.wf()
        &&& self.pending_summary_refresh.wf()
        &&& self.pending_connect.wf()
        &&& self.ssh_bridges.wf()
        &&& self.pending_pings.wf()
        &&& self.secondary_retries.wf()
        &&& self.manually_disconnected.wf()
        &&& self.provision_failed.wf()
        &&& self.retry_restart_incompatible.wf()
        &&& self.pending_update_remote.wf()
        &&& self.update_outcome_expiry.wf()
        &&& self.auto_update_suppressed.wf()
        &&& self.last_summary_refresh.wf()
    }

    /// `n` is `self` with the stream, frame, subscription, refresh, connect, bridge, ping and
    /// retry state of `id` gone, and nothing else changed.
    pub open spec fn torn_down(&self, n: ClientConnections, id: Option<Seq<char>>) -> bool {
        &&& n.server_writes@ == self.server_writes@.remove(id)
        &&& n.frame_cache@ == self.frame_cache@.remove(id)
        &&& n.summary_subscriptions@ == self.summary_subscriptions@.remove(id)
        &&& n.pending_summary_refresh@ == self.pending_summary_refresh@.remove(id)
        &&& n.pending_connect@ == self.pending_connect@.remove(id)
        &&& n.ssh_bridges@ == self.ssh_bridges@.remove(id)
        &&& n.pending_pings@ == self.pending_pings@.remove(id)
        &&& n.secondary_retries@ == self.secondary_retries@.remove(id)
        &&& n == (ClientConnections {
                server_writes: n.server_writes,
                frame_cache: n.frame_cache,
                summary_subscriptions: n.summary_subscriptions,
                pending_summary_refresh: n.pending_summary_refresh,
                pending_connect: n.pending_connect,
                ssh_bridges: n.ssh_bridges,
                pending_pings: n.pending_pings,
                secondary_retries: n.secondary_retries,
                ..*self
            })
    }

    /// No server tracked anywhere, no repaint due.
    pub fn new() -> (r: ClientConnections)
        ensures
            r.wf(),
            r.server_writes@.is_empty(),
            r.frame_cache@.is_empty(),
            r.summary_subscriptions@.is_empty(),
            r.pending_summary_refresh@.is_empty(),
            r.pending_connect@.is_empty(),
            r.ssh_bridges@.is_empty(),
            r.pending_pings@.is_empty(),
            r.secondary_retries@.is_empty(),
            r.manually_disconnected@.is_empty(),
            r.provision_failed@.is_empty(),
            r.retry_restart_incompatible@.is_empty(),
            r.pending_update_remote@.is_empty(),
            r.update_outcome_expiry@.is_empty(),
            r.auto_update_suppressed@.is_empty(),
            r.last_summary_refresh@.is_empty(),
            !r.pending_main_refresh,
            !r.pending_add_remote,
            !r.full_redraw_requested,
    {
        ClientConnections {
            server_writes: IdSet::new(),
            frame_cache: IdSet::new(),
            summary_subscriptions: IdSet::new(),
            pending_summary_refresh: IdSet::new(),
            pending_connect: IdSet::new(),
            ssh_bridges: IdSet::new(),
            pending_pings: IdSet::new(),
            secondary_retries: IdMap::new(),
            manually_disconnected: IdSet::new(),
            provision_failed: IdSet::new(),
            retry_restart_incompatible: IdSet::new(),
            pending_update_remote: IdSet::new(),
            update_outcome_expiry: IdMap::new(),
            auto_update_suppressed: IdSet::new(),
            last_summary_refresh: IdMap::new(),
            pending_main_refresh: false,
            pending_add_remote: false,
            full_redraw_requested: false,
        }
    }

    /// Tear a secondary's connection down for good (disable, delete): its stream, cached frame,
    /// subscription, in-flight refresh and connect, bridge, ping and retry all go. The caller
    /// sets the model's connection state.
    pub fn teardown_secondary_connection(&mut self, server_id: &ServerId)
        requires
            old(self).wf(),
        ensures
            final(self).wf(),
            old(self).torn_down(*final(self), server_id@),
    {
        self.server_writes.remove(server_id);
        self.frame_cache.remove(server_id);
        self.summary_subscriptions.remove(server_id);
        self.pending_summary_refresh.remove(server_id);
        self.pending_connect.remove(server_id);
        self.ssh_bridges.remove(server_id);
        self.secondary_retries.remove(server_id);
        self.pending_pings.remove(server_id);
    }

    /// Schedule attempt `attempt` of a reconnect to `server_id`, after that attempt's backoff.
    pub fn schedule_secondary_retry(&mut self, server_id: ServerId, attempt: usize, now: u64)
        requires
            old(self).wf(),
            now + retry_delay(attempt) <= u64::MAX,
        ensures
            final(self).wf(),
            final(self).secondary_retries@ == old(self).secondary_retries@.insert(server_id@,
                SecondaryRetryState { attempt, next_retry_at: retry_at(now, attempt) }),
            *final(self) == (ClientConnections { secondary_retries: final(self).secondary_retries, ..*old(self) }),
    {
        let delay = crate::schedule::secondary_retry_delay(attempt);
        self.secondary_retries.insert(server_id, SecondaryRetryState { attempt, next_retry_at: now + delay });
    }

    /// A write to a server's stream failed. Losing the main server ends the client; a secondary
    /// is marked disconnected instead: its stream, subscription, in-flight refresh and connect,
    /// bridge and ping go, its last frame stays cached, a first reconnect attempt is scheduled
    /// and a full repaint is requested.
    pub fn handle_server_write_failure(
        &mut self,
        model: &mut Option<ClientSupervisorModel>,
        server_id: ServerId,
        error: IoFailure,
        now: u64,
    ) -> (r: Result<(), ClientError>)
        requires
            old(self).wf(),
            now + retry_delay(0) <= u64::MAX,
        ensures
            final(self).wf(),
            write_failure_handled(*old(self), *final(self), *old(model), *final(model), server_id, error, now, r),

    {
        if server_id.is_main() {
            return Err(ClientError::ConnectionLost(error));
        }
        self.server_writes.remove(&server_id);
        self.summary_subscriptions.remove(&server_id);
        self.pending_summary_refresh.remove(&server_id);
        self.pending_connect.remove(&server_id);
        self.ssh_bridges.remove(&server_id);
        self.pending_pings.remove(&server_id);
        match model {
            Some(m) => m.set_connection_state(&server_id, ConnectionState::Disconnected),
            None => {},
        }
        self.schedule_secondary_retry(server_id, 0, now);
        self.full_redraw_requested = true;
        Ok(())
    }

    /// Sweep the due retries (`next_retry_at <= now`) as `retry_decision` says: dropped ones
    /// leave the schedule; each launched one is marked connecting (banner lines cleared, outcome
    /// timer dropped), consumes its restart approval and is returned for the loop to start.
    pub fn retry_due_secondary_connections(&mut self, model: &mut Option<ClientSupervisorModel>, now: u64) -> (r: Vec<RetryLaunch>)
        requires
            old(self).wf(),
        ensures
            final(self).wf(),
            ({
                let launched = swept(*old(self), *old(model), now, RetryDecision::Launch);
                let dropped = swept(*old(self), *old(model), now, RetryDecision::Drop);
                &&& final(self).secondary_retries@ == old(self).secondary_retries@.remove_keys(dropped)
                &&& final(self).pending_connect@ == old(self).pending_connect@.union(launched)
                &&& final(self).retry_restart_incompatible@ == old(self).retry_restart_incompatible@.difference(launched)
                &&& final(self).update_outcome_expiry@ == old(self).update_outcome_expiry@.remove_keys(launched)
                &&& final(self).full_redraw_requested == (old(self).full_redraw_requested || launched != Set::<Option<Seq<char>>>::empty())
                &&& *final(self) == (ClientConnections {
                        secondary_retries: final(self).secondary_retries,
                        pending_connect: final(self).pending_connect,
                        retry_restart_incompatible: final(self).retry_restart_incompatible,
                        update_outcome_expiry: final(self).update_outcome_expiry,
                        full_redraw_requested: final(self).full_redraw_requested,
                        ..*old(self)
                    })
                &&& model_banners_updated(*old(model), *final(model), launched, launch_change())
                &&& forall|i: int, j: int| 0 <= i < r@.len() && 0 <= j < r@.len() && i != j
                        ==> (#[trigger] r@[i]).server_id@ != (#[trigger] r@[j]).server_id@
                &&& forall|i: int| 0 <= i < r@.len() ==> launched.contains((#[trigger] r@[i]).server_id@)
                        && r@[i].attempt == old(self).secondary_retries@[r@[i].server_id@].attempt
                        && r@[i].restart_incompatible == old(self).retry_restart_incompatible@.contains(r@[i].server_id@)
                &&& forall|id: Option<Seq<char>>| #[trigger] launched.contains(id)
                        ==> exists|i: int| 0 <= i < r@.len() && (#[trigger] r@[i]).server_id@ == id
                &&& forall|id: Option<Seq<char>>| #[trigger] launched.contains(id)
                        ==> retry_decision(*final(self), *final(model), id) == RetryDecision::Hold
            }),
    {
        let ghost b0 = *self;
        let ghost m0 = *model;
        let ghost launched = swept(b0, m0, now, RetryDecision::Launch);
        let ghost dropped = swept(b0, m0, now, RetryDecision::Drop);
        let entries = self.secondary_retries.snapshot();
        let ghost mut done: Set<Option<Seq<char>>> = Set::empty();
        let mut launches: Vec<RetryLaunch> = Vec::new();
        proof {
            crate::supervisor::lemma_banners_none_opt(m0, launch_change());
            assert(launched.intersect(done) =~= Set::<Option<Seq<char>>>::empty());
            assert(dropped.intersect(done) =~= Set::<Option<Seq<char>>>::empty());
        }
        let mut i: usize = 0;
        while i < entries.len()
            invariant
                i <= entries@.len(),
                self.wf(),
                b0.wf(),
                launched == swept(b0, m0, now, RetryDecision::Launch),
                dropped == swept(b0, m0, now, RetryDecision::Drop),
                forall|a: int, c: int| 0 <= a < entries@.len() && 0 <= c < entries@.len() && a != c
                    ==> (#[trigger] entries@[a]).0@ != (#[trigger] entries@[c]).0@,
                forall|a: int| 0 <= a < entries@.len() ==> b0.secondary_retries@.contains_key((#[trigger] entries@[a]).0@)
                    && b0.secondary_retries@[entries@[a].0@] == entries@[a].1,
                forall|id: Option<Seq<char>>| #[trigger] b0.secondary_retries@.contains_key(id)
                    ==> exists|a: int| 0 <= a < entries@.len() && (#[trigger] entries@[a]).0@ == id,
                forall|a: int| 0 <= a < i ==> done.contains((#[trigger] entries@[a]).0@),
                forall|id: Option<Seq<char>>| #[trigger] done.contains(id) ==> exists|a: int| 0 <= a < i && (#[trigger] entries@[a]).0@ == id,
                self.secondary_retries@ == b0.secondary_retries@.remove_keys(dropped.intersect(done)),
                self.pending_connect@ == b0.pending_connect@.union(launched.intersect(done)),
                self.retry_restart_incompatible@ == b0.retry_restart_incompatible@.difference(launched.intersect(done)),
                self.update_outcome_expiry@ == b0.update_outcome_expiry@.remove_keys(launched.intersect(done)),
                self.full_redraw_requested == (b0.full_redraw_requested || launched.intersect(done) != Set::<Option<Seq<char>>>::empty()),
                *self == (ClientConnections {
                    secondary_retries: self.secondary_retries,
                    pending_connect: self.pending_connect,
                    retry_restart_incompatible: self.retry_restart_incompatible,
                    update_outcome_expiry: self.update_outcome_expiry,
                    full_redraw_requested: self.full_redraw_requested,
                    ..b0
                }),
                model_banners_updated(m0, *model, launched.intersect(done), launch_change()),
                forall|a: int, c: int| 0 <= a < launches@.len() && 0 <= c < launches@.len() && a != c
                    ==> (#[trigger] launches@[a]).server_id@ != (#[trigger] launches@[c]).server_id@,
                forall|a: int| 0 <= a < launches@.len() ==> launched.intersect(done).contains((#[trigger] launches@[a]).server_id@)
                    && launches@[a].attempt == b0.secondary_retries@[launches@[a].server_id@].attempt
                    && launches@[a].restart_incompatible == b0.retry_restart_incompatible@.contains(launches@[a].server_id@),
                forall|id: Option<Seq<char>>| #[trigger] launched.intersect(done).contains(id)
                    ==> exists|a: int| 0 <= a < launches@.len() && (#[trigger] launches@[a]).server_id@ == id,
            decreases entries@.len() - i,
        {
            let id = &entries[i].0;
            let state = entries[i].1;
            let ghost k = id@;
            let ghost m_prev = *model;
            let ghost launches_prev = launches@;
            proof {
                assert(!done.contains(k)) by {
                    if done.contains(k) {
                        let a = choose|a: int| 0 <= a < i && (#[trigger] entries@[a]).0@ == k;
                        assert(entries@[a].0@ != entries@[i as int].0@);
                    }
                }
                assert(b0.secondary_retries@[k] == state);
                match m0 {
                    Some(x) => {
                        lemma_banners_keep_plans(x, model.unwrap(), launched.intersect(done), launch_change(), k);
                    },
                    None => {},
                }
            }
            let mut launched_now = false;
            if state.next_retry_at <= now {
                if self.manually_disconnected.contains(id) || self.provision_failed.contains(id) {
                    self.secondary_retries.remove(id);
                } else if self.server_writes.contains(id) {
                    self.secondary_retries.remove(id);
                } else if self.pending_connect.contains(id) {
                } else {
                    let plan = match model {
                        Some(m) => m.has_connection_plan(id),
                        None => false,
                    };
                    if !plan {
                        self.secondary_retries.remove(id);
                    } else {
                        self.pending_connect.insert(id.duplicate());
                        let restart = self.retry_restart_incompatible.remove(id);
                        launches.push(RetryLaunch { server_id: id.duplicate(), attempt: state.attempt, restart_incompatible: restart });
                        match model {
                            Some(m) => m.update_banner(id, &BannerChange {
                                connection: Some(ConnectionState::Connecting),
                                progress: Some(None),
                                outcome: Some(None),
                            }),
                            None => {},
                        }
                        self.update_outcome_expiry.remove(id);
                        self.full_redraw_requested = true;
                        launched_now = true;
                    }
                }
            }
            proof {
                let d2 = done.insert(k);
                assert(retry_due(b0, k, now) == (state.next_retry_at <= now));
                assert(launched_now == launched.contains(k));
                if launched_now {
                    assert(launched.intersect(d2) =~= launched.intersect(done).insert(k));
                    assert(launched.intersect(d2).contains(k));
                    assert(launched.intersect(d2) != Set::<Option<Seq<char>>>::empty());
                    assert(dropped.intersect(d2) =~= dropped.intersect(done));
                    match m0 {
                        Some(x) => {
                            lemma_banners_compose(x, m_prev.unwrap(), model.unwrap(), launched.intersect(done), k, launch_change());
                        },
                        None => {},
                    }
                    assert(launches@[launches@.len() - 1].server_id@ == k);
                    assert forall|id2: Option<Seq<char>>| #[trigger] launched.intersect(d2).contains(id2)
                        implies exists|a: int| 0 <= a < launches@.len() && (#[trigger] launches@[a]).server_id@ == id2 by {
                        if id2 != k {
                            let a = choose|a: int| 0 <= a < launches_prev.len() && (#[trigger] launches_prev[a]).server_id@ == id2;
                            assert(launches@[a] == launches_prev[a]);
                        }
                    }
                } else {
                    assert(launched.intersect(d2) =~= launched.intersect(done));
                    if dropped.contains(k) {
                        assert(dropped.intersect(d2) =~= dropped.intersect(done).insert(k));
                    } else {
                        assert(dropped.intersect(d2) =~= dropped.intersect(done));
                    }
                }
                assert(self.secondary_retries@ =~= b0.secondary_retries@.remove_keys(dropped.intersect(d2)));
                assert(self.pending_connect@ =~= b0.pending_connect@.union(launched.intersect(d2)));
                assert(self.retry_restart_incompatible@ =~= b0.retry_restart_incompatible@.difference(launched.intersect(d2)));
                assert(self.update_outcome_expiry@ =~= b0.update_outcome_expiry@.remove_keys(launched.intersect(d2)));
                done = d2;
            }
            i = i + 1;
        }
        proof {
            assert(launched.intersect(done) =~= launched);
            assert(dropped.intersect(done) =~= dropped);
        }
        launches
    }

    /// Give every secondary that is missing its stream (connecting, or connected without a live
    /// stream) an immediate first retry, unless it already has one or is parked by hand or
    /// stopped on a terminal provisioning failure.
    pub fn schedule_missing_secondary_stream_retries(&mut self, model: &Option<ClientSupervisorModel>, now: u64)
        requires
            old(self).wf(),
        ensures
            final(self).wf(),
            final(self).secondary_retries@ == with_missing_retries(*old(self), *model, now),
            *final(self) == (ClientConnections { secondary_retries: final(self).secondary_retries, ..*old(self) }),
    {
        let ghost b0 = *self;
        let m = match model {
            Some(m) => m,
            None => {
                assert(self.secondary_retries@ =~= with_missing_retries(b0, *model, now));
                return;
            },
        };
        let mut i: usize = 0;
        while i < m.secondaries.len()
            invariant
                i <= m.secondaries@.len(),
                self.wf(),
                *model == Some(*m),
                *self == (ClientConnections { secondary_retries: self.secondary_retries, ..b0 }),
                self.secondary_retries@ == Map::new(
                    |id: Option<Seq<char>>| b0.secondary_retries@.contains_key(id)
                        || (stream_missing_upto(*m, b0.server_writes@, id, i as int)
                            && !b0.manually_disconnected@.contains(id) && !b0.provision_failed@.contains(id)),
                    |id: Option<Seq<char>>| if b0.secondary_retries@.contains_key(id) {
                        b0.secondary_retries@[id]
                    } else {
                        SecondaryRetryState { attempt: 0, next_retry_at: now }
                    },
                ),
            decreases m.secondaries@.len() - i,
        {
            let s = &m.secondaries[i];
            let ghost k = s.server_id@;
            let wanted = !s.disabled && match s.connection_state {
                ConnectionState::Connecting => true,
                ConnectionState::Connected => !self.server_writes.contains(&s.server_id),
                _ => false,
            };
            let parked = self.manually_disconnected.contains(&s.server_id) || self.provision_failed.contains(&s.server_id);
            if wanted && !parked && !self.secondary_retries.contains_key(&s.server_id) {
                self.secondary_retries.insert(s.server_id.duplicate(), SecondaryRetryState { attempt: 0, next_retry_at: now });
            }
            proof {
                assert forall|id: Option<Seq<char>>| #[trigger] stream_missing_upto(*m, b0.server_writes@, id, i + 1)
                    == (stream_missing_upto(*m, b0.server_writes@, id, i as int) || (id == k && wanted)) by {
                    if stream_missing_upto(*m, b0.server_writes@, id, i + 1) && !stream_missing_upto(*m, b0.server_writes@, id, i as int) {
                        let j = choose|j: int| 0 <= j < i + 1 && j < m.secondaries@.len() && (#[trigger] m.secondaries@[j]).server_id@ == id
                            && !m.secondaries@[j].disabled
                            && (m.secondaries@[j].connection_state == ConnectionState::Connecting
                                || (m.secondaries@[j].connection_state == ConnectionState::Connected && !b0.server_writes@.contains(id)));
                        assert(j == i);
                    }
                    if id == k && wanted {
                        assert(m.secondaries@[i as int].server_id@ == id);
                    }
                }
                assert(self.secondary_retries@ =~= Map::new(
                    |id: Option<Seq<char>>| b0.secondary_retries@.contains_key(id)
                        || (stream_missing_upto(*m, b0.server_writes@, id, i + 1)
                            && !b0.manually_disconnected@.contains(id) && !b0.provision_failed@.contains(id)),
                    |id: Option<Seq<char>>| if b0.secondary_retries@.contains_key(id) {
                        b0.secondary_retries@[id]
                    } else {
                        SecondaryRetryState { attempt: 0, next_retry_at: now }
                    },
                ));
            }
            i = i + 1;
        }
        assert(self.secondary_retries@ =~= with_missing_retries(b0, *model, now));
    }

    /// Clear every host outcome line whose display time is over at `now`, from the timer map
    /// and from the model's banners; true when any was cleared.
    pub fn expire_host_update_outcomes(&mut self, model: &mut Option<ClientSupervisorModel>, now: u64) -> (r: bool)
        requires
            old(self).wf(),
        ensures
            final(self).wf(),
            final(self).update_outcome_expiry@ == old(self).update_outcome_expiry@.remove_keys(expired_outcomes(*old(self), now)),
            *final(self) == (ClientConnections { update_outcome_expiry: final(self).update_outcome_expiry, ..*old(self) }),
            model_banners_updated(*old(model), *final(model), expired_outcomes(*old(self), now), outcome_cleared()),
            r == (expired_outcomes(*old(self), now) != Set::<Option<Seq<char>>>::empty()),
            expired_outcomes(*final(self), now) == Set::<Option<Seq<char>>>::empty(),
    {
        let ghost b0 = *self;
        let ghost m0 = *model;
        let ghost expired = expired_outcomes(b0, now);
        let entries = self.update_outcome_expiry.snapshot();
        let ghost mut done: Set<Option<Seq<char>>> = Set::empty();
        let mut any = false;
        proof {
            crate::supervisor::lemma_banners_none_opt(m0, outcome_cleared());
            assert(expired.intersect(done) =~= Set::<Option<Seq<char>>>::empty());
        }
        let mut i: usize = 0;
        while i < entries.len()
            invariant
                i <= entries@.len(),
                self.wf(),
                expired == expired_outcomes(b0, now),
                forall|a: int, c: int| 0 <= a < entries@.len() && 0 <= c < entries@.len() && a != c
                    ==> (#[trigger] entries@[a]).0@ != (#[trigger] entries@[c]).0@,
                forall|a: int| 0 <= a < entries@.len() ==> b0.update_outcome_expiry@.contains_key((#[trigger] entries@[a]).0@)
                    && b0.update_outcome_expiry@[entries@[a].0@] == entries@[a].1,
                forall|id: Option<Seq<char>>| #[trigger] b0.update_outcome_expiry@.contains_key(id)
                    ==> exists|a: int| 0 <= a < entries@.len() && (#[trigger] entries@[a]).0@ == id,
                forall|a: int| 0 <= a < i ==> done.contains((#[trigger] entries@[a]).0@),
                forall|id: Option<Seq<char>>| #[trigger] done.contains(id) ==> exists|a: int| 0 <= a < i && (#[trigger] entries@[a]).0@ == id,
                self.update_outcome_expiry@ == b0.update_outcome_expiry@.remove_keys(expired.intersect(done)),
                *self == (ClientConnections { update_outcome_expiry: self.update_outcome_expiry, ..b0 }),
                model_banners_updated(m0, *model, expired.intersect(done), outcome_cleared()),
                any == (expired.intersect(done) != Set::<Option<Seq<char>>>::empty()),
            decreases entries@.len() - i,
        {
            let id = &entries[i].0;
            let deadline = entries[i].1;
            let ghost k = id@;
            let ghost m_prev = *model;
            proof {
                assert(!done.contains(k)) by {
                    if done.contains(k) {
                        let a = choose|a: int| 0 <= a < i && (#[trigger] entries@[a]).0@ == k;
                        assert(entries@[a].0@ != entries@[i as int].0@);
                    }
                }
            }
            if now >= deadline {
                self.update_outcome_expiry.remove(id);
                match model {
                    Some(m) => m.clear_update_outcome(id),
                    None => {},
                }
                any = true;
            }
            proof {
                let d2 = done.insert(k);
                if now >= deadline {
                    assert(expired.contains(k));
                    assert(expired.intersect(d2) =~= expired.intersect(done).insert(k));
                    assert(expired.intersect(d2).contains(k));
                    match m0 {
                        Some(x) => {
                            lemma_banners_compose(x, m_prev.unwrap(), model.unwrap(), expired.intersect(done), k, outcome_cleared());
                        },
                        None => {},
                    }
                } else {
                    assert(expired.intersect(d2) =~= expired.intersect(done));
                }
                assert(self.update_outcome_expiry@ =~= b0.update_outcome_expiry@.remove_keys(expired.intersect(d2)));
                done = d2;
            }
            i = i + 1;
        }
        proof {
            assert(expired.intersect(done) =~= expired);
            assert(expired_outcomes(*self, now) =~= Set::<Option<Seq<char>>>::empty());
        }
        any
    }

    /// Apply a finished host update. Success posts "✓ update complete" for the display time,
    /// lifts the automatic-update suppression, tears the stale stream down, lifts a manual
    /// disconnect and schedules a first reconnect. Failure posts "✗ update failed: …" for the
    /// longer failure display time and suppresses automatic updates of that host.
    pub fn apply_update_remote_finished(
        &mut self,
        model: &mut Option<ClientSupervisorModel>,
        server_id: &ServerId,
        result: Result<(), String>,
        now: u64,
    )
        requires
            old(self).wf(),
            now + HOST_UPDATE_FAILURE_TTL <= u64::MAX,
        ensures
            final(self).wf(),
            update_finished_done(*old(self), *final(self), *old(model), *final(model), *server_id, result, now),

    {
        match result {
            Ok(()) => {
                let outcome = HostUpdateOutcome {
                    message: String::from_str("\u{2713} update complete"),
                    success: true,
                };
                let ghost o = outcome;
                match model {
                    Some(m) => m.update_banner(server_id, &BannerChange {
                        connection: Some(ConnectionState::Connecting),
                        progress: Some(None),
                        outcome: Some(Some(outcome)),
                    }),
                    None => {},
                }
                self.update_outcome_expiry.insert(server_id.duplicate(), now + HOST_UPDATE_OUTCOME_TTL);
                self.auto_update_suppressed.remove(server_id);
                self.teardown_secondary_connection(server_id);
                self.manually_disconnected.remove(server_id);
                self.schedule_secondary_retry(server_id.duplicate(), 0, now);
                proof {
                    assert(o.message@ == "\u{2713} update complete"@ && o.success);
                    assert(self.secondary_retries@ =~= old(self).secondary_retries@.insert(server_id@,
                        SecondaryRetryState { attempt: 0, next_retry_at: retry_at(now, 0) }));
                }
            },
            Err(message) => {
                let text = append_str(String::from_str("\u{2717} update failed: "), message.as_str());
                let outcome = HostUpdateOutcome { message: text, success: false };
                let ghost o = outcome;
                match model {
                    Some(m) => m.update_banner(server_id, &BannerChange {
                        connection: None,
                        progress: Some(None),
                        outcome: Some(Some(outcome)),
                    }),
                    None => {},
                }
                self.update_outcome_expiry.insert(server_id.duplicate(), now + HOST_UPDATE_FAILURE_TTL);
                self.auto_update_suppressed.insert(server_id.duplicate());
                proof {
                    assert(o.message@ == "\u{2717} update failed: "@ + message@ && !o.success);
                }
            },
        }
    }

    /// Apply a finished registry change for `remote_id`. A refused change posts
    /// "✗ <action> failed: <error>" on the host's banner for the display time (a refused session
    /// switch also shows the reason in its form). A change that landed: re-enabling marks the host
    /// connecting; disabling tears it down and marks it disconnected; an auto-update toggle lifts
    /// the suppression and asks for the sweep; a session switch closes the form, tears the bridge
    /// down, lifts the manual and terminal stops and schedules a first reconnect with a clean
    /// banner; a delete tears down and forgets the host. Each stops the management overlay
    /// waiting on the remote, and each landed change with a model asks for a summary refresh.
    pub fn apply_remote_manage_request_finished(
        &mut self,
        model: &mut Option<ClientSupervisorModel>,
        action: RemoteManageAction,
        remote_id: &str,
        result: Result<(), String>,
        now: u64,
    ) -> (r: ManageFollowUp)
        requires
            old(self).wf(),
            now + HOST_UPDATE_OUTCOME_TTL <= u64::MAX,
        ensures
            final(self).wf(),
            manage_finished_done(*old(self), *final(self), *old(model), *final(model), action, remote_id@, result, now, r),

    {
        let server_id = ServerId::secondary(remote_id);
        match result {
            Err(err) => {
                match model {
                    Some(m) => {
                        m.clear_remote_manage_pending(remote_id);
                        let text = append_str(String::from_str("\u{2717} "), remote_manage_action_label(&action));
                        let text = append_str(text, " failed: ");
                        let text = append_str(text, err.as_str());
                        let outcome = HostUpdateOutcome { message: text, success: false };
                        let ghost o = outcome;
                        m.update_banner(&server_id, &BannerChange {
                            connection: None,
                            progress: Some(None),
                            outcome: Some(Some(outcome)),
                        });
                        if let RemoteManageAction::SetSession { .. } = action {
                            m.fail_new_session(remote_id, err.clone());
                        }
                        proof {
                            assert(o.message@ == "\u{2717} "@ + manage_action_label(action) + " failed: "@ + err@);
                        }
                    },
                    None => {},
                }
                self.update_outcome_expiry.insert(server_id, now + HOST_UPDATE_OUTCOME_TTL);
                ManageFollowUp { refresh_summaries: false, auto_update_sweep: false }
            },
            Ok(()) => {
                let has_model = model.is_some();
                match action {
                    RemoteManageAction::SetEnabled { enabled } => {
                        if !enabled {
                            self.teardown_secondary_connection(&server_id);
                        }
                        match model {
                            Some(m) => {
                                let state = if enabled { ConnectionState::Connecting } else { ConnectionState::Disconnected };
                                m.update_banner(&server_id, &BannerChange { connection: Some(state), progress: None, outcome: None });
                                m.clear_remote_manage_pending(remote_id);
                            },
                            None => {},
                        }
                        ManageFollowUp { refresh_summaries: has_model, auto_update_sweep: false }
                    },
                    RemoteManageAction::SetAutoUpdate { .. } => {
                        self.auto_update_suppressed.remove(&server_id);
                        match model {
                            Some(m) => m.clear_remote_manage_pending(remote_id),
                            None => {},
                        }
                        ManageFollowUp { refresh_summaries: has_model, auto_update_sweep: true }
                    },
                    RemoteManageAction::SetSession { .. } => {
                        match model {
                            Some(m) => m.finish_new_session(remote_id),
                            None => {},
                        }
                        self.teardown_secondary_connection(&server_id);
                        self.manually_disconnected.remove(&server_id);
                        self.provision_failed.remove(&server_id);
                        match model {
                            Some(m) => {
                                m.update_banner(&server_id, &BannerChange {
                                    connection: Some(ConnectionState::Connecting),
                                    progress: Some(None),
                                    outcome: Some(None),
                                });
                                m.clear_remote_manage_pending(remote_id);
                            },
                            None => {},
                        }
                        self.update_outcome_expiry.remove(&server_id);
                        self.schedule_secondary_retry(server_id, 0, now);
                        proof {
                            assert(self.secondary_retries@ =~= old(self).secondary_retries@.insert(Some(remote_id@),
                                SecondaryRetryState { attempt: 0, next_retry_at: retry_at(now, 0) }));
                        }
                        ManageFollowUp { refresh_summaries: has_model, auto_update_sweep: false }
                    },
                    RemoteManageAction::Delete => {
                        self.teardown_secondary_connection(&server_id);
                        match model {
                            Some(m) => {
                                m.remove_secondary(&server_id);
                                m.clear_remote_manage_pending(remote_id);
                            },
                            None => {},
                        }
                        ManageFollowUp { refresh_summaries: has_model, auto_update_sweep: false }
                    },
                }
            },
        }
    }

    /// Apply the end of reconnect attempt `attempt` of `server_id`; true when the client has a
    /// model and the loop should refresh the freshly connected server and the fleet.
    ///
    /// An attached stream clears the retry, the terminal stop, the restart approval and the
    /// outcome timer, marks the host connected with clean banner lines and records the start of
    /// its summary refresh. A stream that could not be attached is retried at the next attempt.
    /// A failed attempt drops its bridge; a rejected handshake (protocol mismatch) stops
    /// retrying; otherwise the failure is classified: a transient one is retried at the next
    /// attempt with a "retrying" line, a terminal one stops the sweep, pins the reason on the
    /// banner with what an explicit retry does, and records a restart approval when one is asked.
    pub fn apply_secondary_attempt_finished(
        &mut self,
        model: &mut Option<ClientSupervisorModel>,
        server_id: &ServerId,
        attempt: usize,
        outcome: SecondaryAttemptOutcome,
        ctx: &ErrorContext,
        now: u64,
    ) -> (r: bool)
        requires
            old(self).wf(),
            now + LONGEST_RETRY_DELAY <= u64::MAX,
        ensures
            final(self).wf(),
            attempt_finished_done(*old(self), *final(self), *old(model), *final(model), *server_id, attempt, outcome, *ctx, now, r),

    {
        self.pending_connect.remove(server_id);
        self.full_redraw_requested = true;
        let next: usize = if attempt == usize::MAX { attempt } else { attempt + 1 };
        match outcome {
            SecondaryAttemptOutcome::Attached { bridge } => {
                if bridge {
                    self.ssh_bridges.insert(server_id.duplicate());
                }
                self.server_writes.insert(server_id.duplicate());
                self.secondary_retries.remove(server_id);
                self.provision_failed.remove(server_id);
                self.retry_restart_incompatible.remove(server_id);
                self.update_outcome_expiry.remove(server_id);
                match model {
                    Some(m) => {
                        m.update_banner(server_id, &BannerChange {
                            connection: Some(ConnectionState::Connected),
                            progress: Some(None),
                            outcome: Some(None),
                        });
                        self.last_summary_refresh.insert(server_id.duplicate(), now);
                        true
                    },
                    None => false,
                }
            },
            SecondaryAttemptOutcome::AttachFailed { bridge, error } => {
                if bridge {
                    self.ssh_bridges.insert(server_id.duplicate());
                }
                self.schedule_secondary_retry(server_id.duplicate(), next, now);
                let state = connection_state_from_client_error(&error);
                match model {
                    Some(m) => m.set_connection_state(server_id, state),
                    None => {},
                }
                false
            },
            SecondaryAttemptOutcome::Failed(error) => {
                let state = connection_state_from_client_error(&error);
                if let ClientError::HandshakeRejected { .. } = error {
                    self.secondary_retries.remove(server_id);
                    self.ssh_bridges.remove(server_id);
                    match model {
                        Some(m) => m.set_connection_state(server_id, state),
                        None => {},
                    }
                } else {
                    let mapped = map_remote_bridge_error(error.message(ctx).as_str());
                    match classify_provision_failure(&error, ctx) {
                        ProvisionFailureDisposition::Retry => {
                            let delay = crate::schedule::secondary_retry_delay(next);
                            self.schedule_secondary_retry(server_id.duplicate(), next, now);
                            let text = append_str(String::from_str("\u{2717} "), mapped.as_str());
                            let text = append_str(text, " \u{2014} retrying in ");
                            let secs = decimal_string(delay / 1_000_000);
                            let text = append_str(text, secs.as_str());
                            let text = append_str(text, "s");
                            let ghost p = text;
                            self.ssh_bridges.remove(server_id);
                            match model {
                                Some(m) => m.update_banner(server_id, &BannerChange {
                                    connection: Some(state),
                                    progress: Some(Some(text)),
                                    outcome: None,
                                }),
                                None => {},
                            }
                            proof {
                                assert(p@ == retrying_text(error, *ctx, next));
                            }
                        },
                        disposition => {
                            self.secondary_retries.remove(server_id);
                            self.provision_failed.insert(server_id.duplicate());
                            let confirm = match disposition {
                                ProvisionFailureDisposition::StopNeedsRestartConfirm => true,
                                _ => false,
                            };
                            let hint = if confirm {
                                self.retry_restart_incompatible.insert(server_id.duplicate());
                                "retry restarts the remote server (live panes interrupted)"
                            } else {
                                "fix the cause, then retry from the host menu or its status glyph"
                            };
                            let text = append_str(String::from_str("\u{2717} "), mapped.as_str());
                            let text = append_str(text, "\n  ");
                            let text = append_str(text, hint);
                            let o = HostUpdateOutcome { message: text, success: false };
                            let ghost og = o;
                            self.update_outcome_expiry.remove(server_id);
                            self.ssh_bridges.remove(server_id);
                            match model {
                                Some(m) => m.update_banner(server_id, &BannerChange {
                                    connection: Some(state),
                                    progress: Some(None),
                                    outcome: Some(Some(o)),
                                }),
                                None => {},
                            }
                            proof {
                                assert(og.message@ == stopped_text(error, *ctx, confirm));
                            }
                        },
                    }
                }
                false
            },
        }
    }

    /// The connected, enabled secondaries whose summary refresh is due at `now`, in registry
    /// order; the main server is never among them (its refresh is the loop's own).
    pub fn due_secondary_summary_refreshes(&self, model: &Option<ClientSupervisorModel>, now: u64) -> (r: Vec<ServerId>)
        requires
            self.wf(),
        ensures
            r@ == match *model {
                Some(m) => due_refresh_ids(self.last_summary_refresh@, m.active_server_id@, m.secondaries@, now),
                None => Seq::<ServerId>::empty(),
            },
    {
        let m = match model {
            Some(m) => m,
            None => return Vec::new(),
        };
        let mut r: Vec<ServerId> = Vec::new();
        let mut i: usize = 0;
        while i < m.secondaries.len()
            invariant
                i <= m.secondaries@.len(),
                self.wf(),
                r@ == due_refresh_ids(self.last_summary_refresh@, m.active_server_id@, m.secondaries@.take(i as int), now),
            decreases m.secondaries@.len() - i,
        {
            proof {
                assert(m.secondaries@.take(i + 1).drop_last() == m.secondaries@.take(i as int));
                assert(m.secondaries@.take(i + 1).last() == m.secondaries@[i as int]);
            }
            let s = &m.secondaries[i];
            let connected = match s.connection_state {
                ConnectionState::Connected => true,
                _ => false,
            };
            if !s.disabled && connected && !s.server_id.is_main() {
                let interval = if s.server_id.same_as(&m.active_server_id) {
                    CLIENT_FOCUSED_SUMMARY_REFRESH_INTERVAL
                } else {
                    CLIENT_SUPERVISOR_REFRESH_INTERVAL
                };
                let due = match self.last_summary_refresh.get(&s.server_id) {
                    Some(last) => now >= last && now - last >= interval,
                    None => true,
                };
                if due {
                    r.push(s.server_id.duplicate());
                }
            }
            i = i + 1;
        }
        proof {
            assert(m.secondaries@.take(m.secondaries@.len() as int) == m.secondaries@);
        }
        r
    }

    /// Claim the single-server summary refresh of `server_id`: true (and the refresh marked in
    /// flight) for a secondary with no refresh in flight whose API the client can reach now.
    pub fn begin_single_summary_refresh(&mut self, server_id: &ServerId, api_target_available: bool) -> (r: bool)
        requires
            old(self).wf(),
        ensures
            final(self).wf(),
            r == (server_id@ is Some && !old(self).pending_summary_refresh@.contains(server_id@) && api_target_available),
            final(self).pending_summary_refresh@ == if r {
                old(self).pending_summary_refresh@.insert(server_id@)
            } else {
                old(self).pending_summary_refresh@
            },
            *final(self) == (ClientConnections { pending_summary_refresh: final(self).pending_summary_refresh, ..*old(self) }),
    {
        if server_id.is_main() {
            return false;
        }
        if self.pending_summary_refresh.contains(server_id) {
            return false;
        }
        if !api_target_available {
            return false;
        }
        self.pending_summary_refresh.insert(server_id.duplicate());
        true
    }

    /// The automatic-update candidates the sweep may update now, in order.
    pub fn auto_update_targets(&self, candidates: &Vec<ServerId>) -> (r: Vec<ServerId>)
        requires
            self.wf(),
        ensures
            r@ == auto_update_allowed(*self, candidates@),
    {
        let mut r: Vec<ServerId> = Vec::new();
        let mut i: usize = 0;
        while i < candidates.len()
            invariant
                i <= candidates@.len(),
                self.wf(),
                r@ == auto_update_allowed(*self, candidates@.take(i as int)),
            decreases candidates@.len() - i,
        {
            proof {
                assert(candidates@.take(i + 1).drop_last() == candidates@.take(i as int));
                assert(candidates@.take(i + 1).last() == candidates@[i as int]);
            }
            let id = &candidates[i];
            if !(self.pending_update_remote.contains(id) || self.update_outcome_expiry.contains_key(id)
                || self.auto_update_suppressed.contains(id)) {
                r.push(id.duplicate());
            }
            i = i + 1;
        }
        proof {
            assert(candidates@.take(candidates@.len() as int) == candidates@);
        }
        r
    }

    /// Start an update of `server_id`. Only an ssh remote can be updated: otherwise its banner
    /// says so and nothing starts. For an ssh remote the banner shows "starting update…" with no
    /// outcome line, the outcome timer is dropped, and the update is marked in flight; true when
    /// the loop should spawn it (false when one was already in flight).
    pub fn begin_remote_update(&mut self, model: &mut Option<ClientSupervisorModel>, server_id: &ServerId, has_ssh_target: bool) -> (r: bool)
        requires
            old(self).wf(),
        ensures
            final(self).wf(),
            update_begun(*old(self), *final(self), *old(model), *final(model), *server_id, has_ssh_target, r),
    {
        if has_ssh_target {
            let p = String::from_str("starting update\u{2026}");
            let ghost pg = p;
            match model {
                Some(m) => m.update_banner(server_id, &BannerChange {
                    connection: None,
                    progress: Some(Some(p)),
                    outcome: Some(None),
                }),
                None => {},
            }
            self.update_outcome_expiry.remove(server_id);
            let r = self.pending_update_remote.insert(server_id.duplicate());
            proof {
                assert(pg@ == "starting update\u{2026}"@);
            }
            r
        } else {
            let p = String::from_str("update is only available for ssh remotes");
            let ghost pg = p;
            match model {
                Some(m) => m.update_banner(server_id, &BannerChange {
                    connection: None,
                    progress: Some(Some(p)),
                    outcome: None,
                }),
                None => {},
            }
            proof {
                assert(pg@ == "update is only available for ssh remotes"@);
            }
            false
        }
    }

    /// Start the summary subscriptions the servers of `targets` (those whose API the client can
    /// reach) are missing: each becomes subscribed, and those not subscribed before are returned,
    /// in order, for the loop to start.
    pub fn start_missing_summary_subscriptions(&mut self, targets: &Vec<ServerId>) -> (r: Vec<ServerId>)
        requires
            old(self).wf(),
        ensures
            final(self).wf(),
            final(self).summary_subscriptions@ == old(self).summary_subscriptions@.union(id_set(targets@)),
            r@ == new_subscriptions(old(self).summary_subscriptions@, targets@),
            *final(self) == (ClientConnections { summary_subscriptions: final(self).summary_subscriptions, ..*old(self) }),
    {
        let ghost s0 = self.summary_subscriptions@;
        let mut started: Vec<ServerId> = Vec::new();
        let mut i: usize = 0;
        while i < targets.len()
            invariant
                i <= targets@.len(),
                self.wf(),
                *self == (ClientConnections { summary_subscriptions: self.summary_subscriptions, ..*old(self) }),
                s0 == old(self).summary_subscriptions@,
                self.summary_subscriptions@ == s0.union(id_set(targets@.take(i as int))),
                started@ == new_subscriptions(s0, targets@.take(i as int)),
            decreases targets@.len() - i,
        {
            let ghost t = targets@.take(i + 1);
            proof {
                assert(t.drop_last() == targets@.take(i as int));
                assert(t.last() == targets@[i as int]);
                let k = targets@[i as int]@;
                assert(s0.contains(k) || (exists|j: int| 0 <= j < t.len() - 1 && (#[trigger] t[j])@ == k)
                    <==> self.summary_subscriptions@.contains(k)) by {
                    if self.summary_subscriptions@.contains(k) && !s0.contains(k) {
                        let j = choose|j: int| 0 <= j < targets@.take(i as int).len() && (#[trigger] targets@.take(i as int)[j])@ == k;
                        assert(t[j] == targets@.take(i as int)[j]);
                    }
                    if exists|j: int| 0 <= j < t.len() - 1 && (#[trigger] t[j])@ == k {
                        let j = choose|j: int| 0 <= j < t.len() - 1 && (#[trigger] t[j])@ == k;
                        assert(targets@.take(i as int)[j] == t[j]);
                    }
                }
            }
            let id = &targets[i];
            if self.summary_subscriptions.insert(id.duplicate()) {
                started.push(id.duplicate());
            }
            proof {
                assert forall|k: Option<Seq<char>>| #[trigger] id_set(t).contains(k) <==> (id_set(targets@.take(i as int)).contains(k) || k == targets@[i as int]@) by {
                    if id_set(t).contains(k) {
                        let j = choose|j: int| 0 <= j < t.len() && (#[trigger] t[j])@ == k;
                        if j < i {
                            assert(targets@.take(i as int)[j] == t[j]);
                        }
                    }
                    if id_set(targets@.take(i as int)).contains(k) {
                        let j = choose|j: int| 0 <= j < targets@.take(i as int).len() && (#[trigger] targets@.take(i as int)[j])@ == k;
                        assert(t[j] == targets@.take(i as int)[j]);
                    }
                    if k == targets@[i as int]@ {
                        assert(t[i as int] == targets@[i as int]);
                    }
                }
                assert(self.summary_subscriptions@ =~= s0.union(id_set(t)));
            }
            i = i + 1;
        }
        proof {
            assert(targets@.take(targets@.len() as int) == targets@);
        }
        started
    }

    /// Claim the main-server supervisor refresh: true (and marked in flight) unless one already
    /// is, so a storm of triggers runs one refresh at a time.
    pub fn begin_main_supervisor_refresh(&mut self) -> (r: bool)
        ensures
            r == !old(self).pending_main_refresh,
            *final(self) == (ClientConnections { pending_main_refresh: true, ..*old(self) }),
    {
        if self.pending_main_refresh {
            return false;
        }
        self.pending_main_refresh = true;
        true
    }

    /// A stage of a host update in flight: the banner shows `message` as its progress line with
    /// no outcome line (a fresh stage means a new run), and the outcome timer is dropped.
    pub fn post_update_progress(&mut self, model: &mut Option<ClientSupervisorModel>, server_id: &ServerId, message: String)
        requires
            old(self).wf(),
        ensures
            final(self).wf(),
            final(self).update_outcome_expiry@ == old(self).update_outcome_expiry@.remove(server_id@),
            *final(self) == (ClientConnections { update_outcome_expiry: final(self).update_outcome_expiry, ..*old(self) }),
            progress_posted(*old(model), *final(model), server_id@, message@, true),
    {
        match model {
            Some(m) => m.update_banner(server_id, &BannerChange {
                connection: None,
                progress: Some(Some(message)),
                outcome: Some(None),
            }),
            None => {},
        }
        self.update_outcome_expiry.remove(server_id);
    }

    /// A summary subscription worker of `server_id` ended: it may be started again.
    pub fn summary_subscription_ended(&mut self, server_id: &ServerId)
        requires
            old(self).wf(),
        ensures
            final(self).wf(),
            final(self).summary_subscriptions@ == old(self).summary_subscriptions@.remove(server_id@),
            *final(self) == (ClientConnections { summary_subscriptions: final(self).summary_subscriptions, ..*old(self) }),
    {
        self.summary_subscriptions.remove(server_id);
    }

    /// Claim the add-remote submission: true (and marked in flight) unless one already is.
    pub fn begin_add_remote_submission(&mut self) -> (r: bool)
        ensures
            r == !old(self).pending_add_remote,
            *final(self) == (ClientConnections { pending_add_remote: true, ..*old(self) }),
    {
        if self.pending_add_remote {
            return false;
        }
        self.pending_add_remote = true;
        true
    }

    /// The user disconnects a secondary by hand: its connection is torn down, it is parked so no
    /// sweep reconnects it, it shows as disconnected, and a full repaint is requested.
    pub fn disconnect_remote(&mut self, model: &mut Option<ClientSupervisorModel>, server_id: &ServerId)
        requires
            old(self).wf(),
        ensures
            final(self).wf(),
            disconnected_by_hand(*old(self), *final(self), *old(model), *final(model), *server_id),

    {
        self.teardown_secondary_connection(server_id);
        self.manually_disconnected.insert(server_id.duplicate());
        match model {
            Some(m) => m.set_connection_state(server_id, ConnectionState::Disconnected),
            None => {},
        }
        self.full_redraw_requested = true;
    }

    /// The user reconnects a secondary (also the explicit retry after a terminal provisioning
    /// failure): the manual and terminal stops are lifted, the banner shows a fresh attempt, the
    /// outcome timer is dropped and a first attempt is scheduled; a full repaint is requested.
    pub fn reconnect_remote(&mut self, model: &mut Option<ClientSupervisorModel>, server_id: &ServerId, now: u64)
        requires
            old(self).wf(),
            now + retry_delay(0) <= u64::MAX,
        ensures
            final(self).wf(),
            reconnected_by_hand(*old(self), *final(self), *old(model), *final(model), *server_id, now),

    {
        self.manually_disconnected.remove(server_id);
        self.provision_failed.remove(server_id);
        match model {
            Some(m) => m.update_banner(server_id, &BannerChange {
                connection: Some(ConnectionState::Connecting),
                progress: Some(None),
                outcome: Some(None),
            }),
            None => {},
        }
        self.update_outcome_expiry.remove(server_id);
        self.schedule_secondary_retry(server_id.duplicate(), 0, now);
        self.full_redraw_requested = true;
    }

    /// A server's stream ended. The main server's end ends the client; a secondary is marked
    /// disconnected as on a write failure (its last frame stays cached) and a first reconnect
    /// attempt is scheduled.
    pub fn server_disconnected(&mut self, model: &mut Option<ClientSupervisorModel>, server_id: ServerId, now: u64) -> (r: Result<(), ClientError>)
        requires
            old(self).wf(),
            now + retry_delay(0) <= u64::MAX,
        ensures
            final(self).wf(),
            stream_end_handled(*old(self), *final(self), *old(model), *final(model), server_id, now, r),

    {
        if server_id.is_main() {
            return Err(ClientError::ConnectionLost(IoFailure::new(IoErrorKind::UnexpectedEof, "server closed connection")));
        }
        self.server_writes.remove(&server_id);
        self.summary_subscriptions.remove(&server_id);
        self.pending_summary_refresh.remove(&server_id);
        self.pending_connect.remove(&server_id);
        self.ssh_bridges.remove(&server_id);
        self.pending_pings.remove(&server_id);
        match model {
            Some(m) => {
                m.set_connection_state(&server_id, ConnectionState::Disconnected);
                self.full_redraw_requested = true;
            },
            None => {},
        }
        self.schedule_secondary_retry(server_id, 0, now);
        Ok(())
    }

    /// A host update finished: it is no longer in flight, and the result is applied as
    /// `apply_update_remote_finished` says; true when it succeeded (the loop then re-reads the
    /// host's version).
    pub fn update_remote_finished(
        &mut self,
        model: &mut Option<ClientSupervisorModel>,
        server_id: &ServerId,
        result: Result<(), String>,
        now: u64,
    ) -> (r: bool)
        requires
            old(self).wf(),
            now + HOST_UPDATE_FAILURE_TTL <= u64::MAX,
        ensures
            final(self).wf(),
            r == result is Ok,
            final(self).pending_update_remote@ == old(self).pending_update_remote@.remove(server_id@),
            final(self).full_redraw_requested,
            exists|mid: ClientConnections|
                update_finished_done(*old(self), mid, *old(model), *final(model), *server_id, result, now)
                && *final(self) == (ClientConnections {
                    pending_update_remote: final(self).pending_update_remote,
                    full_redraw_requested: true,
                    ..mid
                }),
    {
        let succeeded = result.is_ok();
        let ghost gresult = result;
        self.apply_update_remote_finished(model, server_id, result, now);
        let ghost mid = *self;
        self.pending_update_remote.remove(server_id);
        self.full_redraw_requested = true;
        proof {
            assert(update_finished_done(*old(self), mid, *old(model), *model, *server_id, gresult, now));
        }
        succeeded
    }

    /// Start the summary refreshes of the due secondaries (each reachable one without a refresh
    /// in flight) and record each due refresh as started at `now`.
    pub fn start_due_refreshes(&mut self, due: &Vec<ServerId>, reachable: &IdSet, now: u64) -> (r: Vec<ServerId>)
        requires
            old(self).wf(),
        ensures
            final(self).wf(),
            r@ == started_refreshes(old(self).pending_summary_refresh@, reachable@, due@),
            final(self).pending_summary_refresh@ == old(self).pending_summary_refresh@.union(id_set(r@)),
            final(self).last_summary_refresh@ == Map::new(
                |k: Option<Seq<char>>| old(self).last_summary_refresh@.contains_key(k) || id_set(due@).contains(k),
                |k: Option<Seq<char>>| if id_set(due@).contains(k) { now } else { old(self).last_summary_refresh@[k] },
            ),
            *final(self) == (ClientConnections {
                pending_summary_refresh: final(self).pending_summary_refresh,
                last_summary_refresh: final(self).last_summary_refresh,
                ..*old(self)
            }),
    {
        let ghost p0 = self.pending_summary_refresh@;
        let ghost l0 = self.last_summary_refresh@;
        let mut started: Vec<ServerId> = Vec::new();
        let mut i: usize = 0;
        proof {
            assert(self.last_summary_refresh@ =~= Map::new(
                |k: Option<Seq<char>>| l0.contains_key(k) || id_set(due@.take(0)).contains(k),
                |k: Option<Seq<char>>| if id_set(due@.take(0)).contains(k) { now } else { l0[k] },
            ));
            assert(self.pending_summary_refresh@ =~= p0.union(id_set(started@)));
        }
        while i < due.len()
            invariant
                i <= due@.len(),
                self.wf(),
                p0 == old(self).pending_summary_refresh@,
                l0 == old(self).last_summary_refresh@,
                *self == (ClientConnections {
                    pending_summary_refresh: self.pending_summary_refresh,
                    last_summary_refresh: self.last_summary_refresh,
                    ..*old(self)
                }),
                started@ == started_refreshes(p0, reachable@, due@.take(i as int)),
                self.pending_summary_refresh@ == p0.union(id_set(started@)),
                forall|a: int| 0 <= a < started@.len() ==> id_set(due@.take(i as int)).contains((#[trigger] started@[a])@),
                self.last_summary_refresh@ == Map::new(
                    |k: Option<Seq<char>>| l0.contains_key(k) || id_set(due@.take(i as int)).contains(k),
                    |k: Option<Seq<char>>| if id_set(due@.take(i as int)).contains(k) { now } else { l0[k] },
                ),
            decreases due@.len() - i,
        {
            let id = &due[i];
            let ghost k = id@;
            let ghost t = due@.take(i + 1);
            let ghost prev = due@.take(i as int);
            proof {
                assert(t.drop_last() == prev);
                assert(t.last() == due@[i as int]);
                assert forall|kk: Option<Seq<char>>| #[trigger] id_set(t).contains(kk) <==> (id_set(prev).contains(kk) || kk == k) by {
                    if id_set(t).contains(kk) {
                        let j = choose|j: int| 0 <= j < t.len() && (#[trigger] t[j])@ == kk;
                        if j < i {
                            assert(prev[j] == t[j]);
                        }
                    }
                    if id_set(prev).contains(kk) {
                        let j = choose|j: int| 0 <= j < prev.len() && (#[trigger] prev[j])@ == kk;
                        assert(t[j] == prev[j]);
                    }
                    if kk == k {
                        assert(t[i as int] == due@[i as int]);
                    }
                }
                assert((exists|j: int| 0 <= j < t.len() - 1 && (#[trigger] t[j])@ == k) == id_set(prev).contains(k)) by {
                    if exists|j: int| 0 <= j < t.len() - 1 && (#[trigger] t[j])@ == k {
                        let j = choose|j: int| 0 <= j < t.len() - 1 && (#[trigger] t[j])@ == k;
                        assert(prev[j] == t[j]);
                    }
                    if id_set(prev).contains(k) {
                        let j = choose|j: int| 0 <= j < prev.len() && (#[trigger] prev[j])@ == k;
                        assert(t[j] == prev[j]);
                    }
                }
                // An id seen before this one is in flight already or was never reachable.
                if id_set(prev).contains(k) && k is Some && reachable@.contains(k) {
                    assert(self.pending_summary_refresh@.contains(k)) by {
                        lemma_started_covers(p0, reachable@, prev, k);
                        if !p0.contains(k) {
                            let a = choose|a: int| 0 <= a < started@.len() && (#[trigger] started@[a])@ == k;
                            assert(id_set(started@).contains(k));
                        }
                    }
                }
                if !id_set(prev).contains(k) {
                    assert(!id_set(started@).contains(k)) by {
                        if id_set(started@).contains(k) {
                            let a = choose|a: int| 0 <= a < started@.len() && (#[trigger] started@[a])@ == k;
                            assert(id_set(prev).contains(started@[a]@));
                        }
                    }
                }
            }
            let reach = reachable.contains(id);
            let ghost before = started@;
            if self.begin_single_summary_refresh(id, reach) {
                started.push(id.duplicate());
            }
            self.last_summary_refresh.insert(id.duplicate(), now);
            proof {
                assert forall|kk: Option<Seq<char>>| #[trigger] id_set(started@).contains(kk)
                    <==> (id_set(before).contains(kk) || (started@.len() > before.len() && kk == k)) by {
                    if id_set(started@).contains(kk) {
                        let a = choose|a: int| 0 <= a < started@.len() && (#[trigger] started@[a])@ == kk;
                        if a < before.len() {
                            assert(before[a] == started@[a]);
                        }
                    }
                    if id_set(before).contains(kk) {
                        let a = choose|a: int| 0 <= a < before.len() && (#[trigger] before[a])@ == kk;
                        assert(started@[a] == before[a]);
                    }
                    if started@.len() > before.len() && kk == k {
                        assert(started@[before.len() as int]@ == k);
                    }
                }
                assert(self.pending_summary_refresh@ =~= p0.union(id_set(started@)));
                assert forall|a: int| 0 <= a < started@.len() implies id_set(t).contains((#[trigger] started@[a])@) by {
                    if a < before.len() {
                        assert(started@[a] == before[a]);
                    }
                }
                assert(self.last_summary_refresh@ =~= Map::new(
                    |kk: Option<Seq<char>>| l0.contains_key(kk) || id_set(t).contains(kk),
                    |kk: Option<Seq<char>>| if id_set(t).contains(kk) { now } else { l0[kk] },
                ));
                if started@.len() > before.len() {
                    assert(started@ =~= before.push(due@[i as int]));
                } else {
                    assert(started@ =~= before);
                }
            }
            i = i + 1;
        }
        proof {
            assert(due@.take(due@.len() as int) == due@);
        }
        started
    }

    /// The loop's housekeeping tick at `now`: expire outcome lines (forcing a full repaint when
    /// one leaves), take the deferred render, sweep the due reconnects, start the due secondary
    /// summary refreshes (reachable ones per `reachable`), and every supervisor refresh interval
    /// (since `last_supervisor_refresh`) start the main refresh (when the client has a model),
    /// give streamless secondaries a first reconnect, and start the missing summary
    /// subscriptions of `subscription_targets`; then re-render when anything was refreshed.
    pub fn timer_housekeeping(
        &mut self,
        model: &mut Option<ClientSupervisorModel>,
        cadence: &mut RenderCadence,
        last_supervisor_refresh: &mut u64,
        reachable: &IdSet,
        subscription_targets: &Vec<ServerId>,
        now: u64,
    ) -> (r: TimerActions)
        requires
            old(self).wf(),
        ensures
            final(self).wf(),
            housekeeping_done(*old(self), *final(self), *old(model), *final(model), *old(cadence), *final(cadence), *old(last_supervisor_refresh), *final(last_supervisor_refresh), *reachable, subscription_targets@, now, r),

    {
        let ghost b0 = *self;
        let ghost m0 = *model;
        let expired_any = self.expire_host_update_outcomes(model, now);
        let ghost b1 = *self;
        let ghost m1 = *model;
        let render = cadence.take_timer_render(expired_any);
        proof {
            assert(swept(b1, m1, now, RetryDecision::Launch) =~= swept(b0, m0, now, RetryDecision::Launch)) by {
                assert forall|id: Option<Seq<char>>| retry_decision(b1, m1, id) == retry_decision(b0, m0, id) by {
                    match m0 {
                        Some(x) => lemma_banners_keep_plans(x, m1.unwrap(), expired_outcomes(b0, now), outcome_cleared(), id),
                        None => {},
                    }
                }
            }
            assert(swept(b1, m1, now, RetryDecision::Drop) =~= swept(b0, m0, now, RetryDecision::Drop)) by {
                assert forall|id: Option<Seq<char>>| retry_decision(b1, m1, id) == retry_decision(b0, m0, id) by {
                    match m0 {
                        Some(x) => lemma_banners_keep_plans(x, m1.unwrap(), expired_outcomes(b0, now), outcome_cleared(), id),
                        None => {},
                    }
                }
            }
        }
        let launches = self.retry_due_secondary_connections(model, now);
        let ghost b2 = *self;
        let due = self.due_secondary_summary_refreshes(model, now);
        let refreshes = self.start_due_refreshes(&due, reachable, now);
        let gate = supervisor_summary_refresh_due(now, *last_supervisor_refresh);
        let mut main_refresh = false;
        let mut subscriptions: Vec<ServerId> = Vec::new();
        if gate {
            if model.is_some() {
                main_refresh = self.begin_main_supervisor_refresh();
                *last_supervisor_refresh = now;
            }
            let ghost b3 = *self;
            self.schedule_missing_secondary_stream_retries(model, now);
            proof {
                assert(self.secondary_retries@ =~= retries_with_missing(b2.secondary_retries@, b0, *model, now)) by {
                    assert forall|id: Option<Seq<char>>| stream_retry_eligible(b3, *model, id) == stream_retry_eligible(b0, *model, id) by {}
                }
            }
            if model.is_some() {
                subscriptions = self.start_missing_summary_subscriptions(subscription_targets);
            }
        }
        let render_after_refresh = due.len() > 0 || gate;
        proof {
            assert(model_banners_updated(m0, m1, expired_outcomes(b0, now), outcome_cleared()));
        }
        TimerActions { render, launches, refreshes, main_refresh, subscriptions, render_after_refresh }
    }

    /// Route a frame from `server_id`. With a client-composed screen every server's latest frame
    /// is cached, and only the active server's is composed and written; without one the frame is
    /// written as it is.
    pub fn route_incoming_frame(&mut self, model: &Option<ClientSupervisorModel>, composited: bool, server_id: &ServerId) -> (r: FrameRoute)
        requires
            old(self).wf(),
        ensures
            final(self).wf(),
            frame_routed(*old(self), *final(self), *model, composited, *server_id, r),
    {
        match model {
            Some(m) => {
                if composited {
                    self.frame_cache.insert(server_id.duplicate());
                    if m.active_server_id.same_as(server_id) {
                        FrameRoute::Compose
                    } else {
                        FrameRoute::CacheOnly
                    }
                } else {
                    FrameRoute::Flush
                }
            },
            None => FrameRoute::Flush,
        }
    }

    /// A server announced its shutdown (see `shutdown_handled`).
    pub fn server_shut_down(&mut self, model: &mut Option<ClientSupervisorModel>, server_id: ServerId, reason: Option<String>, now: u64) -> (r: Result<(), ClientError>)
        requires
            old(self).wf(),
            now + retry_delay(0) <= u64::MAX,
        ensures
            final(self).wf(),
            shutdown_handled(*old(self), *final(self), *old(model), *final(model), server_id, reason, now, r),
    {
        if server_id.is_main() {
            return Err(ClientError::ServerShutdown { reason });
        }
        self.server_writes.remove(&server_id);
        self.summary_subscriptions.remove(&server_id);
        self.pending_summary_refresh.remove(&server_id);
        self.pending_connect.remove(&server_id);
        self.ssh_bridges.remove(&server_id);
        match model {
            Some(m) => {
                m.set_connection_state(&server_id, ConnectionState::Disconnected);
                self.full_redraw_requested = true;
            },
            None => {},
        }
        self.schedule_secondary_retry(server_id, 0, now);
        Ok(())
    }
}

} // verus!
