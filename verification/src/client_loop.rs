//! The client event loop's routing: for each event the loop handles (input, a resize, a frame,
//! a server's shutdown or disconnect, a failed write, a clipboard write, a notification, the
//! housekeeping tick, the end of a reconnect attempt, a host update's stage and end, the end of a
//! summary subscription or of a registry change, the quit signal) the state change and the actions the loop performs.

use vstd::prelude::*;
use crate::attach::{AttachActionView, AttachEscapeState, AttachInputAction, attach_action, filter_bytes};
use crate::connections::{
    ClientConnections, FrameRoute, ManageFollowUp, SecondaryAttemptOutcome, TimerActions, attempt_finished_done,
    disconnected_by_hand, frame_routed, housekeeping_done, manage_finished_done, progress_posted, reconnected_by_hand,
    shutdown_handled, stream_end_handled, update_begun, update_finished_done, write_failure_handled,
};
use crate::dispatch::ClientInputDispatch;
use crate::errors::{ClientError, ErrorContext, IoFailure};
use crate::launch::content_width;
use crate::notify::{
    NotifyAction, NotifyKind, base64_standard_decoded, decode_clipboard_payload, notify_action, notify_decision,
};
use crate::protocol::{ClientMessage, RemoteManageAction, ServerId};
use crate::render::RenderCadence;
use crate::schedule::LONGEST_RETRY_DELAY;
use crate::supervisor::{ClientSupervisorModel, active_server_of};
use crate::tracking::IdSet;

verus! {

/// The client loop's own state beside the supervisor model.
#[derive(Debug)]
pub struct ClientLoop {
    /// Per-server connection bookkeeping.
    pub connections: ClientConnections,
    /// The escape-prefix state of a direct attach (`None` for the full client).
    pub attach_escape: Option<AttachEscapeState>,
    /// Rows one wheel notch scrolls in a direct attach.
    pub mouse_scroll_lines: usize,
    /// The host terminal's size.
    pub host_cols: u16,
    pub host_rows: u16,
    /// The size reported to the servers.
    pub reported_cols: u16,
    pub reported_rows: u16,
    /// The host's pixel cell size.
    pub cell_width_px: u32,
    pub cell_height_px: u32,
    /// The client composes the screen itself (sidebar beside the content).
    pub composited: bool,
    /// Sounds are played.
    pub sound_enabled: bool,
    /// The composited render cadence.
    pub cadence: RenderCadence,
    /// When the last supervisor refresh started (microseconds on the loop clock).
    pub last_supervisor_refresh: u64,
    /// What the error messages read from the process environment.
    pub error_context: ErrorContext,
    /// The secondaries the registry reaches over ssh (the ones an update can reinstall).
    pub ssh_remotes: IdSet,
}

/// An event the client loop handles.
#[derive(Debug)]
pub enum ClientLoopEvent {
    /// Bytes read from stdin.
    StdinInput(Vec<u8>),
    /// What composited input dispatch decided for a batch of stdin bytes.
    Dispatched(ClientInputDispatch),
    /// The host terminal's new size and pixel cell size.
    Resize { cols: u16, rows: u16, cell_width_px: u32, cell_height_px: u32 },
    /// A frame arrived from a server.
    ServerFrame(ServerId),
    /// A server announced its shutdown.
    ServerShutdown { server_id: ServerId, reason: Option<String> },
    /// A server's stream ended.
    ServerDisconnected(ServerId),
    /// Writing to a server's stream failed.
    WriteFailed { server_id: ServerId, error: IoFailure },
    /// A server forwarded a clipboard write (standard base64).
    Clipboard(String),
    /// A server forwarded a notification.
    Notify { kind: NotifyKind, message: String, body: Option<String> },
    /// The housekeeping tick: `reachable` are the secondaries whose API can be reached now,
    /// `subscription_targets` those that should hold a summary subscription.
    Timer { reachable: IdSet, subscription_targets: Vec<ServerId> },
    /// Reconnect attempt `attempt` of a secondary ended.
    AttemptFinished { server_id: ServerId, attempt: usize, outcome: SecondaryAttemptOutcome },
    /// A host update in flight reached a new stage.
    UpdateRemoteProgress { server_id: ServerId, message: String },
    /// A summary subscription worker ended.
    SummarySubscriptionEnded(ServerId),
    /// A host update ended.
    UpdateRemoteFinished { server_id: ServerId, result: Result<(), String> },
    /// A registry change of a remote ended.
    RemoteManageFinished { action: RemoteManageAction, remote_id: String, result: Result<(), String> },
    /// The user asked the client to quit (a termination signal).
    Quit,
}

/// An action the loop performs for an event.
#[derive(Debug)]
pub enum ClientLoopAction {
    /// Queue a message to one server.
    Send { server_id: ServerId, message: ClientMessage },
    /// Queue a message to every server with a live stream.
    SendToAll(ClientMessage),
    /// Run composited input dispatch on these bytes (the result comes back as `Dispatched`).
    ComposeInput(Vec<u8>),
    /// Handle the frame as routed.
    Frame(FrameRoute),
    /// Drop the render caches and render the composed screen now.
    RenderFull,
    /// Mark a hover repaint pending.
    HoverRender,
    /// Write these bytes to the host clipboard (OSC 52).
    WriteClipboard(Vec<u8>),
    /// Perform a notification.
    Notify { action: NotifyAction, message: String, body: Option<String> },
    /// Start the worker this command asks for.
    Perform(ClientInputDispatch),
    /// Carry out what the housekeeping tick asks: the render, the reconnects, the refreshes and
    /// the subscriptions.
    Housekeeping(TimerActions),
    /// Refresh the freshly connected server and the fleet.
    RefreshAfterAttach(ServerId),
    /// Read the host's runtime version again.
    FetchRuntimeStatus(ServerId),
    /// Carry out what a finished registry change still asks.
    FollowUp(ManageFollowUp),
    /// Leave the loop with this result.
    End(Result<(), ClientError>),
}

/// The server the user is on.
pub open spec fn active_of(m: Option<ClientSupervisorModel>) -> ServerId {
    match m {
        Some(x) => x.active_server_id,
        None => ServerId::Main,
    }
}

/// The actions of a direct attach's filtered input: bytes forwarded to the main server, a
/// scroll request, a detach that ends the session, or nothing.
pub open spec fn attach_step_actions(a: AttachInputAction) -> Seq<ClientLoopAction> {
    match a {
        AttachInputAction::Forward(data) => seq![ClientLoopAction::Send {
            server_id: ServerId::Main,
            message: ClientMessage::Input { data },
        }],
        AttachInputAction::Scroll { source, direction, lines, column, row, modifiers } => seq![ClientLoopAction::Send {
            server_id: ServerId::Main,
            message: ClientMessage::AttachScroll { source, direction, lines, column, row, modifiers },
        }],
        AttachInputAction::Detach => seq![
            ClientLoopAction::Send { server_id: ServerId::Main, message: ClientMessage::Detach },
            ClientLoopAction::End(Ok(())),
        ],
        AttachInputAction::NoAction => Seq::empty(),
    }
}

/// `n`, `mm` and `r` are what the loop makes of the dispatch `d` of composited input: forwarded
/// bytes go to the active server; a server control message to its server, then a repaint; a
/// size change is reported to every server; a detach sends Detach to every server and ends the
/// session; repaints are requested; a host disconnect or reconnect is applied; an add-remote
/// submission is marked in flight and its worker starts only when none was; a host update of an
/// ssh remote is marked in flight (its worker starts only when none was) and one of any other
/// host only says so on its banner; any other command starts its worker, then a repaint.
pub open spec fn dispatched_done(l: ClientLoop, n: ClientLoop, m: Option<ClientSupervisorModel>, mm: Option<ClientSupervisorModel>, d: ClientInputDispatch, now: u64, r: Seq<ClientLoopAction>) -> bool {
    match d {
        ClientInputDispatch::DisconnectRemote { server_id } => {
            &&& disconnected_by_hand(l.connections, n.connections, m, mm, server_id)
            &&& n == (ClientLoop { connections: n.connections, ..l })
            &&& r == seq![ClientLoopAction::RenderFull]
        },
        ClientInputDispatch::ReconnectRemote { server_id } => {
            &&& reconnected_by_hand(l.connections, n.connections, m, mm, server_id, now)
            &&& n == (ClientLoop { connections: n.connections, ..l })
            &&& r == seq![ClientLoopAction::RenderFull]
        },
        ClientInputDispatch::AddRemote(_) => {
            &&& n == (ClientLoop { connections: ClientConnections { pending_add_remote: true, ..l.connections }, ..l })
            &&& mm == m
            &&& r == if l.connections.pending_add_remote {
                    seq![ClientLoopAction::RenderFull]
                } else {
                    seq![ClientLoopAction::Perform(d), ClientLoopAction::RenderFull]
                }
        },
        ClientInputDispatch::UpdateRemote { server_id } => {
            &&& n == (ClientLoop { connections: n.connections, ..l })
            &&& exists|b: bool|
                    update_begun(l.connections, n.connections, m, mm, server_id, l.ssh_remotes@.contains(server_id@), b)
                    && r == if b {
                        seq![ClientLoopAction::Perform(d), ClientLoopAction::RenderFull]
                    } else {
                        seq![ClientLoopAction::RenderFull]
                    }
        },
        ClientInputDispatch::Resize { cols, rows } => {
            &&& n == (ClientLoop { reported_cols: cols, reported_rows: rows, ..l })
            &&& mm == m
            &&& r == seq![
                ClientLoopAction::SendToAll(ClientMessage::Resize {
                    cols,
                    rows,
                    cell_width_px: l.cell_width_px,
                    cell_height_px: l.cell_height_px,
                }),
                ClientLoopAction::RenderFull,
            ]
        },
        _ => {
            &&& n == l
            &&& mm == m
            &&& r == match d {
                ClientInputDispatch::Forward(data) => seq![ClientLoopAction::Send {
                    server_id: active_of(m),
                    message: ClientMessage::Input { data },
                }],
                ClientInputDispatch::ServerControl { server_id, message } =>
                    seq![ClientLoopAction::Send { server_id, message }, ClientLoopAction::RenderFull],
                ClientInputDispatch::DetachAll =>
                    seq![ClientLoopAction::SendToAll(ClientMessage::Detach), ClientLoopAction::End(Ok(()))],
                ClientInputDispatch::Redraw => seq![ClientLoopAction::RenderFull],
                ClientInputDispatch::HoverRedraw => seq![ClientLoopAction::HoverRender],
                ClientInputDispatch::Consumed => Seq::<ClientLoopAction>::empty(),
                _ => seq![ClientLoopAction::Perform(d), ClientLoopAction::RenderFull],
            }
        },
    }
}

/// `n`, `mm` and `r` are what the loop makes of `event` at `now`, from `l` and `m`.
pub open spec fn loop_step_done(l: ClientLoop, n: ClientLoop, m: Option<ClientSupervisorModel>, mm: Option<ClientSupervisorModel>, event: ClientLoopEvent, now: u64, r: Seq<ClientLoopAction>) -> bool {
    match event {
        ClientLoopEvent::StdinInput(data) => match l.attach_escape {
            Some(st) => {
                let f = filter_bytes(st.pending_prefix, data@);
                &&& n == (ClientLoop { attach_escape: Some(AttachEscapeState { pending_prefix: f.pending }), ..l })
                &&& mm == m
                &&& exists|a: AttachInputAction| a@ == attach_action(f, l.reported_rows, l.mouse_scroll_lines)
                        && r == attach_step_actions(a)
            },
            None => {
                &&& n == l
                &&& mm == m
                &&& r == if l.composited {
                        seq![ClientLoopAction::ComposeInput(data)]
                    } else {
                        seq![ClientLoopAction::Send { server_id: active_of(m), message: ClientMessage::Input { data } }]
                    }
            },
        },
        ClientLoopEvent::Dispatched(d) => dispatched_done(l, n, m, mm, d, now, r),
        ClientLoopEvent::Resize { cols, rows, cell_width_px, cell_height_px } => {
            let rc: u16 = if l.composited { content_width(cols) } else { cols };
            let message = ClientMessage::Resize { cols: rc, rows, cell_width_px, cell_height_px };
            &&& n == (ClientLoop {
                    host_cols: cols,
                    host_rows: rows,
                    reported_cols: rc,
                    reported_rows: rows,
                    cell_width_px,
                    cell_height_px,
                    ..l
                })
            &&& mm == m
            &&& r == if l.composited {
                    seq![ClientLoopAction::SendToAll(message)]
                } else {
                    seq![ClientLoopAction::Send { server_id: active_of(m), message }]
                }
        },
        ClientLoopEvent::ServerFrame(server_id) => {
            &&& n == (ClientLoop { connections: n.connections, ..l })
            &&& mm == m
            &&& r.len() == 1
            &&& r[0] matches ClientLoopAction::Frame(route)
                && frame_routed(l.connections, n.connections, m, l.composited, server_id, route)
        },
        ClientLoopEvent::ServerShutdown { server_id, reason } => {
            &&& n == (ClientLoop { connections: n.connections, ..l })
            &&& if server_id@ is None {
                    &&& shutdown_handled(l.connections, n.connections, m, mm, server_id, reason, now,
                            Err(ClientError::ServerShutdown { reason }))
                    &&& r == seq![ClientLoopAction::End(Err(ClientError::ServerShutdown { reason }))]
                } else {
                    &&& shutdown_handled(l.connections, n.connections, m, mm, server_id, reason, now, Ok(()))
                    &&& r == seq![ClientLoopAction::RenderFull]
                }
        },
        ClientLoopEvent::ServerDisconnected(server_id) => {
            &&& n == (ClientLoop { connections: n.connections, ..l })
            &&& r.len() == 1
            &&& if server_id@ is None {
                    r[0] matches ClientLoopAction::End(Err(e))
                        && stream_end_handled(l.connections, n.connections, m, mm, server_id, now, Err(e))
                } else {
                    r[0] == ClientLoopAction::RenderFull
                        && stream_end_handled(l.connections, n.connections, m, mm, server_id, now, Ok(()))
                }
        },
        ClientLoopEvent::WriteFailed { server_id, error } => {
            &&& n == (ClientLoop { connections: n.connections, ..l })
            &&& if server_id@ is None {
                    &&& write_failure_handled(l.connections, n.connections, m, mm, server_id, error, now,
                            Err(ClientError::ConnectionLost(error)))
                    &&& r == seq![ClientLoopAction::End(Err(ClientError::ConnectionLost(error)))]
                } else {
                    &&& write_failure_handled(l.connections, n.connections, m, mm, server_id, error, now, Ok(()))
                    &&& r == seq![ClientLoopAction::RenderFull]
                }
        },
        ClientLoopEvent::Clipboard(data) => {
            &&& n == l
            &&& mm == m
            &&& match base64_standard_decoded(data@) {
                    Some(bytes) => r.len() == 1 && (r[0] matches ClientLoopAction::WriteClipboard(b) && b@ == bytes),
                    None => r == Seq::<ClientLoopAction>::empty(),
                }
        },
        ClientLoopEvent::Notify { kind, message, body } => {
            &&& n == l
            &&& mm == m
            &&& r == seq![ClientLoopAction::Notify { action: notify_decision(kind, message@, l.sound_enabled), message, body }]
        },
        ClientLoopEvent::Timer { reachable, subscription_targets } => {
            &&& n == (ClientLoop {
                    connections: n.connections,
                    cadence: n.cadence,
                    last_supervisor_refresh: n.last_supervisor_refresh,
                    ..l
                })
            &&& r.len() == 1
            &&& r[0] matches ClientLoopAction::Housekeeping(t)
                && housekeeping_done(l.connections, n.connections, m, mm, l.cadence, n.cadence,
                    l.last_supervisor_refresh, n.last_supervisor_refresh, reachable, subscription_targets@, now, t)
        },
        ClientLoopEvent::AttemptFinished { server_id, attempt, outcome } => {
            &&& n == (ClientLoop { connections: n.connections, ..l })
            &&& exists|b: bool|
                    attempt_finished_done(l.connections, n.connections, m, mm, server_id, attempt, outcome, l.error_context, now, b)
                    && r == if b {
                        seq![ClientLoopAction::RefreshAfterAttach(server_id), ClientLoopAction::RenderFull]
                    } else {
                        seq![ClientLoopAction::RenderFull]
                    }
        },
        ClientLoopEvent::UpdateRemoteProgress { server_id, message } => {
            &&& n == (ClientLoop {
                    connections: ClientConnections { update_outcome_expiry: n.connections.update_outcome_expiry, ..l.connections },
                    ..l
                })
            &&& n.connections.update_outcome_expiry@ == l.connections.update_outcome_expiry@.remove(server_id@)
            &&& progress_posted(m, mm, server_id@, message@, true)
            &&& r == seq![ClientLoopAction::RenderFull]
        },
        ClientLoopEvent::SummarySubscriptionEnded(server_id) => {
            &&& n == (ClientLoop {
                    connections: ClientConnections { summary_subscriptions: n.connections.summary_subscriptions, ..l.connections },
                    ..l
                })
            &&& n.connections.summary_subscriptions@ == l.connections.summary_subscriptions@.remove(server_id@)
            &&& mm == m
            &&& r == Seq::<ClientLoopAction>::empty()
        },
        ClientLoopEvent::UpdateRemoteFinished { server_id, result } => {
            &&& n == (ClientLoop { connections: n.connections, ..l })
            &&& exists|mid: ClientConnections|
                    update_finished_done(l.connections, mid, m, mm, server_id, result, now)
                    && n.connections == (ClientConnections {
                        pending_update_remote: n.connections.pending_update_remote,
                        full_redraw_requested: true,
                        ..mid
                    })
            &&& n.connections.pending_update_remote@ == l.connections.pending_update_remote@.remove(server_id@)
            &&& r == if result is Ok {
                    seq![ClientLoopAction::FetchRuntimeStatus(server_id), ClientLoopAction::RenderFull]
                } else {
                    seq![ClientLoopAction::RenderFull]
                }
        },
        ClientLoopEvent::RemoteManageFinished { action, remote_id, result } => {
            &&& n == (ClientLoop { connections: n.connections, ..l })
            &&& r.len() == 2
            &&& r[0] matches ClientLoopAction::FollowUp(f)
                && manage_finished_done(l.connections, n.connections, m, mm, action, remote_id@, result, now, f)
            &&& r[1] == ClientLoopAction::RenderFull
        },
        ClientLoopEvent::Quit => {
            &&& n == l
            &&& mm == m
            &&& r == seq![ClientLoopAction::SendToAll(ClientMessage::Detach), ClientLoopAction::End(Ok(()))]
        },
    }
}

/// The main server's shutdown ends the session with that shutdown as its result (which
/// `finish_session` turns into the shutdown message and a clean exit), whatever the loop held.
pub proof fn lemma_main_shutdown_ends_the_session(
    l: ClientLoop,
    n: ClientLoop,
    m: Option<ClientSupervisorModel>,
    mm: Option<ClientSupervisorModel>,
    reason: Option<String>,
    now: u64,
    r: Seq<ClientLoopAction>,
)
    requires
        loop_step_done(l, n, m, mm, ClientLoopEvent::ServerShutdown { server_id: ServerId::Main, reason }, now, r),
    ensures
        r == seq![ClientLoopAction::End(Err(ClientError::ServerShutdown { reason }))],
{
}

/// In a direct attach, the escape prefix (Ctrl+B) followed by `q` detaches: the loop queues a
/// Detach to the main server and ends the session cleanly, forwarding neither byte, whether the
/// two bytes come in one read or in two.
pub proof fn lemma_prefix_q_detaches(
    l: ClientLoop,
    m: Option<ClientSupervisorModel>,
    now: u64,
    both: Vec<u8>,
    first: Vec<u8>,
    second: Vec<u8>,
    n1: ClientLoop,
    m1: Option<ClientSupervisorModel>,
    r1: Seq<ClientLoopAction>,
    n2: ClientLoop,
    m2: Option<ClientSupervisorModel>,
    r2: Seq<ClientLoopAction>,
    n3: ClientLoop,
    m3: Option<ClientSupervisorModel>,
    r3: Seq<ClientLoopAction>,
)
    requires
        l.attach_escape == Some(AttachEscapeState { pending_prefix: false }),
        both@ == seq![2u8, 113u8],
        first@ == seq![2u8],
        second@ == seq![113u8],
        loop_step_done(l, n1, m, m1, ClientLoopEvent::StdinInput(both), now, r1),
        loop_step_done(l, n2, m, m2, ClientLoopEvent::StdinInput(first), now, r2),
        loop_step_done(n2, n3, m2, m3, ClientLoopEvent::StdinInput(second), now, r3),
    ensures
        r1 == seq![
            ClientLoopAction::Send { server_id: ServerId::Main, message: ClientMessage::Detach },
            ClientLoopAction::End(Ok(())),
        ],
        r2 == Seq::<ClientLoopAction>::empty(),
        r3 == seq![
            ClientLoopAction::Send { server_id: ServerId::Main, message: ClientMessage::Detach },
            ClientLoopAction::End(Ok(())),
        ],
{
    reveal_with_fuel(filter_bytes, 3);
    assert(both@.drop_last() =~= seq![2u8]);
    assert(seq![2u8].drop_last() =~= Seq::<u8>::empty());
    assert(first@.drop_last() =~= Seq::<u8>::empty());
    assert(second@.drop_last() =~= Seq::<u8>::empty());
    let f1 = filter_bytes(false, both@);
    assert(f1.detached);
    let a1 = choose|a: AttachInputAction| a@ == attach_action(f1, l.reported_rows, l.mouse_scroll_lines)
        && r1 == attach_step_actions(a);
    assert(a1@ == AttachActionView::Detach);
    assert(a1 == AttachInputAction::Detach);
    let f2 = filter_bytes(false, first@);
    assert(f2.pending && !f2.detached && f2.output.len() == 0);
    let a2 = choose|a: AttachInputAction| a@ == attach_action(f2, l.reported_rows, l.mouse_scroll_lines)
        && r2 == attach_step_actions(a);
    assert(a2 == AttachInputAction::NoAction);
    let f3 = filter_bytes(true, second@);
    assert(f3.detached);
    let a3 = choose|a: AttachInputAction| a@ == attach_action(f3, n2.reported_rows, n2.mouse_scroll_lines)
        && r3 == attach_step_actions(a);
    assert(a3 == AttachInputAction::Detach);
}

impl ClientLoop {
    /// The connection bookkeeping is well-formed.
    pub open spec fn wf(&self) -> bool {
        self.connections.wf()
    }

    /// Handle one loop event at `now`: the new state and the actions, as `loop_step_done` says.
    pub fn client_loop_step(&mut self, model: &mut Option<ClientSupervisorModel>, event: ClientLoopEvent, now: u64) -> (r: Vec<ClientLoopAction>)
        requires
            old(self).wf(),
            now + LONGEST_RETRY_DELAY <= u64::MAX,
        ensures
            final(self).wf(),
            loop_step_done(*old(self), *final(self), *old(model), *final(model), event, now, r@),
    {
        match event {
            ClientLoopEvent::StdinInput(data) => {
                match &mut self.attach_escape {
                    Some(st) => {
                        let a = st.filter_input(data, self.reported_rows, self.mouse_scroll_lines);
                        let r = match a {
                            AttachInputAction::Forward(d) => vec![ClientLoopAction::Send {
                                server_id: ServerId::Main,
                                message: ClientMessage::Input { data: d },
                            }],
                            AttachInputAction::Scroll { source, direction, lines, column, row, modifiers } => vec![ClientLoopAction::Send {
                                server_id: ServerId::Main,
                                message: ClientMessage::AttachScroll { source, direction, lines, column, row, modifiers },
                            }],
                            AttachInputAction::Detach => vec![
                                ClientLoopAction::Send { server_id: ServerId::Main, message: ClientMessage::Detach },
                                ClientLoopAction::End(Ok(())),
                            ],
                            AttachInputAction::NoAction => Vec::new(),
                        };
                        proof {
                            assert(r@ =~= attach_step_actions(a));
                        }
                        r
                    },
                    None => {
                        if self.composited {
                            let r = vec![ClientLoopAction::ComposeInput(data)];
                            assert(r@ =~= seq![ClientLoopAction::ComposeInput(data)]);
                            r
                        } else {
                            let active = active_server_of(model);
                            let r = vec![ClientLoopAction::Send { server_id: active, message: ClientMessage::Input { data } }];
                            assert(r@ =~= seq![ClientLoopAction::Send { server_id: active_of(*model), message: ClientMessage::Input { data } }]);
                            r
                        }
                    },
                }
            },
            ClientLoopEvent::Dispatched(d) => self.dispatched(model, d, now),
            ClientLoopEvent::Resize { cols, rows, cell_width_px, cell_height_px } => {
                let rc: u16 = if self.composited {
                    if cols >= crate::launch::DEFAULT_SIDEBAR_WIDTH { cols - crate::launch::DEFAULT_SIDEBAR_WIDTH } else { 0 }
                } else {
                    cols
                };
                self.host_cols = cols;
                self.host_rows = rows;
                self.reported_cols = rc;
                self.reported_rows = rows;
                self.cell_width_px = cell_width_px;
                self.cell_height_px = cell_height_px;
                let message = ClientMessage::Resize { cols: rc, rows, cell_width_px, cell_height_px };
                if self.composited {
                    let r = vec![ClientLoopAction::SendToAll(message)];
                    assert(r@ =~= seq![ClientLoopAction::SendToAll(message)]);
                    r
                } else {
                    let active = active_server_of(model);
                    let r = vec![ClientLoopAction::Send { server_id: active, message }];
                    assert(r@ =~= seq![ClientLoopAction::Send { server_id: active_of(*model), message }]);
                    r
                }
            },
            ClientLoopEvent::ServerFrame(server_id) => {
                let route = self.connections.route_incoming_frame(model, self.composited, &server_id);
                vec![ClientLoopAction::Frame(route)]
            },
            ClientLoopEvent::ServerShutdown { server_id, reason } => {
                let ghost gid = server_id;
                let ghost greason = reason;
                let res = self.connections.server_shut_down(model, server_id, reason, now);
                match res {
                    Ok(()) => {
                        let r = vec![ClientLoopAction::RenderFull];
                        assert(r@ =~= seq![ClientLoopAction::RenderFull]);
                        r
                    },
                    Err(e) => {
                        let r = vec![ClientLoopAction::End(Err(e))];
                        assert(r@ =~= seq![ClientLoopAction::End(Err(ClientError::ServerShutdown { reason: greason }))]);
                        r
                    },
                }
            },
            ClientLoopEvent::ServerDisconnected(server_id) => {
                let res = self.connections.server_disconnected(model, server_id, now);
                match res {
                    Ok(()) => vec![ClientLoopAction::RenderFull],
                    Err(e) => vec![ClientLoopAction::End(Err(e))],
                }
            },
            ClientLoopEvent::WriteFailed { server_id, error } => {
                let ghost gerror = error;
                let res = self.connections.handle_server_write_failure(model, server_id, error, now);
                match res {
                    Ok(()) => {
                        let r = vec![ClientLoopAction::RenderFull];
                        assert(r@ =~= seq![ClientLoopAction::RenderFull]);
                        r
                    },
                    Err(e) => {
                        let r = vec![ClientLoopAction::End(Err(e))];
                        assert(r@ =~= seq![ClientLoopAction::End(Err(ClientError::ConnectionLost(gerror)))]);
                        r
                    },
                }
            },
            ClientLoopEvent::Clipboard(data) => match decode_clipboard_payload(data.as_str()) {
                Some(bytes) => vec![ClientLoopAction::WriteClipboard(bytes)],
                None => Vec::new(),
            },
            ClientLoopEvent::Notify { kind, message, body } => {
                let action = notify_action(kind, message.as_str(), self.sound_enabled);
                let ghost gm = message;
                let ghost gb = body;
                let r = vec![ClientLoopAction::Notify { action, message, body }];
                assert(r@ =~= seq![ClientLoopAction::Notify { action: notify_decision(kind, gm@, self.sound_enabled), message: gm, body: gb }]);
                r
            },
            ClientLoopEvent::Timer { reachable, subscription_targets } => {
                let t = self.connections.timer_housekeeping(
                    model,
                    &mut self.cadence,
                    &mut self.last_supervisor_refresh,
                    &reachable,
                    &subscription_targets,
                    now,
                );
                vec![ClientLoopAction::Housekeeping(t)]
            },
            ClientLoopEvent::AttemptFinished { server_id, attempt, outcome } => {
                let refresh = self.connections.apply_secondary_attempt_finished(
                    model, &server_id, attempt, outcome, &self.error_context, now);
                if refresh {
                    let r = vec![ClientLoopAction::RefreshAfterAttach(server_id), ClientLoopAction::RenderFull];
                    assert(r@ =~= seq![ClientLoopAction::RefreshAfterAttach(server_id), ClientLoopAction::RenderFull]);
                    r
                } else {
                    let r = vec![ClientLoopAction::RenderFull];
                    assert(r@ =~= seq![ClientLoopAction::RenderFull]);
                    r
                }
            },
            ClientLoopEvent::UpdateRemoteProgress { server_id, message } => {
                self.connections.post_update_progress(model, &server_id, message);
                let r = vec![ClientLoopAction::RenderFull];
                assert(r@ =~= seq![ClientLoopAction::RenderFull]);
                r
            },
            ClientLoopEvent::SummarySubscriptionEnded(server_id) => {
                self.connections.summary_subscription_ended(&server_id);
                let r: Vec<ClientLoopAction> = Vec::new();
                assert(r@ =~= Seq::<ClientLoopAction>::empty());
                r
            },
            ClientLoopEvent::UpdateRemoteFinished { server_id, result } => {
                let succeeded = self.connections.update_remote_finished(model, &server_id, result, now);
                if succeeded {
                    let r = vec![ClientLoopAction::FetchRuntimeStatus(server_id), ClientLoopAction::RenderFull];
                    assert(r@ =~= seq![ClientLoopAction::FetchRuntimeStatus(server_id), ClientLoopAction::RenderFull]);
                    r
                } else {
                    let r = vec![ClientLoopAction::RenderFull];
                    assert(r@ =~= seq![ClientLoopAction::RenderFull]);
                    r
                }
            },
            ClientLoopEvent::RemoteManageFinished { action, remote_id, result } => {
                let f = self.connections.apply_remote_manage_request_finished(model, action, remote_id.as_str(), result, now);
                vec![ClientLoopAction::FollowUp(f), ClientLoopAction::RenderFull]
            },
            ClientLoopEvent::Quit => {
                let r = vec![ClientLoopAction::SendToAll(ClientMessage::Detach), ClientLoopAction::End(Ok(()))];
                assert(r@ =~= seq![ClientLoopAction::SendToAll(ClientMessage::Detach), ClientLoopAction::End(Ok(()))]);
                r
            },
        }
    }

    fn dispatched(&mut self, model: &mut Option<ClientSupervisorModel>, d: ClientInputDispatch, now: u64) -> (r: Vec<ClientLoopAction>)
        requires
            old(self).wf(),
            now + LONGEST_RETRY_DELAY <= u64::MAX,
        ensures
            final(self).wf(),
            dispatched_done(*old(self), *final(self), *old(model), *final(model), d, now, r@),
    {
        let ghost gd = d;
        match d {
            ClientInputDispatch::DisconnectRemote { server_id } => {
                self.connections.disconnect_remote(model, &server_id);
                let r = vec![ClientLoopAction::RenderFull];
                assert(r@ =~= seq![ClientLoopAction::RenderFull]);
                r
            },
            ClientInputDispatch::ReconnectRemote { server_id } => {
                self.connections.reconnect_remote(model, &server_id, now);
                let r = vec![ClientLoopAction::RenderFull];
                assert(r@ =~= seq![ClientLoopAction::RenderFull]);
                r
            },
            ClientInputDispatch::AddRemote(draft) => {
                let claimed = self.connections.begin_add_remote_submission();
                if claimed {
                    let r = vec![ClientLoopAction::Perform(ClientInputDispatch::AddRemote(draft)), ClientLoopAction::RenderFull];
                    assert(r@ =~= seq![ClientLoopAction::Perform(gd), ClientLoopAction::RenderFull]);
                    r
                } else {
                    let r = vec![ClientLoopAction::RenderFull];
                    assert(r@ =~= seq![ClientLoopAction::RenderFull]);
                    r
                }
            },
            ClientInputDispatch::UpdateRemote { server_id } => {
                let has_ssh_target = self.ssh_remotes.contains(&server_id);
                let spawn = self.connections.begin_remote_update(model, &server_id, has_ssh_target);
                if spawn {
                    let r = vec![ClientLoopAction::Perform(ClientInputDispatch::UpdateRemote { server_id }), ClientLoopAction::RenderFull];
                    assert(r@ =~= seq![ClientLoopAction::Perform(gd), ClientLoopAction::RenderFull]);
                    r
                } else {
                    let r = vec![ClientLoopAction::RenderFull];
                    assert(r@ =~= seq![ClientLoopAction::RenderFull]);
                    r
                }
            },
            ClientInputDispatch::Resize { cols, rows } => {
                self.reported_cols = cols;
                self.reported_rows = rows;
                let message = ClientMessage::Resize {
                    cols,
                    rows,
                    cell_width_px: self.cell_width_px,
                    cell_height_px: self.cell_height_px,
                };
                let r = vec![ClientLoopAction::SendToAll(message), ClientLoopAction::RenderFull];
                assert(r@ =~= seq![ClientLoopAction::SendToAll(message), ClientLoopAction::RenderFull]);
                r
            },
            ClientInputDispatch::Forward(data) => {
                let active = active_server_of(model);
                let r = vec![ClientLoopAction::Send { server_id: active, message: ClientMessage::Input { data } }];
                assert(r@ =~= seq![ClientLoopAction::Send { server_id: active_of(*model), message: ClientMessage::Input { data } }]);
                r
            },
            ClientInputDispatch::ServerControl { server_id, message } => {
                let r = vec![ClientLoopAction::Send { server_id, message }, ClientLoopAction::RenderFull];
                assert(r@ =~= seq![ClientLoopAction::Send { server_id, message }, ClientLoopAction::RenderFull]);
                r
            },
            ClientInputDispatch::DetachAll => {
                let r = vec![ClientLoopAction::SendToAll(ClientMessage::Detach), ClientLoopAction::End(Ok(()))];
                assert(r@ =~= seq![ClientLoopAction::SendToAll(ClientMessage::Detach), ClientLoopAction::End(Ok(()))]);
                r
            },
            ClientInputDispatch::Redraw => {
                let r = vec![ClientLoopAction::RenderFull];
                assert(r@ =~= seq![ClientLoopAction::RenderFull]);
                r
            },
            ClientInputDispatch::HoverRedraw => {
                let r = vec![ClientLoopAction::HoverRender];
                assert(r@ =~= seq![ClientLoopAction::HoverRender]);
                r
            },
            ClientInputDispatch::Consumed => {
                let r: Vec<ClientLoopAction> = Vec::new();
                assert(r@ =~= Seq::<ClientLoopAction>::empty());
                r
            },
            other => {
                let r = vec![ClientLoopAction::Perform(other), ClientLoopAction::RenderFull];
                assert(r@ =~= seq![ClientLoopAction::Perform(gd), ClientLoopAction::RenderFull]);
                r
            },
        }
    }
}

} // verus!
