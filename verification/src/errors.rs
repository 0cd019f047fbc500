//! Client errors, their user-facing messages, and how failures are classified.

use vstd::prelude::*;
use crate::text::{
    append_str, ascii_lower, chars_of, contains_chars, contains_seq, decimal, decimal_string,
    lower_ascii_chars, str_is,
};

verus! {

/// The kind of an I/O failure (the subset of `std::io::ErrorKind` the client distinguishes).
#[derive(Debug, Clone, Copy, PartialEq, Eq)]
pub enum IoErrorKind {
    NotFound,
    PermissionDenied,
    ConnectionRefused,
    ConnectionReset,
    BrokenPipe,
    NotConnected,
    TimedOut,
    WouldBlock,
    InvalidInput,
    InvalidData,
    UnexpectedEof,
    Unsupported,
    Other,
}

/// A remote runs an incompatible server that cannot hand off live; an explicit retry may restart it.
#[derive(Debug, Clone)]
pub struct RestartConfirmNeeded {
    pub destination: String,
    pub version: Option<String>,
    pub protocol: Option<u32>,
}

/// An I/O failure: its kind, its display text, and a typed restart-confirm signal when it carries one.
#[derive(Debug)]
pub struct IoFailure {
    pub kind: IoErrorKind,
    pub message: String,
    pub restart_confirm: Option<RestartConfirmNeeded>,
}

impl IoFailure {
    /// A failure of kind `Other` with the given text and no typed signal.
    pub fn other(message: &str) -> (r: IoFailure)
        ensures
            r.kind == IoErrorKind::Other,
            r.message@ == message@,
            r.restart_confirm.is_none(),
    {
        IoFailure { kind: IoErrorKind::Other, message: String::from_str(message), restart_confirm: None }
    }

    /// A failure of the given kind with the given text and no typed signal.
    pub fn new(kind: IoErrorKind, message: &str) -> (r: IoFailure)
        ensures
            r.kind == kind,
            r.message@ == message@,
            r.restart_confirm.is_none(),
    {
        IoFailure { kind, message: String::from_str(message), restart_confirm: None }
    }
}

/// A framing failure on the server stream.
#[derive(Debug)]
pub enum FramingError {
    UnexpectedEof,
    Io(IoFailure),
    Invalid(String),
}

/// Display text of a framing failure.
pub open spec fn framing_message(e: FramingError) -> Seq<char> {
    match e {
        FramingError::UnexpectedEof => "unexpected end of stream"@,
        FramingError::Io(io) => "I/O error: "@ + io.message@,
        FramingError::Invalid(msg) => msg@,
    }
}

/// Errors that can occur during client operation.
#[derive(Debug)]
pub enum ClientError {
    /// Could not connect to the server's client socket.
    ConnectionFailed(IoFailure),
    /// Server rejected our handshake.
    HandshakeRejected { version: u32, error: String },
    /// Server shut down.
    ServerShutdown { reason: Option<String> },
    /// Lost connection to the server.
    ConnectionLost(IoFailure),
    /// Protocol error (framing, deserialization).
    Protocol(FramingError),
}

impl From<FramingError> for ClientError {
    fn from(err: FramingError) -> (r: ClientError) {
        ClientError::Protocol(err)
    }
}

impl vstd::std_specs::convert::FromSpecImpl<FramingError> for ClientError {
    open spec fn obeys_from_spec() -> bool {
        true
    }

    open spec fn from_spec(v: FramingError) -> ClientError {
        ClientError::Protocol(v)
    }
}

/// What the error messages read from the process environment.
#[derive(Debug)]
pub struct ErrorContext {
    /// The main server's client socket path.
    pub socket_path: String,
    /// The reattach command a remote launch exported, if any.
    pub reattach_command: Option<String>,
    /// The command that reattaches to the local session.
    pub local_attach_command: String,
}

/// The command that reattaches to the local session: plain `herdr` for the default session,
/// `herdr session attach <name>` for a named one.
pub open spec fn local_attach_text(session: Option<Seq<char>>) -> Seq<char> {
    match session {
        Some(name) => "herdr session attach "@ + name,
        None => "herdr"@,
    }
}

/// The command that reattaches to the local session named `session` (`None`: the default).
pub fn local_attach_command(session: Option<&str>) -> (r: String)
    ensures
        r@ == local_attach_text(match session {
            Some(s) => Some(s@),
            None => None,
        }),
{
    match session {
        Some(name) => append_str(String::from_str("herdr session attach "), name),
        None => String::from_str("herdr"),
    }
}

/// The message shown for a server that shut down for `reason`.
pub open spec fn shutdown_message(reason: Option<String>, ctx: ErrorContext) -> Seq<char> {
    match reason {
        Some(r) => if r@ == "detached"@ {
            match ctx.reattach_command {
                Some(cmd) => "detached from remote server"@ + "\nRun `"@ + cmd@ + "` to reattach"@,
                None => "detached from server"@ + "\nRun `"@ + ctx.local_attach_command@
                    + "` to reattach"@,
            }
        } else {
            "server shut down"@ + ": "@ + r@
        },
        None => "server shut down"@,
    }
}

/// The user-facing message of a client error.
pub open spec fn client_error_message(e: ClientError, ctx: ErrorContext) -> Seq<char> {
    match e {
        ClientError::ConnectionFailed(io) => "failed to connect to server: "@ + io.message@
            + "\nIs herdr server running? Start it with `herdr server`."@ + "\nSocket path: "@
            + ctx.socket_path@,
        ClientError::HandshakeRejected { version, error } => "server rejected handshake (version "@
            + decimal(version as nat) + "): "@ + error@,
        ClientError::ServerShutdown { reason } => shutdown_message(reason, ctx),
        ClientError::ConnectionLost(io) => "lost connection to server: "@ + io.message@,
        ClientError::Protocol(f) => "protocol error: "@ + framing_message(f),
    }
}

impl FramingError {
    /// Display text of this framing failure.
    pub fn message(&self) -> (r: String)
        ensures
            r@ == framing_message(*self),
    {
        match self {
            FramingError::UnexpectedEof => String::from_str("unexpected end of stream"),
            FramingError::Io(io) => append_str(String::from_str("I/O error: "), io.message.as_str()),
            FramingError::Invalid(msg) => msg.clone(),
        }
    }
}

impl ClientError {
    /// The user-facing message of this error.
    pub fn message(&self, ctx: &ErrorContext) -> (r: String)
        ensures
            r@ == client_error_message(*self, *ctx),
    {
        match self {
            ClientError::ConnectionFailed(io) => {
                let s = append_str(String::from_str("failed to connect to server: "), io.message.as_str());
                let s = append_str(s, "\nIs herdr server running? Start it with `herdr server`.");
                let s = append_str(s, "\nSocket path: ");
                append_str(s, ctx.socket_path.as_str())
            },
            ClientError::HandshakeRejected { version, error } => {
                let s = String::from_str("server rejected handshake (version ");
                let v = decimal_string(*version as u64);
                let s = append_str(s, v.as_str());
                let s = append_str(s, "): ");
                append_str(s, error.as_str())
            },
            ClientError::ServerShutdown { reason } => {
                match reason {
                    Some(r) => {
                        if str_is(r.as_str(), "detached") {
                            match &ctx.reattach_command {
                                Some(cmd) => {
                                    let s = String::from_str("detached from remote server");
                                    let s = append_str(s, "\nRun `");
                                    let s = append_str(s, cmd.as_str());
                                    append_str(s, "` to reattach")
                                },
                                None => {
                                    let s = String::from_str("detached from server");
                                    let s = append_str(s, "\nRun `");
                                    let s = append_str(s, ctx.local_attach_command.as_str());
                                    append_str(s, "` to reattach")
                                },
                            }
                        } else {
                            let s = String::from_str("server shut down");
                            let s = append_str(s, ": ");
                            append_str(s, r.as_str())
                        }
                    },
                    None => String::from_str("server shut down"),
                }
            },
            ClientError::ConnectionLost(io) => append_str(
                String::from_str("lost connection to server: "),
                io.message.as_str(),
            ),
            ClientError::Protocol(f) => {
                let m = f.message();
                append_str(String::from_str("protocol error: "), m.as_str())
            },
        }
    }
}

/// How a failed secondary connection/provisioning attempt should be handled by the retry sweep.
#[derive(Debug, Clone, Copy, PartialEq, Eq)]
pub enum ProvisionFailureDisposition {
    /// Transient (network blips, timeouts, refused): keep the backoff retry running.
    Retry,
    /// Terminal (ssh auth, unknown host, impossible version/seed): stop retrying.
    Stop,
    /// Terminal, but the remote runs an incompatible server an explicit retry may restart.
    StopNeedsRestartConfirm,
}

/// The number of terminal failure markers.
pub const TERMINAL_MARKER_COUNT: usize = 14;

/// The `i`-th error-text marker of a failure that retrying cannot fix.
pub open spec fn terminal_marker(i: int) -> Seq<char> {
    if i == 0 { "permission denied"@ }
    else if i == 1 { "too many authentication failures"@ }
    else if i == 2 { "host key verification failed"@ }
    else if i == 3 { "could not resolve hostname"@ }
    else if i == 4 { "name or service not known"@ }
    else if i == 5 { "nodename nor servname"@ }
    else if i == 6 { "not version"@ }
    else if i == 7 { "can't be upgraded in place"@ }
    else if i == 8 { "cannot seed remotes"@ }
    else if i == 9 { "release manifest"@ }
    else if i == 10 { "not executable on the remote host"@ }
    else if i == 11 { "does not support the remote-bridge subcommands"@ }
    else if i == 12 { "did not respond to --version"@ }
    else { "installation cancelled"@ }
}

/// Executable form of [`terminal_marker`].
fn terminal_marker_str(i: usize) -> (r: &'static str)
    requires
        i < TERMINAL_MARKER_COUNT,
    ensures
        r@ == terminal_marker(i as int),
{
    if i == 0 { "permission denied" }
    else if i == 1 { "too many authentication failures" }
    else if i == 2 { "host key verification failed" }
    else if i == 3 { "could not resolve hostname" }
    else if i == 4 { "name or service not known" }
    else if i == 5 { "nodename nor servname" }
    else if i == 6 { "not version" }
    else if i == 7 { "can't be upgraded in place" }
    else if i == 8 { "cannot seed remotes" }
    else if i == 9 { "release manifest" }
    else if i == 10 { "not executable on the remote host" }
    else if i == 11 { "does not support the remote-bridge subcommands" }
    else if i == 12 { "did not respond to --version" }
    else { "installation cancelled" }
}

/// Whether the lower-cased error text names a failure that retrying cannot fix.
pub open spec fn has_terminal_marker(text: Seq<char>) -> bool {
    exists|i: int| 0 <= i < TERMINAL_MARKER_COUNT && contains_seq(text, #[trigger] terminal_marker(i))
}

/// Whether an error carries the typed restart-confirm signal.
pub open spec fn carries_restart_signal(e: ClientError) -> bool {
    e matches ClientError::ConnectionFailed(io) && io.restart_confirm is Some
}

/// The disposition of a failed secondary connection attempt.
pub open spec fn provision_disposition(e: ClientError, ctx: ErrorContext) -> ProvisionFailureDisposition {
    if carries_restart_signal(e) {
        ProvisionFailureDisposition::StopNeedsRestartConfirm
    } else if has_terminal_marker(ascii_lower(client_error_message(e, ctx))) {
        ProvisionFailureDisposition::Stop
    } else {
        ProvisionFailureDisposition::Retry
    }
}

/// ASCII lower-casing works piece by piece.
proof fn lemma_ascii_lower_add(a: Seq<char>, b: Seq<char>)
    ensures
        ascii_lower(a + b) == ascii_lower(a) + ascii_lower(b),
{
    assert(ascii_lower(a + b) =~= ascii_lower(a) + ascii_lower(b));
}

/// A part of the middle piece of a sequence is a part of the whole.
proof fn lemma_contains_in_middle(a: Seq<char>, b: Seq<char>, c: Seq<char>, needle: Seq<char>)
    requires
        contains_seq(b, needle),
    ensures
        contains_seq(a + b + c, needle),
{
    let i = choose|i: int| crate::text::occurs_at(b, needle, i);
    let whole = a + b + c;
    assert(whole.subrange(a.len() + i, a.len() + i + needle.len()) =~= b.subrange(i, i + needle.len()));
    assert(crate::text::occurs_at(whole, needle, a.len() + i));
}

/// A failed connection whose error text names, in any letter case, one of the failures that
/// retrying cannot fix (ssh refusing the credentials or the host key, an unknown host name, a
/// remote whose herdr cannot be installed, seeded, run or upgraded in place, a cancelled
/// installation) stops the retry sweep, unless it carries the restart signal.
pub proof fn lemma_terminal_failure_stops_retrying(io: IoFailure, ctx: ErrorContext, marker: Seq<char>)
    requires
        io.restart_confirm is None,
        contains_seq(ascii_lower(io.message@), marker),
        marker == "permission denied"@ || marker == "too many authentication failures"@
            || marker == "host key verification failed"@ || marker == "could not resolve hostname"@
            || marker == "name or service not known"@ || marker == "nodename nor servname"@
            || marker == "not version"@ || marker == "can't be upgraded in place"@
            || marker == "cannot seed remotes"@ || marker == "release manifest"@
            || marker == "not executable on the remote host"@
            || marker == "does not support the remote-bridge subcommands"@
            || marker == "did not respond to --version"@ || marker == "installation cancelled"@,
    ensures
        provision_disposition(ClientError::ConnectionFailed(io), ctx) == ProvisionFailureDisposition::Stop,
{
    let head = "failed to connect to server: "@;
    let tail = "\nIs herdr server running? Start it with `herdr server`."@ + "\nSocket path: "@ + ctx.socket_path@;
    let e = ClientError::ConnectionFailed(io);
    assert(client_error_message(e, ctx) =~= head + io.message@ + tail);
    lemma_ascii_lower_add(head + io.message@, tail);
    lemma_ascii_lower_add(head, io.message@);
    lemma_contains_in_middle(ascii_lower(head), ascii_lower(io.message@), ascii_lower(tail), marker);
    let text = ascii_lower(client_error_message(e, ctx));
    assert(contains_seq(text, marker));
    if marker == "permission denied"@ {
        assert(contains_seq(text, terminal_marker(0)));
    } else if marker == "too many authentication failures"@ {
        assert(contains_seq(text, terminal_marker(1)));
    } else if marker == "host key verification failed"@ {
        assert(contains_seq(text, terminal_marker(2)));
    } else if marker == "could not resolve hostname"@ {
        assert(contains_seq(text, terminal_marker(3)));
    } else if marker == "name or service not known"@ {
        assert(contains_seq(text, terminal_marker(4)));
    } else if marker == "nodename nor servname"@ {
        assert(contains_seq(text, terminal_marker(5)));
    } else if marker == "not version"@ {
        assert(contains_seq(text, terminal_marker(6)));
    } else if marker == "can't be upgraded in place"@ {
        assert(contains_seq(text, terminal_marker(7)));
    } else if marker == "cannot seed remotes"@ {
        assert(contains_seq(text, terminal_marker(8)));
    } else if marker == "release manifest"@ {
        assert(contains_seq(text, terminal_marker(9)));
    } else if marker == "not executable on the remote host"@ {
        assert(contains_seq(text, terminal_marker(10)));
    } else if marker == "does not support the remote-bridge subcommands"@ {
        assert(contains_seq(text, terminal_marker(11)));
    } else if marker == "did not respond to --version"@ {
        assert(contains_seq(text, terminal_marker(12)));
    } else {
        assert(contains_seq(text, terminal_marker(13)));
    }
}

/// Classify a failed secondary connection attempt: the restart signal asks for confirmation,
/// provably-unrecoverable error text stops the retry sweep, anything else keeps retrying.
pub fn classify_provision_failure(err: &ClientError, ctx: &ErrorContext) -> (r: ProvisionFailureDisposition)
    ensures
        r == provision_disposition(*err, *ctx),
{
    if let ClientError::ConnectionFailed(io) = err {
        if io.restart_confirm.is_some() {
            return ProvisionFailureDisposition::StopNeedsRestartConfirm;
        }
    }
    let message = err.message(ctx);
    let chars = chars_of(message.as_str());
    let text = lower_ascii_chars(&chars);
    let mut i: usize = 0;
    while i < TERMINAL_MARKER_COUNT
        invariant
            i <= TERMINAL_MARKER_COUNT,
            text@ == ascii_lower(client_error_message(*err, *ctx)),
            !carries_restart_signal(*err),
            forall|j: int| 0 <= j < i ==> !contains_seq(text@, #[trigger] terminal_marker(j)),
        decreases TERMINAL_MARKER_COUNT - i,
    {
        let marker = chars_of(terminal_marker_str(i));
        if contains_chars(text.as_slice(), marker.as_slice()) {
            return ProvisionFailureDisposition::Stop;
        }
        i = i + 1;
    }
    ProvisionFailureDisposition::Retry
}

/// Short actionable text for a raw ssh/bridge failure (unmatched errors pass through verbatim).
pub open spec fn bridge_error_text(error: Seq<char>) -> Seq<char> {
    let lower = ascii_lower(error);
    if contains_seq(lower, "timed out"@) {
        "timed out reaching host \u{2014} check the address and your ssh access"@
    } else if contains_seq(lower, "connection refused"@) || contains_seq(lower, "could not resolve"@)
        || contains_seq(lower, "name or service not known"@) || contains_seq(lower, "no route to host"@) {
        "cannot reach host over ssh \u{2014} check the address"@
    } else if contains_seq(lower, "permission denied"@) || contains_seq(lower, "authentication"@) {
        "ssh authentication failed \u{2014} set up key access to this host"@
    } else if contains_seq(lower, "does not support live-handoff"@) || contains_seq(lower, "protocol"@) {
        "remote herdr is incompatible and can't be upgraded in place \u{2014} update it and retry"@
    } else {
        error
    }
}

/// Whether `lower` contains the characters of `marker`.
fn lower_contains(lower: &Vec<char>, marker: &str) -> (r: bool)
    ensures
        r == contains_seq(lower@, marker@),
{
    let m = chars_of(marker);
    contains_chars(lower.as_slice(), m.as_slice())
}

/// Map raw ssh/bridge failures into short, actionable dialog text.
pub fn map_remote_bridge_error(error: &str) -> (r: String)
    ensures
        r@ == bridge_error_text(error@),
{
    let chars = chars_of(error);
    let lower = lower_ascii_chars(&chars);
    if lower_contains(&lower, "timed out") {
        String::from_str("timed out reaching host \u{2014} check the address and your ssh access")
    } else if lower_contains(&lower, "connection refused") || lower_contains(&lower, "could not resolve")
        || lower_contains(&lower, "name or service not known") || lower_contains(&lower, "no route to host") {
        String::from_str("cannot reach host over ssh \u{2014} check the address")
    } else if lower_contains(&lower, "permission denied") || lower_contains(&lower, "authentication") {
        String::from_str("ssh authentication failed \u{2014} set up key access to this host")
    } else if lower_contains(&lower, "does not support live-handoff") || lower_contains(&lower, "protocol") {
        String::from_str(
            "remote herdr is incompatible and can't be upgraded in place \u{2014} update it and retry",
        )
    } else {
        String::from_str(error)
    }
}

/// Dialog text for a failed add-remote request: registry duplicates get their own wording,
/// everything else goes through [`bridge_error_text`].
pub open spec fn add_remote_error_text(error: Seq<char>) -> Seq<char> {
    if error == "remote target already exists"@ {
        "remote already added"@
    } else if error == "remote name already exists"@ {
        "name already used"@
    } else {
        bridge_error_text(error)
    }
}

/// Map an add-remote failure into the text shown in the add-remote dialog.
pub fn add_remote_error_message(error: &str) -> (r: String)
    ensures
        r@ == add_remote_error_text(error@),
{
    if str_is(error, "remote target already exists") {
        String::from_str("remote already added")
    } else if str_is(error, "remote name already exists") {
        String::from_str("name already used")
    } else {
        map_remote_bridge_error(error)
    }
}

/// Outcome of a bounded remote operation that did not succeed.
#[derive(Debug)]
pub enum RemoteOpError {
    /// No progress for a whole idle window; `stage` names the last reported stage.
    TimedOut { idle_micros: u64, stage: Option<String> },
    /// The worker thread went away without reporting.
    WorkerGone,
    /// The operation itself failed.
    Failed(IoFailure),
}

/// The I/O failure a bounded remote operation failure collapses into.
pub open spec fn remote_op_failure(err: RemoteOpError) -> (IoErrorKind, Seq<char>) {
    match err {
        RemoteOpError::TimedOut { idle_micros, stage } => {
            let doing = match stage {
                Some(s) => s@,
                None => "connecting to the remote host"@,
            };
            (IoErrorKind::TimedOut, "failed to start ssh remote bridge: no progress for "@
                + decimal((idle_micros / 1_000_000) as nat) + "s while "@ + doing)
        },
        RemoteOpError::WorkerGone => (IoErrorKind::Other,
            "failed to start ssh remote bridge: remote connection worker exited unexpectedly"@),
        RemoteOpError::Failed(io) => (io.kind, io.message@),
    }
}

/// Collapse a bounded remote op failure into an I/O failure, keeping a typed restart signal.
pub fn remote_op_error_io(err: RemoteOpError) -> (r: IoFailure)
    ensures
        (r.kind, r.message@) == remote_op_failure(err),
        err matches RemoteOpError::Failed(io) ==> r.restart_confirm == io.restart_confirm,
        !(err is Failed) ==> r.restart_confirm is None,
{
    match err {
        RemoteOpError::TimedOut { idle_micros, stage } => {
            let doing = match stage {
                Some(s) => s,
                None => String::from_str("connecting to the remote host"),
            };
            let secs = decimal_string(idle_micros / 1_000_000);
            let s = String::from_str("failed to start ssh remote bridge: no progress for ");
            let s = append_str(s, secs.as_str());
            let s = append_str(s, "s while ");
            let s = append_str(s, doing.as_str());
            IoFailure { kind: IoErrorKind::TimedOut, message: s, restart_confirm: None }
        },
        RemoteOpError::WorkerGone => IoFailure::other(
            "failed to start ssh remote bridge: remote connection worker exited unexpectedly",
        ),
        RemoteOpError::Failed(io) => io,
    }
}

} // verus!
