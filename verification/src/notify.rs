//! What the client does with a server's notifications and clipboard writes.

use vstd::prelude::*;
use base64::Engine;
use crate::text::str_is;

verus! {

/// A sound the client can play.
#[derive(Debug, Clone, Copy, PartialEq, Eq)]
pub enum Sound {
    Done,
    Request,
}

/// The kind of a server notification.
#[derive(Debug, Clone, Copy, PartialEq, Eq)]
pub enum NotifyKind {
    Sound,
    Toast,
    SystemToast,
}

/// The sound a sound notification names: "agent done" and "agent attention", nothing else.
pub open spec fn notify_sound(message: Seq<char>) -> Option<Sound> {
    if message == "agent done"@ {
        Some(Sound::Done)
    } else if message == "agent attention"@ {
        Some(Sound::Request)
    } else {
        None
    }
}

/// The sound a sound notification names.
pub fn sound_from_notify_message(message: &str) -> (r: Option<Sound>)
    ensures
        r == notify_sound(message@),
{
    if str_is(message, "agent done") {
        Some(Sound::Done)
    } else if str_is(message, "agent attention") {
        Some(Sound::Request)
    } else {
        None
    }
}

/// What the client does with a notification.
#[derive(Debug, Clone, Copy, PartialEq, Eq)]
pub enum NotifyAction {
    /// Play this sound.
    PlaySound(Sound),
    /// A known sound while sounds are off: nothing.
    Muted,
    /// A sound notification naming no known sound: warn.
    UnknownSound,
    /// Show a terminal notification.
    TerminalToast,
    /// Show a desktop notification.
    SystemToast,
}

/// What the client does with a notification of `kind` carrying `message`.
pub open spec fn notify_decision(kind: NotifyKind, message: Seq<char>, sound_enabled: bool) -> NotifyAction {
    match kind {
        NotifyKind::Sound => match notify_sound(message) {
            Some(s) => if sound_enabled { NotifyAction::PlaySound(s) } else { NotifyAction::Muted },
            None => NotifyAction::UnknownSound,
        },
        NotifyKind::Toast => NotifyAction::TerminalToast,
        NotifyKind::SystemToast => NotifyAction::SystemToast,
    }
}

/// With sounds off nothing ever plays, whatever the kind or message of the notification.
pub proof fn lemma_muted_never_plays(kind: NotifyKind, message: Seq<char>)
    ensures
        !(notify_decision(kind, message, false) is PlaySound),
{
}

/// With sounds on, "agent done" plays the done sound and "agent attention" the request sound,
/// and a toast is never a sound, whether sounds are on or off.
pub proof fn lemma_known_sounds_play(message: Seq<char>, sound_enabled: bool)
    ensures
        message == "agent done"@ ==> notify_decision(NotifyKind::Sound, message, true) == NotifyAction::PlaySound(Sound::Done),
        message == "agent attention"@ ==> notify_decision(NotifyKind::Sound, message, true) == NotifyAction::PlaySound(Sound::Request),
        notify_decision(NotifyKind::Toast, message, sound_enabled) == NotifyAction::TerminalToast,
        notify_decision(NotifyKind::SystemToast, message, sound_enabled) == NotifyAction::SystemToast,
{
    reveal_strlit("agent done");
    reveal_strlit("agent attention");
    assert("agent attention"@[6] != "agent done"@[6]);
}

/// What the client does with a notification: a known sound plays when sounds are on, an unknown
/// one is reported, toasts go to the terminal or the desktop.
pub fn notify_action(kind: NotifyKind, message: &str, sound_enabled: bool) -> (r: NotifyAction)
    ensures
        r == notify_decision(kind, message@, sound_enabled),
{
    match kind {
        NotifyKind::Sound => match sound_from_notify_message(message) {
            Some(s) => if sound_enabled { NotifyAction::PlaySound(s) } else { NotifyAction::Muted },
            None => NotifyAction::UnknownSound,
        },
        NotifyKind::Toast => NotifyAction::TerminalToast,
        NotifyKind::SystemToast => NotifyAction::SystemToast,
    }
}

#[verifier::external_type_specification]
#[verifier::external_body]
pub struct ExDecodeError(base64::DecodeError);

/// The bytes the standard base64 alphabet with canonical padding decodes `input` to, `None`
/// when it is not such base64.
pub uninterp spec fn base64_standard_decoded(input: Seq<char>) -> Option<Seq<u8>>;

/// `base64::engine::general_purpose::STANDARD.decode`: the decoded bytes, or the error when
/// `data` is not canonical standard base64; which it is, and what it decodes to, is named by
/// `base64_standard_decoded`.
#[verifier::external_body]
fn standard_base64_decode(data: &str) -> (r: Result<Vec<u8>, base64::DecodeError>)
    ensures
        match r {
            Ok(bytes) => base64_standard_decoded(data@) == Some(bytes@),
            Err(_) => base64_standard_decoded(data@) is None,
        },
{
    base64::engine::general_purpose::STANDARD.decode(data)
}

/// The bytes of a clipboard payload the server forwards as standard base64, `None` when it is
/// not valid base64.
pub fn decode_clipboard_payload(data: &str) -> (r: Option<Vec<u8>>)
    ensures
        match r {
            Some(bytes) => base64_standard_decoded(data@) == Some(bytes@),
            None => base64_standard_decoded(data@) is None,
        },
{
    match standard_base64_decode(data) {
        Ok(bytes) => Some(bytes),
        Err(_) => None,
    }
}

} // verus!
