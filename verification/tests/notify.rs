use herdr_client::notify::{NotifyAction, NotifyKind, Sound, decode_clipboard_payload, notify_action, sound_from_notify_message};

#[test]
fn sound_from_notify_message_maps_done() {
    assert_eq!(sound_from_notify_message("agent done"), Some(Sound::Done));
}

#[test]
fn sound_from_notify_message_maps_attention() {
    assert_eq!(sound_from_notify_message("agent attention"), Some(Sound::Request));
}

#[test]
fn sound_from_notify_message_rejects_unknown_payloads() {
    assert_eq!(sound_from_notify_message("toast"), None);
}

#[test]
fn notify_actions_follow_kind_and_sound_setting() {
    assert_eq!(notify_action(NotifyKind::Sound, "agent done", true), NotifyAction::PlaySound(Sound::Done));
    assert_eq!(notify_action(NotifyKind::Sound, "agent done", false), NotifyAction::Muted);
    assert_eq!(notify_action(NotifyKind::Sound, "beep", true), NotifyAction::UnknownSound);
    assert_eq!(notify_action(NotifyKind::Toast, "hello", false), NotifyAction::TerminalToast);
    assert_eq!(notify_action(NotifyKind::SystemToast, "a: b", true), NotifyAction::SystemToast);
}

#[test]
fn decode_clipboard_payload_decodes_base64() {
    assert_eq!(decode_clipboard_payload("dGVzdA=="), Some(b"test".to_vec()));
}

#[test]
fn decode_clipboard_payload_rejects_invalid_base64() {
    assert_eq!(decode_clipboard_payload("not-base64!!!"), None);
}

#[test]
fn decode_clipboard_payload_requires_canonical_padding() {
    assert_eq!(decode_clipboard_payload(""), Some(Vec::new()));
    assert_eq!(decode_clipboard_payload("aGVsbG8"), None);
    assert_eq!(decode_clipboard_payload("aGVsbG8="), Some(b"hello".to_vec()));
}

#[test]
fn toast_notify_from_server_is_emitted_even_when_attach_config_was_off() {
    assert_eq!(notify_action(NotifyKind::Toast, "pi finished", false), NotifyAction::TerminalToast);
}

#[test]
fn system_toast_notify_from_server_uses_system_notifier() {
    assert_eq!(notify_action(NotifyKind::SystemToast, "pi finished", false), NotifyAction::SystemToast);
}

#[test]
fn system_toast_notify_preserves_colon_in_title() {
    assert_eq!(notify_action(NotifyKind::SystemToast, "build: failed", true), NotifyAction::SystemToast);
}
