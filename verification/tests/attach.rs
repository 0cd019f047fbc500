use herdr_client::attach::{AttachEscapeState, AttachInputAction, AttachScrollDirection, AttachScrollSource};

#[test]
fn attach_escape_detaches_on_prefix_q() {
    let mut escape = AttachEscapeState::default();
    assert!(matches!(escape.filter_input(vec![0x02], 24, 3), AttachInputAction::NoAction));
    assert!(matches!(escape.filter_input(vec![b'q'], 24, 3), AttachInputAction::Detach));
}

#[test]
fn attach_escape_sends_literal_prefix_on_double_prefix() {
    let mut escape = AttachEscapeState::default();
    assert!(matches!(escape.filter_input(vec![0x02], 24, 3), AttachInputAction::NoAction));
    match escape.filter_input(vec![0x02], 24, 3) {
        AttachInputAction::Forward(bytes) => assert_eq!(bytes, vec![0x02]),
        other => panic!("expected forwarded prefix, got {other:?}"),
    }
}

#[test]
fn attach_escape_forwards_prefix_before_non_escape_key() {
    let mut escape = AttachEscapeState::default();
    assert!(matches!(
        escape.filter_input(vec![b'a', 0x02], 24, 3),
        AttachInputAction::Forward(bytes) if bytes == b"a"
    ));
    match escape.filter_input(vec![b'x'], 24, 3) {
        AttachInputAction::Forward(bytes) => assert_eq!(bytes, vec![0x02, b'x']),
        other => panic!("expected forwarded bytes, got {other:?}"),
    }
}

#[test]
fn attach_escape_turns_wheel_into_scroll_action() {
    let mut escape = AttachEscapeState::default();
    match escape.filter_input(b"\x1b[<64;11;6M".to_vec(), 24, 7) {
        AttachInputAction::Scroll { source, direction, lines, column, row, .. } => {
            assert_eq!(source, AttachScrollSource::Wheel);
            assert_eq!(direction, AttachScrollDirection::Up);
            assert_eq!(lines, 7);
            assert_eq!(column, Some(10));
            assert_eq!(row, Some(5));
        }
        other => panic!("expected scroll action, got {other:?}"),
    }
}

#[test]
fn attach_escape_swallows_non_wheel_mouse_reports() {
    let mut escape = AttachEscapeState::default();
    assert!(matches!(
        escape.filter_input(b"\x1b[<0;11;6M".to_vec(), 24, 7),
        AttachInputAction::NoAction
    ));
}

#[test]
fn attach_escape_turns_plain_page_keys_into_scroll_actions() {
    let mut escape = AttachEscapeState::default();
    match escape.filter_input(b"\x1b[5~".to_vec(), 12, 3) {
        AttachInputAction::Scroll { source, direction, lines, .. } => {
            assert_eq!(source, AttachScrollSource::PageKey { input: b"\x1b[5~".to_vec() });
            assert_eq!(direction, AttachScrollDirection::Up);
            assert_eq!(lines, 11);
        }
        other => panic!("expected page-up scroll action, got {other:?}"),
    }
    match escape.filter_input(b"\x1b[6~".to_vec(), 12, 3) {
        AttachInputAction::Scroll { source, direction, lines, .. } => {
            assert_eq!(source, AttachScrollSource::PageKey { input: b"\x1b[6~".to_vec() });
            assert_eq!(direction, AttachScrollDirection::Down);
            assert_eq!(lines, 11);
        }
        other => panic!("expected page-down scroll action, got {other:?}"),
    }
}

#[test]
fn attach_escape_forwards_modified_page_key() {
    let mut escape = AttachEscapeState::default();
    match escape.filter_input(b"\x1b[5;5~".to_vec(), 12, 3) {
        AttachInputAction::Forward(bytes) => assert_eq!(bytes, b"\x1b[5;5~"),
        other => panic!("expected modified page key to forward, got {other:?}"),
    }
}

#[test]
fn attach_escape_prefix_split_across_reads_matches_one_read() {
    let mut split = AttachEscapeState::default();
    let first = split.filter_input(vec![b'a', 0x02], 24, 3);
    let second = split.filter_input(vec![b'b', b'c'], 24, 3);
    assert_eq!(first, AttachInputAction::Forward(vec![b'a']));
    assert_eq!(second, AttachInputAction::Forward(vec![0x02, b'b', b'c']));

    let mut whole = AttachEscapeState::default();
    assert_eq!(
        whole.filter_input(vec![b'a', 0x02, b'b', b'c'], 24, 3),
        AttachInputAction::Forward(vec![b'a', 0x02, b'b', b'c'])
    );
    assert_eq!(split, whole);
}

#[test]
fn attach_escape_passes_plain_bytes_through() {
    let mut escape = AttachEscapeState::default();
    assert_eq!(
        escape.filter_input(b"ls -la\r".to_vec(), 24, 3),
        AttachInputAction::Forward(b"ls -la\r".to_vec())
    );
    assert!(!escape.pending_prefix);
    assert_eq!(escape.filter_input(Vec::new(), 24, 3), AttachInputAction::NoAction);
}

#[test]
fn attach_escape_wheel_lines_are_at_least_one() {
    let mut escape = AttachEscapeState::default();
    match escape.filter_input(b"\x1b[<65;1;1M".to_vec(), 24, 0) {
        AttachInputAction::Scroll { direction, lines, column, row, .. } => {
            assert_eq!(direction, AttachScrollDirection::Down);
            assert_eq!(lines, 1);
            assert_eq!(column, Some(0));
            assert_eq!(row, Some(0));
        }
        other => panic!("expected scroll action, got {other:?}"),
    }
}
