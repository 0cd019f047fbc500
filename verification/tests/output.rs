use herdr_client::graphics::{
    KittyGraphicsLedger, contains_kitty_graphics_bytes, encoded_frame_with_graphics, find_subslice,
    kitty_delete_commands, kitty_graphics_command_image_id, kitty_graphics_image_ids,
};
use herdr_client::terminal::{
    FrameSizeLimits, cell_size_fallback, current_terminal_geometry, host_cell_size_query,
    host_cell_size_query_required, initial_terminal_geometry, ioctl_cell_size, pack_cell_size,
    server_frame_size_cap, should_query_host_cell_size, should_query_host_terminal_theme,
    store_reported_cell_size, terminal_restore_postlude, unpack_cell_size,
};

#[test]
fn graphics_bytes_are_written_inside_synchronized_blit_with_saved_cursor() {
    let output = encoded_frame_with_graphics(b"\x1b[?2026htext\x1b[?2026lcursor", b"graphics");
    assert_eq!(output, b"\x1b[?2026htext\x1b7graphics\x1b8\x1b[?2026lcursor");
}

#[test]
fn empty_graphics_writes_only_blit_frame() {
    let output = encoded_frame_with_graphics(b"text", b"");
    assert_eq!(output, b"text");
}

#[test]
fn graphics_go_after_a_frame_without_synchronized_update() {
    assert_eq!(encoded_frame_with_graphics(b"text", b"g"), b"text\x1b7g\x1b8");
    assert_eq!(
        encoded_frame_with_graphics(b"a\x1b[?2026lb\x1b[?2026lc", b"g"),
        b"a\x1b[?2026lb\x1b7g\x1b8\x1b[?2026lc"
    );
}

#[test]
fn terminal_frame_kitty_detection_matches_apc_prefix() {
    assert!(contains_kitty_graphics_bytes(b"text\x1b_Ga=p;\x1b\\"));
    assert!(!contains_kitty_graphics_bytes(b"text\x1b[?2026h"));
}

#[test]
fn kitty_graphics_image_id_parser_tracks_herdr_ids_only() {
    let ids = kitty_graphics_image_ids(
        b"text\x1b_Ga=t,t=d,f=32,s=1,v=1,i=10023,q=2;AAAA\x1b\\\x1b_Ga=p,i=10023,p=7;\x1b\\",
    );
    assert_eq!(ids, vec![10023, 10023]);
}

#[test]
fn kitty_graphics_command_image_id_reads_the_header_only() {
    assert_eq!(kitty_graphics_command_image_id(b"a=t,i=42,q=2;i=7"), Some(42));
    assert_eq!(kitty_graphics_command_image_id(b"a=t,q=2;i=7"), None);
    assert_eq!(kitty_graphics_command_image_id(b"i=x,i=9"), Some(9));
    assert_eq!(kitty_graphics_command_image_id(b"i=4294967296"), None);
    assert_eq!(kitty_graphics_image_ids(b"\x1b_Ga=t,i=5;unterminated"), Vec::<u32>::new());
}

#[test]
fn find_subslice_finds_first_occurrence() {
    assert_eq!(find_subslice(b"abcabc", b"bc"), Some(1));
    assert_eq!(find_subslice(b"abc", b""), None);
    assert_eq!(find_subslice(b"ab", b"abc"), None);
    assert_eq!(find_subslice(b"abc", b"x"), None);
}

#[test]
fn kitty_graphics_cleanup_deletes_tracked_images_not_all_images() {
    let mut ledger = KittyGraphicsLedger::new();
    ledger.record_received_kitty_graphics(b"\x1b_Ga=t,i=123,q=2;AAAA\x1b\\");
    let output = ledger.clear_received_kitty_graphics();
    let text = String::from_utf8(output).unwrap();
    assert!(text.contains("a=d,d=I,i=123"));
    assert!(!text.contains("d=A"));
    assert!(ledger.clear_received_kitty_graphics().is_empty());
}

#[test]
fn kitty_ledger_records_each_image_once() {
    let mut ledger = KittyGraphicsLedger::new();
    let frame = ledger.write_encoded_frame_with_graphics(
        b"text",
        b"\x1b_Ga=t,i=7;A\x1b\\\x1b_Ga=p,i=7;\x1b\\\x1b_Ga=t,i=8;B\x1b\\",
    );
    assert!(frame.starts_with(b"text\x1b7"));
    ledger.record_received_kitty_graphics(b"\x1b_Ga=p,i=8;\x1b\\");
    assert_eq!(ledger.clear_received_kitty_graphics(), kitty_delete_commands(&[7, 8]));
    assert_eq!(
        kitty_delete_commands(&[7]),
        b"\x1b_Ga=d,d=I,i=7,q=2;\x1b\\".to_vec()
    );
}

#[test]
fn host_terminal_theme_query_is_disabled_on_windows() {
    let on_windows = std::path::MAIN_SEPARATOR == '\\';
    assert_eq!(should_query_host_terminal_theme(on_windows), !on_windows);
    assert!(!should_query_host_terminal_theme(true));
    assert!(should_query_host_cell_size(false));
}

#[test]
fn terminal_restore_postlude_restores_visible_default_cursor() {
    assert_eq!(terminal_restore_postlude(), b"\x1b[?25h\x1b[0 q");
}

#[test]
fn host_cell_size_query_is_xtwinops_sixteen() {
    assert_eq!(host_cell_size_query(), b"\x1b[16t");
    assert!(host_cell_size_query_required(true, false, false));
    assert!(!host_cell_size_query_required(true, false, true));
    assert!(!host_cell_size_query_required(false, false, false));
    assert!(!host_cell_size_query_required(true, true, false));
}

#[test]
fn cell_size_packs_into_one_word_and_back() {
    let packed = pack_cell_size(9, 18);
    assert_eq!(packed, (9u64 << 32) | 18);
    assert_eq!(unpack_cell_size(packed), Some((9, 18)));
    assert_eq!(unpack_cell_size(pack_cell_size(0, 18)), None);
    assert_eq!(unpack_cell_size(0), None);
    assert_eq!(cell_size_fallback(0), (8, 16));
    assert_eq!(cell_size_fallback(packed), (9, 18));
    assert_eq!(store_reported_cell_size(0, 9, 18), (packed, true));
    assert_eq!(store_reported_cell_size(packed, 9, 18), (packed, false));
}

#[test]
fn terminal_geometry_reports_pixels_only_for_graphics() {
    assert_eq!(ioctl_cell_size(80, 24, 640, 384), Some((8, 16)));
    assert_eq!(ioctl_cell_size(80, 24, 0, 384), None);
    assert_eq!(ioctl_cell_size(80, 24, 40, 12), Some((1, 1)));
    assert_eq!(initial_terminal_geometry(false, Some((100, 30)), Some((8, 16))), (100, 30, 0, 0));
    assert_eq!(initial_terminal_geometry(true, None, None), (80, 24, 8, 16));
    assert_eq!(initial_terminal_geometry(true, Some((100, 30)), Some((7, 14))), (100, 30, 7, 14));
    assert_eq!(
        current_terminal_geometry(true, Some((100, 30)), None, pack_cell_size(10, 20)),
        (100, 30, 10, 20)
    );
}

#[test]
fn frame_size_cap_grows_for_graphics() {
    let limits = FrameSizeLimits { frame: 1 << 20, graphics_frame: 1 << 26 };
    assert_eq!(server_frame_size_cap(false, &limits), 1 << 20);
    assert_eq!(server_frame_size_cap(true, &limits), 1 << 26);
}
