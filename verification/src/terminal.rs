//! The host terminal: its geometry and pixel cell size, the queries the client sends it, and
//! the bytes that restore it.

use vstd::prelude::*;

verus! {

/// Cell width assumed when neither the size ioctl nor the host terminal reports pixels.
pub const DEFAULT_CELL_WIDTH_PX: u32 = 8;

/// Cell height assumed when neither the size ioctl nor the host terminal reports pixels.
pub const DEFAULT_CELL_HEIGHT_PX: u32 = 16;

/// Host terminal size assumed when it cannot be read.
pub const DEFAULT_TERMINAL_COLS: u16 = 80;

/// Host terminal rows assumed when they cannot be read.
pub const DEFAULT_TERMINAL_ROWS: u16 = 24;

/// Two cell dimensions packed into one word: the width in the high half, the height in the low.
pub open spec fn packed_cell_size(width_px: u32, height_px: u32) -> u64 {
    (width_px as int * 0x1_0000_0000 + height_px as int) as u64
}

/// The cell size a packed word holds, `None` when either half is zero.
pub open spec fn unpacked_cell_size(packed: u64) -> Option<(u32, u32)> {
    let w = (packed as int / 0x1_0000_0000) as u32;
    let h = (packed as int % 0x1_0000_0000) as u32;
    if w > 0 && h > 0 { Some((w, h)) } else { None }
}

/// Pack a cell size into one word.
pub fn pack_cell_size(width_px: u32, height_px: u32) -> (r: u64)
    ensures
        r == packed_cell_size(width_px, height_px),
{
    let w: u64 = width_px as u64;
    let h: u64 = height_px as u64;
    let r: u64 = (w << 32u64) | h;
    assert(r == w * 0x1_0000_0000u64 + h) by (bit_vector)
        requires
            w <= 0xFFFF_FFFFu64,
            h <= 0xFFFF_FFFFu64,
            r == (w << 32u64) | h;
    assert(w * 0x1_0000_0000u64 + h == w as int * 0x1_0000_0000 + h as int) by (nonlinear_arith)
        requires
            w <= 0xFFFF_FFFFu64,
            h <= 0xFFFF_FFFFu64;
    r
}

/// The cell size a packed word holds, `None` when either half is zero.
pub fn unpack_cell_size(packed: u64) -> (r: Option<(u32, u32)>)
    ensures
        r == unpacked_cell_size(packed),
{
    let hi: u64 = packed >> 32u64;
    let lo: u64 = packed & 0xFFFF_FFFFu64;
    assert(hi == packed / 0x1_0000_0000u64 && lo == packed % 0x1_0000_0000u64) by (bit_vector)
        requires
            hi == packed >> 32u64,
            lo == packed & 0xFFFF_FFFFu64;
    let width_px: u32 = hi as u32;
    let height_px: u32 = lo as u32;
    if width_px > 0 && height_px > 0 {
        Some((width_px, height_px))
    } else {
        None
    }
}

/// Packing and unpacking a cell size gives it back, unless a dimension is zero.
pub proof fn lemma_cell_size_roundtrip(width_px: u32, height_px: u32)
    ensures
        unpacked_cell_size(packed_cell_size(width_px, height_px)) == if width_px > 0 && height_px > 0 {
            Some((width_px, height_px))
        } else {
            None::<(u32, u32)>
        },
{
    let p = width_px as int * 0x1_0000_0000 + height_px as int;
    assert(0 <= p < 0x1_0000_0000_0000_0000) by (nonlinear_arith)
        requires
            p == width_px as int * 0x1_0000_0000 + height_px as int,
            0 <= width_px <= 0xFFFF_FFFF,
            0 <= height_px <= 0xFFFF_FFFF;
    vstd::arithmetic::div_mod::lemma_fundamental_div_mod_converse(p, 0x1_0000_0000, width_px as int, height_px as int);
}

/// The cell size of the last host report, or the default when none was stored.
pub open spec fn fallback_cell_size(reported: u64) -> (u32, u32) {
    match unpacked_cell_size(reported) {
        Some(size) => size,
        None => (DEFAULT_CELL_WIDTH_PX, DEFAULT_CELL_HEIGHT_PX),
    }
}

/// Cell size used when the size ioctl reports no pixels: the host's last report, else the default.
pub fn cell_size_fallback(reported: u64) -> (r: (u32, u32))
    ensures
        r == fallback_cell_size(reported),
{
    match unpack_cell_size(reported) {
        Some(size) => size,
        None => (DEFAULT_CELL_WIDTH_PX, DEFAULT_CELL_HEIGHT_PX),
    }
}

/// The pixel cell size a terminal size report gives: pixels per column and per row (at least
/// one), `None` when any of the four numbers is zero.
pub open spec fn window_cell_size(columns: u16, rows: u16, width: u16, height: u16) -> Option<(u32, u32)> {
    if columns == 0 || rows == 0 || width == 0 || height == 0 {
        None
    } else {
        let w = width as int / columns as int;
        let h = height as int / rows as int;
        Some(((if w < 1 { 1 } else { w }) as u32, (if h < 1 { 1 } else { h }) as u32))
    }
}

/// The pixel cell size of a terminal size report (columns, rows, pixel width, pixel height).
pub fn ioctl_cell_size(columns: u16, rows: u16, width: u16, height: u16) -> (r: Option<(u32, u32)>)
    ensures
        r == window_cell_size(columns, rows, width, height),
{
    if columns == 0 || rows == 0 || width == 0 || height == 0 {
        return None;
    }
    let w: u32 = width as u32 / columns as u32;
    let h: u32 = height as u32 / rows as u32;
    Some((if w < 1 { 1 } else { w }, if h < 1 { 1 } else { h }))
}

/// The terminal geometry the client reports: the terminal size (80x24 when it cannot be read),
/// and, only with pane graphics on, the pixel cell size from the size ioctl, else from the last
/// host report, else the default.
pub open spec fn geometry(kitty_graphics_enabled: bool, size: Option<(u16, u16)>, ioctl_cell: Option<(u32, u32)>, reported: u64) -> (u16, u16, u32, u32) {
    let (cols, rows) = match size {
        Some(s) => s,
        None => (DEFAULT_TERMINAL_COLS, DEFAULT_TERMINAL_ROWS),
    };
    if !kitty_graphics_enabled {
        (cols, rows, 0, 0)
    } else {
        let (w, h) = match ioctl_cell {
            Some(c) => c,
            None => fallback_cell_size(reported),
        };
        (cols, rows, w, h)
    }
}

/// The terminal geometry from what the terminal reported (see `geometry`).
pub fn current_terminal_geometry(
    kitty_graphics_enabled: bool,
    size: Option<(u16, u16)>,
    ioctl_cell: Option<(u32, u32)>,
    reported_cell_size: u64,
) -> (r: (u16, u16, u32, u32))
    ensures
        r == geometry(kitty_graphics_enabled, size, ioctl_cell, reported_cell_size),
{
    let (cols, rows) = match size {
        Some(s) => s,
        None => (DEFAULT_TERMINAL_COLS, DEFAULT_TERMINAL_ROWS),
    };
    if !kitty_graphics_enabled {
        return (cols, rows, 0, 0);
    }
    let (w, h) = match ioctl_cell {
        Some(c) => c,
        None => cell_size_fallback(reported_cell_size),
    };
    (cols, rows, w, h)
}

/// The geometry read before the handshake, before any host cell size report can exist.
pub fn initial_terminal_geometry(kitty_graphics_enabled: bool, size: Option<(u16, u16)>, ioctl_cell: Option<(u32, u32)>) -> (r: (u16, u16, u32, u32))
    ensures
        r == geometry(kitty_graphics_enabled, size, ioctl_cell, 0),
{
    current_terminal_geometry(kitty_graphics_enabled, size, ioctl_cell, 0)
}

/// Store a host cell size report over the previous packed one: the new packed word, and
/// whether it differs from the previous.
pub fn store_reported_cell_size(previous: u64, width_px: u32, height_px: u32) -> (r: (u64, bool))
    ensures
        r.0 == packed_cell_size(width_px, height_px),
        r.1 == (previous != packed_cell_size(width_px, height_px)),
{
    let packed = pack_cell_size(width_px, height_px);
    (packed, previous != packed)
}

/// The host terminal theme is queried everywhere but on Windows.
pub fn should_query_host_terminal_theme(on_windows: bool) -> (r: bool)
    ensures
        r == !on_windows,
{
    !on_windows
}

/// The host cell size is queried everywhere but on Windows.
pub fn should_query_host_cell_size(on_windows: bool) -> (r: bool)
    ensures
        r == !on_windows,
{
    !on_windows
}

/// The host is asked for its cell size only when pane graphics need pixels, the platform
/// supports the query, and the size ioctl gives none.
pub fn host_cell_size_query_required(kitty_graphics_enabled: bool, on_windows: bool, ioctl_reports_pixels: bool) -> (r: bool)
    ensures
        r == (kitty_graphics_enabled && !on_windows && !ioctl_reports_pixels),
{
    kitty_graphics_enabled && should_query_host_cell_size(on_windows) && !ioctl_reports_pixels
}

/// The XTWINOPS request for the host cell size in pixels: ESC [ 1 6 t.
pub open spec fn cell_size_query() -> Seq<u8> {
    seq![0x1bu8, 0x5bu8, 0x31u8, 0x36u8, 0x74u8]
}

/// The bytes that ask the host terminal for its cell size.
pub fn host_cell_size_query() -> (r: Vec<u8>)
    ensures
        r@ == cell_size_query(),
{
    let r: Vec<u8> = vec![0x1bu8, 0x5bu8, 0x31u8, 0x36u8, 0x74u8];
    assert(r@ =~= cell_size_query());
    r
}

/// Show the cursor and reset its shape to the terminal default: ESC [ ? 2 5 h ESC [ 0 SP q.
pub open spec fn restore_postlude() -> Seq<u8> {
    seq![0x1bu8, 0x5bu8, 0x3fu8, 0x32u8, 0x35u8, 0x68u8, 0x1bu8, 0x5bu8, 0x30u8, 0x20u8, 0x71u8]
}

/// The bytes written last when the terminal is restored.
pub fn terminal_restore_postlude() -> (r: Vec<u8>)
    ensures
        r@ == restore_postlude(),
{
    let r: Vec<u8> = vec![0x1bu8, 0x5bu8, 0x3fu8, 0x32u8, 0x35u8, 0x68u8, 0x1bu8, 0x5bu8, 0x30u8, 0x20u8, 0x71u8];
    assert(r@ =~= restore_postlude());
    r
}

/// The frame size limits of the wire protocol.
#[derive(Debug, Clone, Copy, PartialEq, Eq)]
pub struct FrameSizeLimits {
    /// The largest frame of a stream without pane graphics.
    pub frame: usize,
    /// The largest frame of a stream that carries pane graphics.
    pub graphics_frame: usize,
}

/// The framing cap of a server reader: graphics frames embed image bytes, so with pane
/// graphics on every reader takes the larger cap.
pub fn server_frame_size_cap(kitty_graphics_enabled: bool, limits: &FrameSizeLimits) -> (r: usize)
    ensures
        r == if kitty_graphics_enabled { limits.graphics_frame } else { limits.frame },
{
    if kitty_graphics_enabled {
        limits.graphics_frame
    } else {
        limits.frame
    }
}

} // verus!
