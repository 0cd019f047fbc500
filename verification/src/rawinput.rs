//! Recognition of the single raw terminal input events the client acts on: an SGR mouse report
//! and a page key, as a terminal writes them on stdin.

use vstd::prelude::*;

verus! {

/// An ASCII decimal digit byte.
pub open spec fn is_digit(b: u8) -> bool {
    48 <= b && b <= 57
}

/// The end of the run of digits that starts at `i`.
pub open spec fn run_end(s: Seq<u8>, i: int) -> int
    decreases s.len() - i,
{
    if 0 <= i < s.len() && is_digit(s[i]) {
        run_end(s, i + 1)
    } else {
        i
    }
}

/// The decimal value of a run of digits.
pub open spec fn digits_value(s: Seq<u8>) -> nat
    decreases s.len(),
{
    if s.len() == 0 {
        0
    } else {
        digits_value(s.drop_last()) * 10 + (s.last() - 48) as nat
    }
}

/// A decoded SGR mouse report `ESC [ < cb ; cx ; cy (M|m)`.
#[derive(Debug, Clone, Copy, PartialEq, Eq)]
pub struct SgrMouse {
    pub cb: u8,
    pub cx: u16,
    pub cy: u16,
    pub release: bool,
}

/// The field value of `s[a..b)` when it fits in `limit`.
pub open spec fn field_value(s: Seq<u8>, a: int, b: int, limit: nat) -> Option<nat> {
    let v = digits_value(s.subrange(a, b));
    if v <= limit { Some(v) } else { None }
}

/// `s` is exactly one SGR mouse report; its fields, each within the width the report allows.
pub open spec fn sgr_mouse(s: Seq<u8>) -> Option<SgrMouse> {
    if s.len() >= 3 && s[0] == 27 && s[1] == 91 && s[2] == 60 {
        let e1 = run_end(s, 3);
        if e1 > 3 && e1 < s.len() && s[e1] == 59 {
            let e2 = run_end(s, e1 + 1);
            if e2 > e1 + 1 && e2 < s.len() && s[e2] == 59 {
                let e3 = run_end(s, e2 + 1);
                if e3 > e2 + 1 && e3 == s.len() - 1 && (s[e3] == 77 || s[e3] == 109) {
                    match (field_value(s, 3, e1, 255), field_value(s, e1 + 1, e2, 65535),
                        field_value(s, e2 + 1, e3, 65535)) {
                        (Some(cb), Some(cx), Some(cy)) => Some(SgrMouse {
                            cb: cb as u8,
                            cx: cx as u16,
                            cy: cy as u16,
                            release: s[e3] == 109,
                        }),
                        _ => None,
                    }
                } else {
                    None
                }
            } else {
                None
            }
        } else {
            None
        }
    } else {
        None
    }
}

/// A decoded page key `ESC [ (5|6) [; mods [: event]] ~`.
#[derive(Debug, Clone, Copy, PartialEq, Eq)]
pub struct PageKey {
    /// Page Up (`5`) rather than Page Down (`6`).
    pub up: bool,
    /// The modifier parameter (1 when absent).
    pub modifier_param: u8,
    /// The event-type parameter (1 = press, 2 = repeat, 3 = release; 1 when absent).
    pub event_type: u8,
}

/// `s` is exactly one page-key sequence; its parameters.
pub open spec fn page_key(s: Seq<u8>) -> Option<PageKey> {
    if s.len() >= 4 && s[0] == 27 && s[1] == 91 && (s[2] == 53 || s[2] == 54) {
        let up = s[2] == 53;
        if s.len() == 4 && s[3] == 126 {
            Some(PageKey { up, modifier_param: 1, event_type: 1 })
        } else if s[3] == 59 {
            let e1 = run_end(s, 4);
            if e1 > 4 && e1 == s.len() - 1 && s[e1] == 126 {
                match field_value(s, 4, e1, 255) {
                    Some(m) => Some(PageKey { up, modifier_param: m as u8, event_type: 1 }),
                    None => None,
                }
            } else if e1 > 4 && e1 < s.len() && s[e1] == 58 {
                let e2 = run_end(s, e1 + 1);
                if e2 > e1 + 1 && e2 == s.len() - 1 && s[e2] == 126 {
                    match (field_value(s, 4, e1, 255), field_value(s, e1 + 1, e2, 255)) {
                        (Some(m), Some(t)) => Some(PageKey {
                            up,
                            modifier_param: m as u8,
                            event_type: t as u8,
                        }),
                        _ => None,
                    }
                } else {
                    None
                }
            } else {
                None
            }
        } else {
            None
        }
    } else {
        None
    }
}

/// A page key carries no modifier (shift, alt, control, super, hyper or meta).
pub open spec fn page_key_unmodified(k: PageKey) -> bool {
    k.modifier_param <= 1 || ((k.modifier_param - 1) as u8) & 63u8 == 0
}

/// End of the digit run starting at `i`.
pub fn digit_run_end(s: &[u8], i: usize) -> (r: usize)
    requires
        i <= s@.len(),
    ensures
        r as int == run_end(s@, i as int),
        i <= r <= s@.len(),
{
    let len: usize = s.len();
    let mut j: usize = i;
    while j < len && 48 <= s[j] && s[j] <= 57
        invariant
            len == s@.len(),
            i <= j <= len,
            run_end(s@, j as int) == run_end(s@, i as int),
        decreases len - j,
    {
        j = j + 1;
    }
    j
}

proof fn lemma_digits_value_step(s: Seq<u8>, a: int, k: int)
    requires
        0 <= a <= k < s.len(),
    ensures
        digits_value(s.subrange(a, k + 1)) == digits_value(s.subrange(a, k)) * 10 + (s[k] - 48) as nat,
{
    assert(s.subrange(a, k + 1).drop_last() =~= s.subrange(a, k));
}

proof fn lemma_digits_value_monotone(s: Seq<u8>, a: int, k: int, b: int)
    requires
        0 <= a <= k <= b <= s.len(),
        forall|j: int| a <= j < b ==> is_digit(#[trigger] s[j]),
    ensures
        digits_value(s.subrange(a, k)) <= digits_value(s.subrange(a, b)),
    decreases b - k,
{
    if k < b {
        lemma_digits_value_monotone(s, a, k, b - 1);
        lemma_digits_value_step(s, a, b - 1);
    }
}

/// The digit run starting at `i` ends within `s`, holds only digits, and stops at a non-digit.
pub(crate) proof fn lemma_run_digits(s: Seq<u8>, i: int)
    requires
        0 <= i <= s.len(),
    ensures
        i <= run_end(s, i) <= s.len(),
        forall|j: int| i <= j < run_end(s, i) ==> is_digit(#[trigger] s[j]),
        run_end(s, i) < s.len() ==> !is_digit(s[run_end(s, i)]),
    decreases s.len() - i,
{
    if i < s.len() && is_digit(s[i]) {
        lemma_run_digits(s, i + 1);
    }
}

/// The decimal value of the digits `s[a..b)` when it is at most `limit`.
pub fn parse_field(s: &[u8], a: usize, b: usize, limit: u32) -> (r: Option<u32>)
    requires
        a <= b <= s@.len(),
        forall|j: int| a <= j < b ==> is_digit(#[trigger] s@[j]),
    ensures
        match field_value(s@, a as int, b as int, limit as nat) {
            Some(v) => r == Some(v as u32),
            None => r is None,
        },
{
    let mut v: u64 = 0;
    let mut k: usize = a;
    while k < b
        invariant
            a <= k <= b <= s@.len(),
            forall|j: int| a <= j < b ==> is_digit(#[trigger] s@[j]),
            v as nat == digits_value(s@.subrange(a as int, k as int)),
            v <= limit,
        decreases b - k,
    {
        proof {
            lemma_digits_value_step(s@, a as int, k as int);
        }
        let d: u64 = (s[k] - 48) as u64;
        v = v * 10 + d;
        k = k + 1;
        if v > limit as u64 {
            proof {
                lemma_digits_value_monotone(s@, a as int, k as int, b as int);
            }
            return None;
        }
    }
    Some(v as u32)
}

/// Decode `s` as exactly one SGR mouse report.
pub fn parse_sgr_mouse(s: &[u8]) -> (r: Option<SgrMouse>)
    ensures
        r == sgr_mouse(s@),
{
    let len = s.len();
    if !(len >= 3 && s[0] == 27 && s[1] == 91 && s[2] == 60) {
        return None;
    }
    let e1 = digit_run_end(s, 3);
    proof { lemma_run_digits(s@, 3); }
    if !(e1 > 3 && e1 < len && s[e1] == 59) {
        return None;
    }
    let e2 = digit_run_end(s, e1 + 1);
    proof { lemma_run_digits(s@, e1 + 1); }
    if !(e2 > e1 + 1 && e2 < len && s[e2] == 59) {
        return None;
    }
    let e3 = digit_run_end(s, e2 + 1);
    proof { lemma_run_digits(s@, e2 + 1); }
    if !(e3 > e2 + 1 && e3 == len - 1 && (s[e3] == 77 || s[e3] == 109)) {
        return None;
    }
    let cb = parse_field(s, 3, e1, 255);
    let cx = parse_field(s, e1 + 1, e2, 65535);
    let cy = parse_field(s, e2 + 1, e3, 65535);
    match (cb, cx, cy) {
        (Some(cb), Some(cx), Some(cy)) => Some(SgrMouse {
            cb: cb as u8,
            cx: cx as u16,
            cy: cy as u16,
            release: s[e3] == 109,
        }),
        _ => None,
    }
}

/// Decode `s` as exactly one page-key sequence.
pub fn parse_page_key(s: &[u8]) -> (r: Option<PageKey>)
    ensures
        r == page_key(s@),
{
    let len = s.len();
    if !(len >= 4 && s[0] == 27 && s[1] == 91 && (s[2] == 53 || s[2] == 54)) {
        return None;
    }
    let up = s[2] == 53;
    if len == 4 && s[3] == 126 {
        return Some(PageKey { up, modifier_param: 1, event_type: 1 });
    }
    if s[3] != 59 {
        return None;
    }
    let e1 = digit_run_end(s, 4);
    proof { lemma_run_digits(s@, 4); }
    if e1 > 4 && e1 == len - 1 && s[e1] == 126 {
        return match parse_field(s, 4, e1, 255) {
            Some(m) => Some(PageKey { up, modifier_param: m as u8, event_type: 1 }),
            None => None,
        };
    }
    if !(e1 > 4 && e1 < len && s[e1] == 58) {
        return None;
    }
    let e2 = digit_run_end(s, e1 + 1);
    proof { lemma_run_digits(s@, e1 + 1); }
    if !(e2 > e1 + 1 && e2 == len - 1 && s[e2] == 126) {
        return None;
    }
    match (parse_field(s, 4, e1, 255), parse_field(s, e1 + 1, e2, 255)) {
        (Some(m), Some(t)) => Some(PageKey { up, modifier_param: m as u8, event_type: t as u8 }),
        _ => None,
    }
}

/// A mouse button.
#[derive(Debug, Clone, Copy, PartialEq, Eq)]
pub enum MouseButton {
    Left,
    Right,
    Middle,
}

/// What a mouse report describes.
#[derive(Debug, Clone, Copy, PartialEq, Eq)]
pub enum MouseEventKind {
    Down(MouseButton),
    Up(MouseButton),
    Drag(MouseButton),
    Moved,
    ScrollDown,
    ScrollUp,
    ScrollLeft,
    ScrollRight,
}

/// A decoded mouse event: 0-based cell position and modifier bits
/// (shift = 1, control = 2, alt = 4).
#[derive(Debug, Clone, Copy, PartialEq, Eq)]
pub struct MouseEvent {
    pub kind: MouseEventKind,
    pub column: u16,
    pub row: u16,
    pub modifiers: u8,
}

/// The button number a report's `cb` field encodes.
pub open spec fn button_number(cb: u8) -> u8 {
    (cb & 3u8) | ((cb & 192u8) >> 4u8)
}

/// The event kind a report's `cb` field encodes (`None` for unsupported buttons).
pub open spec fn cb_kind(cb: u8) -> Option<MouseEventKind> {
    let b = button_number(cb);
    let dragging = cb & 32u8 == 32u8;
    if b == 0 && !dragging { Some(MouseEventKind::Down(MouseButton::Left)) }
    else if b == 1 && !dragging { Some(MouseEventKind::Down(MouseButton::Middle)) }
    else if b == 2 && !dragging { Some(MouseEventKind::Down(MouseButton::Right)) }
    else if b == 0 && dragging { Some(MouseEventKind::Drag(MouseButton::Left)) }
    else if b == 1 && dragging { Some(MouseEventKind::Drag(MouseButton::Middle)) }
    else if b == 2 && dragging { Some(MouseEventKind::Drag(MouseButton::Right)) }
    else if b == 3 && !dragging { Some(MouseEventKind::Up(MouseButton::Left)) }
    else if (b == 3 || b == 4 || b == 5) && dragging { Some(MouseEventKind::Moved) }
    else if b == 4 { Some(MouseEventKind::ScrollUp) }
    else if b == 5 { Some(MouseEventKind::ScrollDown) }
    else if b == 6 && !dragging { Some(MouseEventKind::ScrollLeft) }
    else if b == 7 && !dragging { Some(MouseEventKind::ScrollRight) }
    else { None }
}

/// The modifier bits a report's `cb` field encodes.
pub open spec fn cb_modifiers(cb: u8) -> u8 {
    ((if cb & 4u8 == 4u8 { 1int } else { 0int }) + (if cb & 16u8 == 16u8 { 2int } else { 0int })
        + (if cb & 8u8 == 8u8 { 4int } else { 0int })) as u8
}

/// A 1-based report coordinate as a 0-based cell coordinate.
pub open spec fn zero_based(c: u16) -> u16 {
    if c == 0 { 65535 } else { (c - 1) as u16 }
}

/// The mouse event `s` encodes, when it is exactly one supported SGR mouse report.
pub open spec fn mouse_event(s: Seq<u8>) -> Option<MouseEvent> {
    match sgr_mouse(s) {
        Some(m) => match cb_kind(m.cb) {
            Some(kind) => Some(MouseEvent {
                kind: if m.release {
                    match kind {
                        MouseEventKind::Down(b) => MouseEventKind::Up(b),
                        other => other,
                    }
                } else {
                    kind
                },
                column: zero_based(m.cx),
                row: zero_based(m.cy),
                modifiers: cb_modifiers(m.cb),
            }),
            None => None,
        },
        None => None,
    }
}

/// Decode the event kind of a `cb` field.
pub fn decode_cb_kind(cb: u8) -> (r: Option<MouseEventKind>)
    ensures
        r == cb_kind(cb),
{
    let b: u8 = (cb & 3u8) | ((cb & 192u8) >> 4u8);
    let dragging = cb & 32u8 == 32u8;
    if b == 0 && !dragging { Some(MouseEventKind::Down(MouseButton::Left)) }
    else if b == 1 && !dragging { Some(MouseEventKind::Down(MouseButton::Middle)) }
    else if b == 2 && !dragging { Some(MouseEventKind::Down(MouseButton::Right)) }
    else if b == 0 && dragging { Some(MouseEventKind::Drag(MouseButton::Left)) }
    else if b == 1 && dragging { Some(MouseEventKind::Drag(MouseButton::Middle)) }
    else if b == 2 && dragging { Some(MouseEventKind::Drag(MouseButton::Right)) }
    else if b == 3 && !dragging { Some(MouseEventKind::Up(MouseButton::Left)) }
    else if (b == 3 || b == 4 || b == 5) && dragging { Some(MouseEventKind::Moved) }
    else if b == 4 { Some(MouseEventKind::ScrollUp) }
    else if b == 5 { Some(MouseEventKind::ScrollDown) }
    else if b == 6 && !dragging { Some(MouseEventKind::ScrollLeft) }
    else if b == 7 && !dragging { Some(MouseEventKind::ScrollRight) }
    else { None }
}

/// Decode `s` as exactly one mouse event.
pub fn parse_mouse_event(s: &[u8]) -> (r: Option<MouseEvent>)
    ensures
        r == mouse_event(s@),
{
    let m = match parse_sgr_mouse(s) {
        Some(m) => m,
        None => return None,
    };
    let kind = match decode_cb_kind(m.cb) {
        Some(k) => k,
        None => return None,
    };
    let kind = if m.release {
        match kind {
            MouseEventKind::Down(b) => MouseEventKind::Up(b),
            other => other,
        }
    } else {
        kind
    };
    let cb = m.cb;
    let modifiers: u8 = (if cb & 4u8 == 4u8 { 1u8 } else { 0u8 }) + (if cb & 16u8 == 16u8 { 2u8 } else { 0u8 })
        + (if cb & 8u8 == 8u8 { 4u8 } else { 0u8 });
    let column: u16 = if m.cx == 0 { 65535 } else { m.cx - 1 };
    let row: u16 = if m.cy == 0 { 65535 } else { m.cy - 1 };
    Some(MouseEvent { kind, column, row, modifiers })
}


/// The button code of a mouse event kind in an SGR report (before modifiers).
pub open spec fn sgr_button_code(kind: MouseEventKind) -> u8 {
    let button = |b: MouseButton| -> u8 {
        match b {
            MouseButton::Left => 0u8,
            MouseButton::Middle => 1u8,
            MouseButton::Right => 2u8,
        }
    };
    match kind {
        MouseEventKind::Down(b) => button(b),
        MouseEventKind::Up(b) => button(b),
        MouseEventKind::Drag(b) => (button(b) + 32) as u8,
        MouseEventKind::Moved => 35u8,
        MouseEventKind::ScrollUp => 64u8,
        MouseEventKind::ScrollDown => 65u8,
        MouseEventKind::ScrollLeft => 66u8,
        MouseEventKind::ScrollRight => 67u8,
    }
}

/// The modifier bits of an SGR report: shift 4, alt 8, control 16.
pub open spec fn sgr_modifier_bits(modifiers: u8) -> u8 {
    ((if modifiers & 1u8 == 1u8 { 4int } else { 0int }) + (if modifiers & 4u8 == 4u8 { 8int } else { 0int })
        + (if modifiers & 2u8 == 2u8 { 16int } else { 0int })) as u8
}

/// The SGR mouse report (`ESC [ < cb ; x ; y M`, `m` for a release) of an event at the 0-based
/// cell (`column`, `row`).
pub open spec fn sgr_report(kind: MouseEventKind, column: u16, row: u16, modifiers: u8) -> Seq<u8> {
    seq![27u8, 91u8, 60u8] + crate::graphics::decimal_ascii((sgr_button_code(kind) + sgr_modifier_bits(modifiers)) as nat)
        + seq![59u8] + crate::graphics::decimal_ascii(column as nat + 1) + seq![59u8]
        + crate::graphics::decimal_ascii(row as nat + 1) + seq![if kind is Up { 109u8 } else { 77u8 }]
}

/// Encode a mouse event at the 0-based cell (`column`, `row`) as an SGR mouse report.
pub fn encode_sgr_mouse(kind: MouseEventKind, column: u16, row: u16, modifiers: u8) -> (r: Vec<u8>)
    ensures
        r@ == sgr_report(kind, column, row, modifiers),
{
    let button: u8 = match kind {
        MouseEventKind::Down(b) | MouseEventKind::Up(b) | MouseEventKind::Drag(b) => {
            let base: u8 = match b {
                MouseButton::Left => 0,
                MouseButton::Middle => 1,
                MouseButton::Right => 2,
            };
            match kind {
                MouseEventKind::Drag(_) => base + 32,
                _ => base,
            }
        },
        MouseEventKind::Moved => 35,
        MouseEventKind::ScrollUp => 64,
        MouseEventKind::ScrollDown => 65,
        MouseEventKind::ScrollLeft => 66,
        MouseEventKind::ScrollRight => 67,
    };
    let bits: u8 = (if modifiers & 1u8 == 1u8 { 4u8 } else { 0u8 }) + (if modifiers & 4u8 == 4u8 { 8u8 } else { 0u8 })
        + (if modifiers & 2u8 == 2u8 { 16u8 } else { 0u8 });
    let mut out: Vec<u8> = Vec::new();
    out.push(27u8);
    out.push(91u8);
    out.push(60u8);
    crate::graphics::push_decimal(&mut out, (button + bits) as u64);
    out.push(59u8);
    crate::graphics::push_decimal(&mut out, column as u64 + 1);
    out.push(59u8);
    crate::graphics::push_decimal(&mut out, row as u64 + 1);
    let release = match kind {
        MouseEventKind::Up(_) => true,
        _ => false,
    };
    out.push(if release { 109u8 } else { 77u8 });
    assert(out@ =~= sgr_report(kind, column, row, modifiers));
    out
}

} // verus!
