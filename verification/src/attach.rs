//! Direct terminal attach: the Ctrl+B escape prefix and wheel / page-key scrolling.

use vstd::prelude::*;
use crate::rawinput::{
    mouse_event, page_key, page_key_unmodified, parse_mouse_event, parse_page_key, MouseEventKind, PageKey, run_end,
    sgr_mouse,
};

verus! {

/// The escape prefix byte (Ctrl+B).
pub const ATTACH_PREFIX: u8 = 2;

/// What produced a scroll request.
#[derive(Debug, Clone, PartialEq, Eq)]
pub enum AttachScrollSource {
    Wheel,
    PageKey { input: Vec<u8> },
}

/// Which way to scroll.
#[derive(Debug, Clone, Copy, PartialEq, Eq)]
pub enum AttachScrollDirection {
    Up,
    Down,
}

/// What the attach client does with one chunk of input.
#[derive(Debug, Clone, PartialEq, Eq)]
pub enum AttachInputAction {
    Forward(Vec<u8>),
    Scroll {
        source: AttachScrollSource,
        direction: AttachScrollDirection,
        lines: u16,
        column: Option<u16>,
        row: Option<u16>,
        modifiers: u8,
    },
    Detach,
    NoAction,
}

/// Abstract form of [`AttachInputAction`].
pub enum AttachActionView {
    Forward(Seq<u8>),
    /// `page_input` holds the page-key bytes, `None` for a wheel notch.
    Scroll {
        page_input: Option<Seq<u8>>,
        up: bool,
        lines: u16,
        column: Option<u16>,
        row: Option<u16>,
        modifiers: u8,
    },
    Detach,
    Nothing,
}

impl View for AttachInputAction {
    type V = AttachActionView;

    open spec fn view(&self) -> AttachActionView {
        match self {
            AttachInputAction::Forward(bytes) => AttachActionView::Forward(bytes@),
            AttachInputAction::Scroll { source, direction, lines, column, row, modifiers } =>
                AttachActionView::Scroll {
                    page_input: match source {
                        AttachScrollSource::Wheel => None,
                        AttachScrollSource::PageKey { input } => Some(input@),
                    },
                    up: *direction == AttachScrollDirection::Up,
                    lines: *lines,
                    column: *column,
                    row: *row,
                    modifiers: *modifiers,
                },
            AttachInputAction::Detach => AttachActionView::Detach,
            AttachInputAction::NoAction => AttachActionView::Nothing,
        }
    }
}

/// Rows one wheel notch scrolls: the configured count, at least 1, at most `u16::MAX`.
pub open spec fn wheel_lines(mouse_scroll_lines: usize) -> u16 {
    if mouse_scroll_lines == 0 { 1 } else if mouse_scroll_lines > 65535 { 65535 } else { mouse_scroll_lines as u16 }
}

/// Rows one page key scrolls: the viewport less one row, at least 1.
pub open spec fn page_lines(viewport_rows: u16) -> u16 {
    if viewport_rows <= 1 { 1 } else { (viewport_rows - 1) as u16 }
}

/// The scroll handling of one input chunk: `Some` when the chunk is a single mouse report or a
/// single unmodified page key (swallowed or turned into a scroll), `None` when it is forwarded.
pub open spec fn scroll_action(data: Seq<u8>, viewport_rows: u16, mouse_scroll_lines: usize) -> Option<AttachActionView> {
    match mouse_event(data) {
        Some(m) => Some(
            if m.kind == MouseEventKind::ScrollUp || m.kind == MouseEventKind::ScrollDown {
                AttachActionView::Scroll {
                    page_input: None,
                    up: m.kind == MouseEventKind::ScrollUp,
                    lines: wheel_lines(mouse_scroll_lines),
                    column: Some(m.column),
                    row: Some(m.row),
                    modifiers: m.modifiers,
                }
            } else {
                AttachActionView::Nothing
            },
        ),
        None => match page_key(data) {
            Some(k) => if !page_key_unmodified(k) {
                None
            } else if k.event_type == 3 {
                Some(AttachActionView::Nothing)
            } else {
                Some(AttachActionView::Scroll {
                    page_input: Some(data),
                    up: k.up,
                    lines: page_lines(viewport_rows),
                    column: None,
                    row: None,
                    modifiers: 0,
                })
            },
            None => None,
        },
    }
}

/// Turn a single wheel notch or unmodified page key into a scroll request.
pub fn attach_scroll_action(data: &[u8], viewport_rows: u16, mouse_scroll_lines: usize) -> (r: Option<AttachInputAction>)
    ensures
        match r {
            Some(a) => scroll_action(data@, viewport_rows, mouse_scroll_lines) == Some(a@),
            None => scroll_action(data@, viewport_rows, mouse_scroll_lines) is None,
        },
{
    if let Some(m) = parse_mouse_event(data) {
        let direction = match m.kind {
            MouseEventKind::ScrollUp => AttachScrollDirection::Up,
            MouseEventKind::ScrollDown => AttachScrollDirection::Down,
            _ => return Some(AttachInputAction::NoAction),
        };
        let lines: u16 = if mouse_scroll_lines == 0 {
            1
        } else if mouse_scroll_lines > 65535 {
            65535
        } else {
            mouse_scroll_lines as u16
        };
        return Some(AttachInputAction::Scroll {
            source: AttachScrollSource::Wheel,
            direction,
            lines,
            column: Some(m.column),
            row: Some(m.row),
            modifiers: m.modifiers,
        });
    }
    match parse_page_key(data) {
        Some(k) => {
            let unmodified = k.modifier_param <= 1 || (k.modifier_param - 1) & 63u8 == 0;
            if !unmodified {
                None
            } else if k.event_type == 3 {
                Some(AttachInputAction::NoAction)
            } else {
                let lines: u16 = if viewport_rows <= 1 { 1 } else { viewport_rows - 1 };
                let mut input: Vec<u8> = Vec::new();
                let mut i: usize = 0;
                while i < data.len()
                    invariant
                        i <= data@.len(),
                        input@ == data@.subrange(0, i as int),
                    decreases data@.len() - i,
                {
                    input.push(data[i]);
                    i = i + 1;
                    assert(input@ =~= data@.subrange(0, i as int));
                }
                assert(input@ =~= data@);
                Some(AttachInputAction::Scroll {
                    source: AttachScrollSource::PageKey { input },
                    direction: if k.up { AttachScrollDirection::Up } else { AttachScrollDirection::Down },
                    lines,
                    column: None,
                    row: None,
                    modifiers: 0,
                })
            }
        },
        None => None,
    }
}

/// Escape-prefix state of a direct attach client.
#[derive(Debug, Default, Clone, Copy, PartialEq, Eq)]
pub struct AttachEscapeState {
    /// The prefix byte was seen and the next byte decides what it means.
    pub pending_prefix: bool,
}

/// State of the prefix filter part-way through a chunk.
pub struct FilterView {
    pub pending: bool,
    pub output: Seq<u8>,
    pub detached: bool,
}

/// The filter state after one more byte.
pub open spec fn filter_step(s: FilterView, b: u8) -> FilterView {
    if s.pending {
        if b == 113 {
            FilterView { pending: false, output: s.output, detached: true }
        } else if b == ATTACH_PREFIX {
            FilterView { pending: false, output: s.output.push(ATTACH_PREFIX), detached: false }
        } else {
            FilterView { pending: false, output: s.output.push(ATTACH_PREFIX).push(b), detached: false }
        }
    } else if b == ATTACH_PREFIX {
        FilterView { pending: true, output: s.output, detached: false }
    } else {
        FilterView { pending: false, output: s.output.push(b), detached: false }
    }
}

/// The filter state after the bytes of `data`, starting with the prefix state `pending`;
/// a detach stops the filter at the byte that asked for it.
pub open spec fn filter_bytes(pending: bool, data: Seq<u8>) -> FilterView
    decreases data.len(),
{
    if data.len() == 0 {
        FilterView { pending, output: Seq::empty(), detached: false }
    } else {
        let s = filter_bytes(pending, data.drop_last());
        if s.detached { s } else { filter_step(s, data.last()) }
    }
}

/// The action for a chunk, given the filter state after it.
pub open spec fn attach_action(f: FilterView, viewport_rows: u16, mouse_scroll_lines: usize) -> AttachActionView {
    if f.detached {
        AttachActionView::Detach
    } else if f.output.len() == 0 {
        AttachActionView::Nothing
    } else {
        match scroll_action(f.output, viewport_rows, mouse_scroll_lines) {
            Some(a) => a,
            None => AttachActionView::Forward(f.output),
        }
    }
}

impl AttachEscapeState {
    /// Filter one chunk of stdin: `prefix q` detaches, `prefix prefix` sends a literal prefix,
    /// `prefix x` sends both bytes; what is left becomes a scroll, nothing, or forwarded bytes.
    pub fn filter_input(&mut self, data: Vec<u8>, viewport_rows: u16, mouse_scroll_lines: usize) -> (r: AttachInputAction)
        ensures
            final(self).pending_prefix == filter_bytes(old(self).pending_prefix, data@).pending,
            r@ == attach_action(filter_bytes(old(self).pending_prefix, data@), viewport_rows, mouse_scroll_lines),
    {
        let ghost start = self.pending_prefix;
        let mut output: Vec<u8> = Vec::with_capacity(data.len());
        let mut i: usize = 0;
        while i < data.len()
            invariant
                i <= data@.len(),
                start == old(self).pending_prefix,
                ({
                    let f = filter_bytes(start, data@.subrange(0, i as int));
                    &&& !f.detached
                    &&& f.pending == self.pending_prefix
                    &&& f.output == output@
                }),
            decreases data@.len() - i,
        {
            let byte = data[i];
            proof {
                assert(data@.subrange(0, i + 1).drop_last() =~= data@.subrange(0, i as int));
            }
            if self.pending_prefix {
                self.pending_prefix = false;
                if byte == 113 {
                    proof {
                        assert(data@.subrange(0, i + 1).last() == byte);
                        assert(filter_bytes(start, data@.subrange(0, i + 1)).detached);
                        lemma_filter_stays_detached(start, data@, i as int + 1);
                        assert(data@.subrange(0, data@.len() as int) =~= data@);
                    }
                    return AttachInputAction::Detach;
                } else if byte == ATTACH_PREFIX {
                    output.push(ATTACH_PREFIX);
                } else {
                    output.push(ATTACH_PREFIX);
                    output.push(byte);
                }
            } else if byte == ATTACH_PREFIX {
                self.pending_prefix = true;
            } else {
                output.push(byte);
            }
            i = i + 1;
        }
        proof {
            assert(data@.subrange(0, data@.len() as int) =~= data@);
        }
        if output.len() == 0 {
            AttachInputAction::NoAction
        } else {
            match attach_scroll_action(output.as_slice(), viewport_rows, mouse_scroll_lines) {
                Some(action) => action,
                None => AttachInputAction::Forward(output),
            }
        }
    }
}

/// Once the filter has detached, the bytes after it change nothing.
proof fn lemma_filter_stays_detached(pending: bool, data: Seq<u8>, k: int)
    requires
        0 <= k <= data.len(),
        filter_bytes(pending, data.subrange(0, k)).detached,
    ensures
        filter_bytes(pending, data.subrange(0, data.len() as int)) == filter_bytes(pending, data.subrange(0, k)),
    decreases data.len() - k,
{
    if k < data.len() {
        assert(data.subrange(0, k + 1).drop_last() =~= data.subrange(0, k));
        lemma_filter_stays_detached(pending, data, k + 1);
    }
}

/// Input without the prefix byte passes through the filter unchanged while no prefix is pending.
pub proof fn lemma_filter_passes_plain_input(data: Seq<u8>)
    requires
        !data.contains(ATTACH_PREFIX),
    ensures
        filter_bytes(false, data) == (FilterView { pending: false, output: data, detached: false }),
    decreases data.len(),
{
    if data.len() > 0 {
        assert(!data.drop_last().contains(ATTACH_PREFIX)) by {
            if data.drop_last().contains(ATTACH_PREFIX) {
                let k = choose|k: int| 0 <= k < data.drop_last().len() && data.drop_last()[k] == ATTACH_PREFIX;
                assert(data[k] == ATTACH_PREFIX);
            }
        }
        lemma_filter_passes_plain_input(data.drop_last());
        assert(data.last() != ATTACH_PREFIX) by {
            assert(data[data.len() - 1] == data.last());
        }
        assert(data.drop_last().push(data.last()) =~= data);
    } else {
        assert(data =~= Seq::<u8>::empty());
    }
}

/// A page-key sequence holds no escape-prefix byte.
proof fn lemma_page_key_has_no_prefix(data: Seq<u8>)
    requires
        page_key(data) is Some,
    ensures
        !data.contains(ATTACH_PREFIX),
{
    if data.len() > 4 || data[3] != 126 {
        let e1 = run_end(data, 4);
        crate::rawinput::lemma_run_digits(data, 4);
        if e1 < data.len() - 1 {
            crate::rawinput::lemma_run_digits(data, e1 + 1);
        }
    }
    assert forall|j: int| 0 <= j < data.len() implies data[j] != ATTACH_PREFIX by {
        if j >= 4 {
            let e1 = run_end(data, 4);
            if j > e1 {
                crate::rawinput::lemma_run_digits(data, e1 + 1);
            }
        }
    }
}

/// A page key that carries a modifier (a modifier parameter of 2 or more with any of the shift,
/// alt, control, super, hyper or meta bits set) belongs to the program inside the attach: it is
/// never turned into a scroll, and a direct attach forwards the chunk unchanged.
pub proof fn lemma_modified_page_key_is_forwarded(data: Seq<u8>, k: PageKey, viewport_rows: u16, mouse_scroll_lines: usize)
    requires
        page_key(data) == Some(k),
        k.modifier_param >= 2,
        ((k.modifier_param - 1) as u8) & 63u8 != 0,
    ensures
        scroll_action(data, viewport_rows, mouse_scroll_lines) is None,
        attach_action(filter_bytes(false, data), viewport_rows, mouse_scroll_lines) == AttachActionView::Forward(data),
{
    assert(sgr_mouse(data) is None);
    assert(mouse_event(data) is None);
    assert(!page_key_unmodified(k));
    lemma_page_key_has_no_prefix(data);
    lemma_filter_passes_plain_input(data);
}

/// Splitting input across reads changes nothing: filtering `a` then `b` (from the prefix state
/// `a` left) gives what filtering `a + b` at once gives, unless `a` already detached.
pub proof fn lemma_filter_split(pending: bool, a: Seq<u8>, b: Seq<u8>)
    requires
        !filter_bytes(pending, a).detached,
    ensures
        ({
            let fa = filter_bytes(pending, a);
            let fb = filter_bytes(fa.pending, b);
            filter_bytes(pending, a + b) == (FilterView {
                pending: fb.pending,
                output: fa.output + fb.output,
                detached: fb.detached,
            })
        }),
    decreases b.len(),
{
    let fa = filter_bytes(pending, a);
    if b.len() == 0 {
        assert(a + b =~= a);
        assert(fa.output + Seq::<u8>::empty() =~= fa.output);
    } else {
        lemma_filter_split(pending, a, b.drop_last());
        assert((a + b).drop_last() =~= a + b.drop_last());
        assert((a + b).last() == b.last());
        let fb0 = filter_bytes(fa.pending, b.drop_last());
        if !fb0.detached {
            let x = b.last();
            assert((fa.output + fb0.output).push(x) =~= fa.output + fb0.output.push(x));
            assert((fa.output + fb0.output).push(ATTACH_PREFIX) =~= fa.output + fb0.output.push(ATTACH_PREFIX));
            assert((fa.output + fb0.output).push(ATTACH_PREFIX).push(x) =~= fa.output + fb0.output.push(ATTACH_PREFIX).push(x));
        }
    }
}

} // verus!
