//! Kitty graphics bytes: detection, image-id tracking, cleanup commands, and placement of
//! graphics inside a synchronized frame.

use vstd::prelude::*;
use crate::text::{occurs_at, contains_seq};
use crate::rawinput::{digit_run_end, field_value, parse_field, run_end};
use vstd::slice::slice_subrange;
use vstd::utf8::valid_utf8;

verus! {

/// Whether `needle` matches `hay` at position `start`.
pub fn bytes_match_at(hay: &[u8], needle: &[u8], start: usize) -> (r: bool)
    requires
        start + needle@.len() <= hay@.len(),
    ensures
        r == occurs_at(hay@, needle@, start as int),
{
    let hay_len: usize = hay.len();
    let mut k: usize = 0;
    while k < needle.len()
        invariant
            hay_len == hay@.len(),
            k <= needle@.len(),
            start + needle@.len() <= hay@.len(),
            forall|j: int| 0 <= j < k ==> hay@[start + j] == needle@[j],
        decreases needle@.len() - k,
    {
        assert(start + k < hay@.len());
        if hay[start + k] != needle[k] {
            assert(hay@.subrange(start as int, start + needle@.len())[k as int] != needle@[k as int]);
            return false;
        }
        k = k + 1;
    }
    assert(hay@.subrange(start as int, start + needle@.len()) =~= needle@);
    true
}

/// `i` is the first position where a non-empty `needle` occurs in `hay`.
pub open spec fn is_first_occurrence(hay: Seq<u8>, needle: Seq<u8>, i: int) -> bool {
    &&& needle.len() > 0
    &&& occurs_at(hay, needle, i)
    &&& forall|j: int| 0 <= j < i ==> !occurs_at(hay, needle, j)
}

/// The first position of a non-empty `needle` in `hay`.
pub open spec fn first_occurrence(hay: Seq<u8>, needle: Seq<u8>) -> Option<int> {
    if needle.len() > 0 && contains_seq(hay, needle) {
        Some(choose|i: int| is_first_occurrence(hay, needle, i))
    } else {
        None
    }
}

proof fn lemma_first_occurrence_unique(hay: Seq<u8>, needle: Seq<u8>, i: int)
    requires
        is_first_occurrence(hay, needle, i),
    ensures
        first_occurrence(hay, needle) == Some(i),
{
    assert(contains_seq(hay, needle));
    let k = choose|k: int| is_first_occurrence(hay, needle, k);
    assert(is_first_occurrence(hay, needle, k));
    if k < i {
        assert(!occurs_at(hay, needle, k));
    } else if i < k {
        assert(!occurs_at(hay, needle, i));
    }
}

/// Position of the first occurrence of a non-empty `needle` in `haystack`.
pub fn find_subslice(haystack: &[u8], needle: &[u8]) -> (r: Option<usize>)
    ensures
        match r {
            Some(i) => first_occurrence(haystack@, needle@) == Some(i as int),
            None => first_occurrence(haystack@, needle@) is None,
        },
{
    if needle.len() == 0 || needle.len() > haystack.len() {
        proof {
            if needle@.len() > 0 && contains_seq(haystack@, needle@) {
                let k = choose|k: int| occurs_at(haystack@, needle@, k);
                assert(occurs_at(haystack@, needle@, k));
            }
        }
        return None;
    }
    let last: usize = haystack.len() - needle.len();
    let mut i: usize = 0;
    loop
        invariant_except_break
            last == haystack@.len() - needle@.len(),
            needle@.len() > 0,
            i <= last,
            forall|j: int| 0 <= j < i ==> !occurs_at(haystack@, needle@, j),
        ensures
            forall|j: int| 0 <= j <= last ==> !occurs_at(haystack@, needle@, j),
            last == haystack@.len() - needle@.len(),
            needle@.len() > 0,
        decreases last - i,
    {
        if bytes_match_at(haystack, needle, i) {
            proof {
                lemma_first_occurrence_unique(haystack@, needle@, i as int);
            }
            return Some(i);
        }
        if i == last {
            break;
        }
        i = i + 1;
    }
    proof {
        if contains_seq(haystack@, needle@) {
            let k = choose|k: int| occurs_at(haystack@, needle@, k);
            assert(occurs_at(haystack@, needle@, k));
        }
    }
    None
}

/// The APC introducer of a kitty graphics command, `ESC _ G`.
pub open spec fn apc_graphics() -> Seq<u8> {
    seq![27u8, 95u8, 71u8]
}

/// The string terminator, `ESC \`.
pub open spec fn string_terminator() -> Seq<u8> {
    seq![27u8, 92u8]
}

/// Whether a terminal frame carries kitty graphics bytes.
pub fn contains_kitty_graphics_bytes(bytes: &[u8]) -> (r: bool)
    ensures
        r == contains_seq(bytes@, apc_graphics()),
{
    let marker: [u8; 3] = [27u8, 95u8, 71u8];
    assert(marker@ =~= apc_graphics());
    let found = find_subslice(bytes, &marker);
    proof {
        if contains_seq(bytes@, apc_graphics()) {
            assert(first_occurrence(bytes@, apc_graphics()) is Some);
        }
    }
    found.is_some()
}

pub proof fn lemma_first_occurrence_bounds(hay: Seq<u8>, needle: Seq<u8>)
    ensures
        first_occurrence(hay, needle) matches Some(i) ==> is_first_occurrence(hay, needle, i)
            && 0 <= i && i + needle.len() <= hay.len(),
{
    if needle.len() > 0 && contains_seq(hay, needle) {
        let k = choose|k: int| occurs_at(hay, needle, k);
        assert(occurs_at(hay, needle, k));
        lemma_first_exists(hay, needle, k);
    }
}

pub proof fn lemma_first_exists(hay: Seq<u8>, needle: Seq<u8>, k: int)
    requires
        needle.len() > 0,
        occurs_at(hay, needle, k),
    ensures
        exists|i: int| is_first_occurrence(hay, needle, i),
    decreases k,
{
    if forall|j: int| 0 <= j < k ==> !occurs_at(hay, needle, j) {
        assert(is_first_occurrence(hay, needle, k));
    } else {
        let j = choose|j: int| 0 <= j < k && occurs_at(hay, needle, j);
        lemma_first_exists(hay, needle, j);
    }
}

/// The first index at or after `i` that holds `b`, or the length when there is none.
pub open spec fn next_index(s: Seq<u8>, b: u8, i: int) -> int
    decreases s.len() - i,
{
    if 0 <= i < s.len() && s[i] != b {
        next_index(s, b, i + 1)
    } else {
        i
    }
}

pub proof fn lemma_next_index(s: Seq<u8>, b: u8, i: int)
    requires
        0 <= i <= s.len(),
    ensures
        i <= next_index(s, b, i) <= s.len(),
        forall|j: int| i <= j < next_index(s, b, i) ==> s[j] != b,
        next_index(s, b, i) < s.len() ==> s[next_index(s, b, i)] == b,
    decreases s.len() - i,
{
    if i < s.len() && s[i] != b {
        lemma_next_index(s, b, i + 1);
    }
}

/// Exec form of [`next_index`].
pub fn find_byte_from(s: &[u8], b: u8, i: usize) -> (r: usize)
    requires
        i <= s@.len(),
    ensures
        r as int == next_index(s@, b, i as int),
        i <= r <= s@.len(),
{
    proof { lemma_next_index(s@, b, i as int); }
    let len = s.len();
    let mut j: usize = i;
    while j < len && s[j] != b
        invariant
            len == s@.len(),
            i <= j <= len,
            next_index(s@, b, j as int) == next_index(s@, b, i as int),
        decreases len - j,
    {
        j = j + 1;
    }
    j
}

/// `text` as `u32::from_str` reads it: an optional `+`, then decimal digits, within `u32`.
pub open spec fn u32_text(v: Seq<u8>) -> Option<u32> {
    if v.len() == 0 {
        None
    } else {
        let off: int = if v[0] == 43 { 1 } else { 0 };
        if off < v.len() && run_end(v, off) == v.len() {
            match field_value(v, off, v.len() as int, 4294967295) {
                Some(x) => Some(x as u32),
                None => None,
            }
        } else {
            None
        }
    }
}

/// Exec form of [`u32_text`].
pub fn parse_u32_text(v: &[u8]) -> (r: Option<u32>)
    ensures
        r == u32_text(v@),
{
    let len = v.len();
    if len == 0 {
        return None;
    }
    let off: usize = if v[0] == 43 { 1 } else { 0 };
    if off >= len {
        return None;
    }
    let e = digit_run_end(v, off);
    if e != len {
        return None;
    }
    proof {
        crate::rawinput::lemma_run_digits(v@, off as int);
    }
    parse_field(v, off, len, 4294967295u32)
}

/// `std::str::from_utf8`: it accepts exactly the byte sequences that are valid UTF-8 (as
/// `vstd::utf8::valid_utf8` states validity); only whether it accepts them is kept.
#[verifier::external_body]
fn is_valid_utf8(bytes: &[u8]) -> (r: bool)
    ensures
        r == valid_utf8(bytes@),
{
    std::str::from_utf8(bytes).is_ok()
}

/// The image id of a kitty graphics header, scanning its comma-separated keys from `start`:
/// the first `i=` key whose value reads as a `u32`; a value that is not UTF-8 ends the scan.
pub open spec fn id_scan(h: Seq<u8>, start: int) -> Option<u32>
    decreases h.len() - start,
{
    if start < 0 || start > h.len() {
        None
    } else {
        let end = next_index(h, 44, start);
        proof {
            lemma_next_index(h, 44, start);
        }
        let rest = if end < h.len() { id_scan(h, end + 1) } else { None };
        if end - start >= 2 && h[start] == 105 && h[start + 1] == 61 {
            let v = h.subrange(start + 2, end);
            if !valid_utf8(v) {
                None
            } else {
                match u32_text(v) {
                    Some(x) => Some(x),
                    None => rest,
                }
            }
        } else {
            rest
        }
    }
}

/// The image id a kitty graphics command names: its header is the part before the first `;`.
pub open spec fn command_image_id(command: Seq<u8>) -> Option<u32> {
    id_scan(command.subrange(0, next_index(command, 59, 0)), 0)
}

/// The image id (`i=`) a kitty graphics command names, if any.
pub fn kitty_graphics_command_image_id(command: &[u8]) -> (r: Option<u32>)
    ensures
        r == command_image_id(command@),
{
    let header_end = find_byte_from(command, 59, 0);
    let h = slice_subrange(command, 0, header_end);
    let hlen = h.len();
    let mut start: usize = 0;
    loop
        invariant
            h@ == command@.subrange(0, next_index(command@, 59, 0)),
            hlen == h@.len(),
            start <= hlen,
            id_scan(h@, start as int) == command_image_id(command@),
        decreases hlen - start,
    {
        let end = find_byte_from(h, 44, start);
        if end - start >= 2 && h[start] == 105 && h[start + 1] == 61 {
            let v = slice_subrange(h, start + 2, end);
            if !is_valid_utf8(v) {
                return None;
            }
            match parse_u32_text(v) {
                Some(x) => return Some(x),
                None => {},
            }
        }
        if end == hlen {
            return None;
        }
        start = end + 1;
    }
}

/// The image ids of the kitty graphics commands in `bytes` from `index` on, in order: each
/// command runs from `ESC _ G` to the next `ESC \`; an unterminated command ends the scan.
pub open spec fn ids_from(bytes: Seq<u8>, index: int) -> Seq<u32>
    decreases bytes.len() - index,
{
    if index < 0 || index > bytes.len() {
        Seq::empty()
    } else {
        let tail = bytes.subrange(index, bytes.len() as int);
        proof {
            lemma_first_occurrence_bounds(tail, apc_graphics());
        }
        match first_occurrence(tail, apc_graphics()) {
            None => Seq::empty(),
            Some(start) => {
                let cs = index + start + 3;
                let after = bytes.subrange(cs, bytes.len() as int);
                proof {
                    lemma_first_occurrence_bounds(after, string_terminator());
                }
                match first_occurrence(after, string_terminator()) {
                    None => Seq::empty(),
                    Some(end) => {
                        let rest = ids_from(bytes, cs + end + 2);
                        match command_image_id(bytes.subrange(cs, cs + end)) {
                            Some(id) => seq![id] + rest,
                            None => rest,
                        }
                    },
                }
            },
        }
    }
}

/// The image ids named by the kitty graphics commands in a frame, in order.
pub fn kitty_graphics_image_ids(bytes: &[u8]) -> (r: Vec<u32>)
    ensures
        r@ == ids_from(bytes@, 0),
{
    let apc: [u8; 3] = [27u8, 95u8, 71u8];
    let st: [u8; 2] = [27u8, 92u8];
    assert(apc@ =~= apc_graphics());
    assert(st@ =~= string_terminator());
    let len = bytes.len();
    let mut ids: Vec<u32> = Vec::new();
    let mut index: usize = 0;
    loop
        invariant
            len == bytes@.len(),
            apc@ == apc_graphics(),
            st@ == string_terminator(),
            index <= len,
            ids@ + ids_from(bytes@, index as int) == ids_from(bytes@, 0),
        decreases len - index,
    {
        let tail = slice_subrange(bytes, index, len);
        proof {
            lemma_first_occurrence_bounds(tail@, apc_graphics());
        }
        let start = match find_subslice(tail, &apc) {
            Some(start) => start,
            None => {
                assert(ids@ + Seq::<u32>::empty() =~= ids@);
                return ids;
            },
        };
        let command_start = index + start + 3;
        let after = slice_subrange(bytes, command_start, len);
        proof {
            lemma_first_occurrence_bounds(after@, string_terminator());
        }
        let end = match find_subslice(after, &st) {
            Some(end) => end,
            None => {
                assert(ids@ + Seq::<u32>::empty() =~= ids@);
                return ids;
            },
        };
        let command = slice_subrange(bytes, command_start, command_start + end);
        let ghost before = ids@;
        match kitty_graphics_command_image_id(command) {
            Some(id) => {
                ids.push(id);
                assert(before + (seq![id] + ids_from(bytes@, (command_start + end + 2) as int))
                    =~= ids@ + ids_from(bytes@, (command_start + end + 2) as int));
            },
            None => {},
        }
        index = command_start + end + 2;
    }
}

/// The text `i` (decimal) as ASCII bytes.
pub open spec fn decimal_ascii(n: nat) -> Seq<u8>
    decreases n,
{
    if n < 10 {
        seq![(48 + n) as u8]
    } else {
        decimal_ascii(n / 10).push((48 + n % 10) as u8)
    }
}

/// Append the decimal form of `n` to `out`.
pub fn push_decimal(out: &mut Vec<u8>, n: u64)
    ensures
        final(out)@ == old(out)@ + decimal_ascii(n as nat),
    decreases n,
{
    if n >= 10 {
        push_decimal(out, n / 10);
    }
    let ghost mid = out@;
    out.push(48u8 + (n % 10) as u8);
    proof {
        if n >= 10 {
            assert(out@ =~= old(out)@ + decimal_ascii(n as nat));
        } else {
            assert(out@ =~= old(out)@ + decimal_ascii(n as nat));
        }
    }
}

/// Append all of `bytes` to `out`.
pub fn push_all(out: &mut Vec<u8>, bytes: &[u8])
    ensures
        final(out)@ == old(out)@ + bytes@,
{
    let mut i: usize = 0;
    while i < bytes.len()
        invariant
            i <= bytes@.len(),
            out@ == old(out)@ + bytes@.subrange(0, i as int),
        decreases bytes@.len() - i,
    {
        out.push(bytes[i]);
        i = i + 1;
        assert(out@ =~= old(out)@ + bytes@.subrange(0, i as int));
    }
    assert(bytes@.subrange(0, bytes@.len() as int) =~= bytes@);
}

/// The command that deletes one kitty image by id: `ESC _ G a=d,d=I,i=<id>,q=2; ESC \`.
pub open spec fn delete_command(id: u32) -> Seq<u8> {
    seq![27u8, 95u8, 71u8, 97u8, 61u8, 100u8, 44u8, 100u8, 61u8, 73u8, 44u8, 105u8, 61u8]
        + decimal_ascii(id as nat) + seq![44u8, 113u8, 61u8, 50u8, 59u8, 27u8, 92u8]
}

/// The delete commands of the first `k` ids, in order.
pub open spec fn delete_commands(ids: Seq<u32>, k: int) -> Seq<u8>
    decreases k,
{
    if k <= 0 {
        Seq::empty()
    } else {
        delete_commands(ids, k - 1) + delete_command(ids[k - 1])
    }
}

/// The bytes that delete the tracked kitty images (and no other image).
pub fn kitty_delete_commands(ids: &[u32]) -> (r: Vec<u8>)
    ensures
        r@ == delete_commands(ids@, ids@.len() as int),
{
    let head: [u8; 13] = [27u8, 95u8, 71u8, 97u8, 61u8, 100u8, 44u8, 100u8, 61u8, 73u8, 44u8, 105u8, 61u8];
    let tail: [u8; 7] = [44u8, 113u8, 61u8, 50u8, 59u8, 27u8, 92u8];
    let mut out: Vec<u8> = Vec::new();
    let mut i: usize = 0;
    while i < ids.len()
        invariant
            i <= ids@.len(),
            out@ == delete_commands(ids@, i as int),
            head@ == seq![27u8, 95u8, 71u8, 97u8, 61u8, 100u8, 44u8, 100u8, 61u8, 73u8, 44u8, 105u8, 61u8],
            tail@ == seq![44u8, 113u8, 61u8, 50u8, 59u8, 27u8, 92u8],
        decreases ids@.len() - i,
    {
        let ghost before = out@;
        push_all(&mut out, &head);
        push_decimal(&mut out, ids[i] as u64);
        push_all(&mut out, &tail);
        assert(out@ =~= before + delete_command(ids@[i as int]));
        i = i + 1;
    }
    out
}

/// The synchronized-output end marker, `ESC [ ? 2026 l`.
pub open spec fn sync_output_end() -> Seq<u8> {
    seq![27u8, 91u8, 63u8, 50u8, 48u8, 50u8, 54u8, 108u8]
}

/// `i` is the last position where `needle` occurs in `hay`.
pub open spec fn is_last_occurrence(hay: Seq<u8>, needle: Seq<u8>, i: int) -> bool {
    &&& occurs_at(hay, needle, i)
    &&& forall|j: int| i < j ==> !occurs_at(hay, needle, j)
}

/// Position of the final synchronized-output end marker of an encoded frame.
pub fn final_sync_output_end(encoded: &[u8]) -> (r: Option<usize>)
    ensures
        match r {
            Some(i) => is_last_occurrence(encoded@, sync_output_end(), i as int),
            None => !contains_seq(encoded@, sync_output_end()),
        },
{
    let marker: [u8; 8] = [27u8, 91u8, 63u8, 50u8, 48u8, 50u8, 54u8, 108u8];
    assert(marker@ =~= sync_output_end());
    let len = encoded.len();
    if len < 8 {
        proof {
            if contains_seq(encoded@, sync_output_end()) {
                let k = choose|k: int| occurs_at(encoded@, sync_output_end(), k);
                assert(occurs_at(encoded@, sync_output_end(), k));
            }
        }
        return None;
    }
    let mut i: usize = len - 8;
    loop
        invariant_except_break
            len == encoded@.len(),
            len >= 8,
            marker@ == sync_output_end(),
            i <= len - 8,
            forall|j: int| i < j ==> !occurs_at(encoded@, sync_output_end(), j),
        ensures
            forall|j: int| 0 <= j ==> !occurs_at(encoded@, sync_output_end(), j),
        decreases i,
    {
        if bytes_match_at(encoded, &marker, i) {
            return Some(i);
        }
        if i == 0 {
            break;
        }
        i = i - 1;
    }
    proof {
        if contains_seq(encoded@, sync_output_end()) {
            let k = choose|k: int| occurs_at(encoded@, sync_output_end(), k);
            assert(occurs_at(encoded@, sync_output_end(), k));
        }
    }
    None
}

/// Where graphics go in an encoded frame: before its final synchronized-output end, or at the end.
pub open spec fn graphics_insertion(encoded: Seq<u8>) -> int {
    if contains_seq(encoded, sync_output_end()) {
        choose|i: int| is_last_occurrence(encoded, sync_output_end(), i)
    } else {
        encoded.len() as int
    }
}

/// The bytes written for an encoded frame and its graphics: with graphics, the graphics are
/// wrapped in cursor save/restore (`ESC 7` / `ESC 8`) and placed inside the synchronized update.
pub open spec fn frame_with_graphics(encoded: Seq<u8>, graphics: Seq<u8>) -> Seq<u8> {
    if graphics.len() == 0 {
        encoded
    } else {
        let at = graphics_insertion(encoded);
        encoded.subrange(0, at) + seq![27u8, 55u8] + graphics + seq![27u8, 56u8]
            + encoded.subrange(at, encoded.len() as int)
    }
}

proof fn lemma_last_occurrence_unique(hay: Seq<u8>, needle: Seq<u8>, i: int)
    requires
        is_last_occurrence(hay, needle, i),
    ensures
        graphics_insertion(hay) == i || needle != sync_output_end(),
{
    if needle == sync_output_end() {
        assert(contains_seq(hay, needle));
        let k = choose|k: int| is_last_occurrence(hay, needle, k);
        assert(is_last_occurrence(hay, needle, k));
        if k < i {
            assert(!occurs_at(hay, needle, i));
        } else if i < k {
            assert(!occurs_at(hay, needle, k));
        }
    }
}

/// The bytes to write for an encoded frame and the graphics that go with it.
pub fn encoded_frame_with_graphics(encoded: &[u8], graphics: &[u8]) -> (r: Vec<u8>)
    ensures
        r@ == frame_with_graphics(encoded@, graphics@),
{
    let mut out: Vec<u8> = Vec::new();
    if graphics.len() == 0 {
        push_all(&mut out, encoded);
        assert(out@ =~= encoded@);
        return out;
    }
    let insertion = match final_sync_output_end(encoded) {
        Some(i) => {
            proof { lemma_last_occurrence_unique(encoded@, sync_output_end(), i as int); }
            i
        },
        None => encoded.len(),
    };
    assert(insertion as int == graphics_insertion(encoded@));
    push_all(&mut out, slice_subrange(encoded, 0, insertion));
    out.push(27u8);
    out.push(55u8);
    push_all(&mut out, graphics);
    out.push(27u8);
    out.push(56u8);
    push_all(&mut out, slice_subrange(encoded, insertion, encoded.len()));
    assert(out@ =~= frame_with_graphics(encoded@, graphics@));
    out
}

/// The kitty images this client has put on its host terminal, each once, in the order first seen.
#[derive(Debug, Clone)]
pub struct KittyGraphicsLedger {
    ids: Vec<u32>,
}

impl KittyGraphicsLedger {
    /// The image ids on record, in the order first seen.
    pub closed spec fn image_ids(&self) -> Seq<u32> {
        self.ids@
    }

    /// No image id is tracked twice.
    pub open spec fn wf(&self) -> bool {
        self.image_ids().no_duplicates()
    }

    /// A ledger tracking nothing.
    pub fn new() -> (r: KittyGraphicsLedger)
        ensures
            r.wf(),
            r.image_ids() == Seq::<u32>::empty(),
    {
        KittyGraphicsLedger { ids: Vec::new() }
    }

    /// Track the images that the kitty graphics commands in `bytes` name.
    pub fn record_received_kitty_graphics(&mut self, bytes: &[u8])
        requires
            old(self).wf(),
        ensures
            final(self).wf(),
            final(self).image_ids().to_set() == old(self).image_ids().to_set() + ids_from(bytes@, 0).to_set(),
            final(self).image_ids().len() >= old(self).image_ids().len(),
            final(self).image_ids().subrange(0, old(self).image_ids().len() as int) == old(self).image_ids(),
    {
        let found = kitty_graphics_image_ids(bytes);
        let mut i: usize = 0;
        while i < found.len()
            invariant
                i <= found@.len(),
                found@ == ids_from(bytes@, 0),
                self.ids@.no_duplicates(),
                self.ids@.to_set() == old(self).ids@.to_set() + found@.subrange(0, i as int).to_set(),
                self.ids@.len() >= old(self).ids@.len(),
                self.ids@.subrange(0, old(self).ids@.len() as int) == old(self).ids@,
            decreases found@.len() - i,
        {
            let id = found[i];
            let mut seen = false;
            let mut j: usize = 0;
            while j < self.ids.len()
                invariant
                    j <= self.ids@.len(),
                    seen == exists|k: int| 0 <= k < j && self.ids@[k] == id,
                decreases self.ids@.len() - j,
            {
                if self.ids[j] == id {
                    seen = true;
                }
                j = j + 1;
            }
            let ghost before = self.ids@;
            if !seen {
                self.ids.push(id);
                proof {
                    assert forall|a: int, b: int| 0 <= a < self.ids@.len() && 0 <= b < self.ids@.len() && a != b
                        implies self.ids@[a] != self.ids@[b] by {
                        if a < before.len() && b < before.len() {
                            assert(before[a] != before[b]);
                        }
                    }
                    assert(self.ids@.subrange(0, old(self).ids@.len() as int) =~= before.subrange(0, old(self).ids@.len() as int));
                }
            }
            proof {
                assert(found@.subrange(0, i + 1) =~= found@.subrange(0, i as int).push(id));
                found@.subrange(0, i as int).lemma_push_to_set_commute(id);
                if !seen {
                    before.lemma_push_to_set_commute(id);
                    assert(self.ids@ == before.push(id));
                } else {
                    let k = choose|k: int| 0 <= k < before.len() && before[k] == id;
                    assert(before.to_set().contains(id)) by {
                        assert(before.contains(id));
                    }
                }
                assert(self.ids@.to_set() =~= old(self).ids@.to_set() + found@.subrange(0, i + 1).to_set());
            }
            i = i + 1;
        }
        proof {
            assert(found@.subrange(0, found@.len() as int) == found@);
        }
    }

    /// The bytes to write for an encoded frame with its graphics (see `frame_with_graphics`);
    /// the images the graphics name are recorded.
    pub fn write_encoded_frame_with_graphics(&mut self, encoded: &[u8], graphics: &[u8]) -> (r: Vec<u8>)
        requires
            old(self).wf(),
        ensures
            final(self).wf(),
            r@ == frame_with_graphics(encoded@, graphics@),
            final(self).image_ids().to_set() == old(self).image_ids().to_set() + ids_from(graphics@, 0).to_set(),
            final(self).image_ids().subrange(0, old(self).image_ids().len() as int) == old(self).image_ids(),
            final(self).image_ids().len() >= old(self).image_ids().len(),
    {
        if graphics.len() > 0 {
            self.record_received_kitty_graphics(graphics);
        } else {
            proof {
                let e = ids_from(graphics@, 0);
                lemma_first_occurrence_bounds(graphics@.subrange(0, 0), apc_graphics());
                assert(graphics@.subrange(0, graphics@.len() as int) =~= graphics@);
                assert(first_occurrence(graphics@, apc_graphics()) is None);
                assert(e =~= Seq::<u32>::empty());
                assert(self.image_ids().to_set() =~= self.image_ids().to_set() + e.to_set());
                assert(self.image_ids().subrange(0, self.image_ids().len() as int) =~= self.image_ids());
            }
        }
        encoded_frame_with_graphics(encoded, graphics)
    }

    /// Forget every tracked image, returning the commands that delete exactly those images (and
    /// no other image the host shows), in the order first seen.
    pub fn clear_received_kitty_graphics(&mut self) -> (r: Vec<u8>)
        ensures
            final(self).wf(),
            final(self).image_ids() == Seq::<u32>::empty(),
            r@ == delete_commands(old(self).image_ids(), old(self).image_ids().len() as int),
    {
        let r = kitty_delete_commands(self.ids.as_slice());
        self.ids = Vec::new();
        r
    }
}

} // verus!
