//! H.264 Annex-B handling for the screen-record mirror: locating NAL units
//! after their start codes, splitting a growing byte buffer into the units
//! that are complete, and reading the screen size that `wm size` prints.
use vstd::prelude::*;
use vstd::slice::slice_subrange;
use vstd::slice::slice_to_vec;
use crate::text::{chars_of, split_words, sub_chars, find_chars, contains_chars, parse_u32_chars, u64_to_string, lemma_find_from, occurs_at, views, words, find_seq, contains_seq, parse_u32, decimal};


verus! {

/// Event name used to emit video frames to the frontend.
pub const VIDEO_FRAME_EVENT: &'static str = "video-frame";

/// Bytes that may pile up without any start code before the buffer is dropped.
pub const MAX_NAL_BUFFER: usize = 5242880;

/// Screen-record bit rate, in bits per second.
pub const DEFAULT_BITRATE: u32 = 8000000;

/// Screen-record frame-rate cap.
pub const DEFAULT_MAX_FPS: u32 = 30;

/// Screen-record size cap.
pub const DEFAULT_MAX_SIZE: u32 = 1280;

// ─────────────────────────────── specification ───────────────────────────────

/// Length of the start code that the scanner takes at position `i`: 4 for
/// `00 00 00 01` with at least one byte after it, 3 for `00 00 01` with at
/// least one byte after it, 0 otherwise.
pub open spec fn start_code_len(d: Seq<u8>, i: int) -> int {
    if 0 <= i && i + 3 < d.len() && d[i] == 0 && d[i + 1] == 0 {
        if i + 4 < d.len() && d[i + 2] == 0 && d[i + 3] == 1 {
            4
        } else if d[i + 2] == 1 {
            3
        } else {
            0
        }
    } else {
        0
    }
}

/// Whether a start code (`00 00 01` or `00 00 00 01`) that ends a unit
/// begins at `j`, with at least four bytes from `j` on.
pub open spec fn is_boundary(d: Seq<u8>, j: int) -> bool {
    0 <= j && j + 3 < d.len() && d[j] == 0 && d[j + 1] == 0 && (d[j + 2] == 1 || (d[j + 2] == 0
        && d[j + 3] == 1))
}

/// The first boundary at or after `j`, or `d.len()` when there is none.
pub open spec fn next_boundary(d: Seq<u8>, j: int) -> int
    decreases d.len() - j,
{
    if j < 0 || j + 3 >= d.len() {
        d.len() as int
    } else if is_boundary(d, j) {
        j
    } else {
        next_boundary(d, j + 1)
    }
}

/// The NAL units found by scanning `d` from position `i`, as
/// `(start, end)` pairs. At each start code the unit begins right after the
/// code and runs to the next boundary found from one byte after its start
/// (or to the end of the data); the scan then resumes at the unit's start.
pub open spec fn nal_scan(d: Seq<u8>, i: int) -> Seq<(int, int)>
    decreases d.len() - i,
{
    if i < 0 || i >= d.len() {
        seq![]
    } else if start_code_len(d, i) > 0 {
        let s = i + start_code_len(d, i);
        seq![(s, next_boundary(d, s + 1))] + nal_scan(d, s)
    } else {
        nal_scan(d, i + 1)
    }
}

/// The NAL units of `d`.
pub open spec fn nal_units(d: Seq<u8>) -> Seq<(int, int)> {
    nal_scan(d, 0)
}

/// Index pairs of the machine as mathematical pairs.
pub open spec fn index_pairs(v: Seq<(usize, usize)>) -> Seq<(int, int)> {
    v.map_values(|p: (usize, usize)| (p.0 as int, p.1 as int))
}

/// What holds of every unit `(s, e)` that the scan yields.
pub open spec fn well_placed(d: Seq<u8>, s: int, e: int) -> bool {
    &&& 3 <= s < e <= d.len()
    &&& d[s - 3] == 0 && d[s - 2] == 0 && d[s - 1] == 1
    &&& e == d.len() || is_boundary(d, e)
}

/// The first boundary from `j` lies between `j` and the end of the data,
/// and is a boundary unless it is the end.
pub proof fn lemma_next_boundary(d: Seq<u8>, j: int)
    requires
        0 <= j,
    ensures
        j <= next_boundary(d, j) <= d.len() || (j > d.len() && next_boundary(d, j) == d.len()),
        next_boundary(d, j) == d.len() || is_boundary(d, next_boundary(d, j)),
    decreases d.len() - j,
{
    if j + 3 < d.len() && !is_boundary(d, j) {
        lemma_next_boundary(d, j + 1);
    }
}

/// Every unit of a scan from `i` is well placed and starts after `i`, and the
/// starts strictly increase.
pub proof fn lemma_nal_scan(d: Seq<u8>, i: int)
    requires
        0 <= i,
    ensures
        forall|k: int|
            0 <= k < nal_scan(d, i).len() ==> well_placed(d, (#[trigger] nal_scan(d, i)[k]).0,
                nal_scan(d, i)[k].1) && i < nal_scan(d, i)[k].0,
        forall|k: int, m: int|
            0 <= k < m < nal_scan(d, i).len() ==> (#[trigger] nal_scan(d, i)[k]).0 < (
            #[trigger] nal_scan(d, i)[m]).0,
    decreases d.len() - i,
{
    if i >= d.len() {
    } else if start_code_len(d, i) > 0 {
        let s = i + start_code_len(d, i);
        lemma_nal_scan(d, s);
        lemma_next_boundary(d, s + 1);
        let rest = nal_scan(d, s);
        assert(nal_scan(d, i) == seq![(s, next_boundary(d, s + 1))] + rest);
        assert(well_placed(d, s, next_boundary(d, s + 1)));
        assert(nal_scan(d, i)[0] == (s, next_boundary(d, s + 1)));
        assert forall|k: int|
            0 <= k < nal_scan(d, i).len() implies well_placed(
            d,
            (#[trigger] nal_scan(d, i)[k]).0,
            nal_scan(d, i)[k].1,
        ) && i < nal_scan(d, i)[k].0 by {
            if k > 0 {
                assert(nal_scan(d, i)[k] == rest[k - 1]);
            }
        }
        assert forall|k: int, m: int|
            0 <= k < m < nal_scan(d, i).len() implies (#[trigger] nal_scan(d, i)[k]).0 < (
            #[trigger] nal_scan(d, i)[m]).0 by {
            assert(nal_scan(d, i)[m] == rest[m - 1]);
            if k > 0 {
                assert(nal_scan(d, i)[k] == rest[k - 1]);
            }
        }
    } else {
        lemma_nal_scan(d, i + 1);
        assert(nal_scan(d, i) == nal_scan(d, i + 1));
    }
}

// ─────────────────────────────── scanning ───────────────────────────────

/// Whether a boundary begins at `j`.
fn boundary_at(data: &[u8], j: usize) -> (r: bool)
    requires
        j + 3 < data@.len(),
    ensures
        r == is_boundary(data@, j as int),
{
    data[j] == 0 && data[j + 1] == 0 && (data[j + 2] == 1 || (data[j + 2] == 0 && data[j + 3]
        == 1))
}

/// Finds all NAL units in `data`, as `(start, end)` byte positions: each unit
/// begins right after a `00 00 01` or `00 00 00 01` start code and ends at
/// the next start code or at the end of the data.
pub fn find_nal_units(data: &[u8]) -> (units: Vec<(usize, usize)>)
    ensures
        index_pairs(units@) == nal_units(data@),
        forall|k: int|
            0 <= k < units@.len() ==> well_placed(
                data@,
                (#[trigger] units@[k]).0 as int,
                units@[k].1 as int,
            ),
        forall|k: int, m: int|
            0 <= k < m < units@.len() ==> (#[trigger] units@[k]).0 < (#[trigger] units@[m]).0,
{
    let n = data.len();
    let mut units: Vec<(usize, usize)> = Vec::new();
    let mut i: usize = 0;
    while i < n
        invariant
            n == data@.len(),
            i <= n,
            nal_units(data@) == index_pairs(units@) + nal_scan(data@, i as int),
        decreases n - i,
    {
        let mut sc: usize = 0;
        if n - i > 3 && data[i] == 0 && data[i + 1] == 0 {
            if n - i > 4 && data[i + 2] == 0 && data[i + 3] == 1 {
                sc = 4;
            } else if data[i + 2] == 1 {
                sc = 3;
            }
        }
        assert(sc == start_code_len(data@, i as int));
        if sc == 0 {
            i += 1;
        } else {
            let nal_start = i + sc;
            let mut j: usize = nal_start + 1;
            while j < n && n - j > 3 && !boundary_at(data, j)
                invariant
                    n == data@.len(),
                    nal_start < n,
                    nal_start + 1 <= j <= n,
                    next_boundary(data@, nal_start + 1) == next_boundary(data@, j as int),
                decreases n - j,
            {
                j += 1;
            }
            let nal_end: usize = if j < n && n - j > 3 {
                j
            } else {
                n
            };
            assert(nal_end == next_boundary(data@, nal_start + 1));
            let ghost old_units = index_pairs(units@);
            units.push((nal_start, nal_end));
            assert(index_pairs(units@) =~= old_units.push((nal_start as int, nal_end as int)));
            assert(old_units.push((nal_start as int, nal_end as int)) + nal_scan(
                data@,
                nal_start as int,
            ) =~= old_units + (seq![(nal_start as int, nal_end as int)] + nal_scan(
                data@,
                nal_start as int,
            )));
            i = nal_start;
        }
    }
    assert(index_pairs(units@) + Seq::<(int, int)>::empty() =~= index_pairs(units@));
    proof {
        lemma_nal_scan(data@, 0);
        assert forall|k: int| 0 <= k < units@.len() implies well_placed(
            data@,
            (#[trigger] units@[k]).0 as int,
            units@[k].1 as int,
        ) by {
            assert(index_pairs(units@)[k] == nal_units(data@)[k]);
        }
        assert forall|k: int, m: int| 0 <= k < m < units@.len() implies (
        #[trigger] units@[k]).0 < (#[trigger] units@[m]).0 by {
            assert(index_pairs(units@)[k] == nal_units(data@)[k]);
            assert(index_pairs(units@)[m] == nal_units(data@)[m]);
        }
    }
    units
}


// ───────────────────────────── stream buffering ─────────────────────────────

/// The views of a sequence of byte vectors.
pub open spec fn byte_views(s: Seq<Vec<u8>>) -> Seq<Seq<u8>> {
    s.map_values(|x: Vec<u8>| x@)
}

/// The units of `b` that are complete: all but the last one found.
pub open spec fn complete_units(b: Seq<u8>) -> Seq<Seq<u8>> {
    let u = nal_units(b);
    if u.len() == 0 {
        seq![]
    } else {
        u.drop_last().map_values(|p: (int, int)| b.subrange(p.0, p.1))
    }
}

/// What stays buffered after the complete units of `b` are taken out: the
/// last unit found, which may still be incomplete, from its `00 00 01` start
/// code on, or, when no unit is found, `b` itself unless it has grown past
/// `MAX_NAL_BUFFER`.
pub open spec fn kept_bytes(b: Seq<u8>) -> Seq<u8> {
    let u = nal_units(b);
    if u.len() == 0 {
        if b.len() > MAX_NAL_BUFFER {
            seq![]
        } else {
            b
        }
    } else {
        b.skip(u.last().0 - 3)
    }
}

/// Appends `chunk` to `buffer`, returns the NAL units that are now complete
/// (in stream order) and keeps in `buffer` the last, possibly incomplete,
/// unit with its start code for the next read.
pub fn take_complete_nal_units(buffer: &mut Vec<u8>, chunk: &[u8]) -> (emitted: Vec<Vec<u8>>)
    ensures
        byte_views(emitted@) == complete_units(old(buffer)@ + chunk@),
        final(buffer)@ == kept_bytes(old(buffer)@ + chunk@),
{
    let ghost b = old(buffer)@ + chunk@;
    buffer.extend_from_slice(chunk);
    assert(buffer@ =~= b);
    let units = find_nal_units(buffer.as_slice());
    if units.len() == 0 {
        if buffer.len() > MAX_NAL_BUFFER {
            buffer.clear();
        }
        return Vec::new();
    }
    let ghost u = nal_units(b);
    assert(index_pairs(units@).len() == units@.len());
    let count = units.len() - 1;
    let mut out: Vec<Vec<u8>> = Vec::new();
    let mut k: usize = 0;
    while k < count
        invariant
            buffer@ == b,
            u == nal_units(b),
            index_pairs(units@) == u,
            count + 1 == units@.len(),
            k <= count,
            forall|m: int|
                0 <= m < units@.len() ==> well_placed(
                    b,
                    (#[trigger] units@[m]).0 as int,
                    units@[m].1 as int,
                ),
            byte_views(out@) == u.drop_last().map_values(|p: (int, int)| b.subrange(p.0, p.1)).take(
                k as int,
            ),
        decreases count - k,
    {
        let (s, e) = units[k];
        assert(well_placed(b, s as int, e as int));
        let piece = slice_to_vec(slice_subrange(buffer.as_slice(), s, e));
        let ghost old_out = byte_views(out@);
        out.push(piece);
        assert(index_pairs(units@)[k as int] == (s as int, e as int));
        assert(byte_views(out@) =~= old_out.push(b.subrange(s as int, e as int)));
        assert(u.drop_last().map_values(|p: (int, int)| b.subrange(p.0, p.1)).take(k + 1) =~= u.drop_last().map_values(
            |p: (int, int)| b.subrange(p.0, p.1),
        ).take(k as int).push(b.subrange(s as int, e as int)));
        k += 1;
    }
    assert(u.drop_last().map_values(|p: (int, int)| b.subrange(p.0, p.1)).take(count as int) =~= u.drop_last().map_values(
        |p: (int, int)| b.subrange(p.0, p.1),
    ));
    let last_start = units[count].0;
    assert(index_pairs(units@)[count as int] == u.last());
    assert(well_placed(b, last_start as int, units@[count as int].1 as int));
    let keep_from = last_start - 3;
    let rest = slice_to_vec(slice_subrange(buffer.as_slice(), keep_from, buffer.len()));
    assert(rest@ =~= b.skip(keep_from as int));
    *buffer = rest;
    out
}

/// The bytes still buffered when the stream ends, as one last unit, if any.
pub fn flush_nal_buffer(buffer: &mut Vec<u8>) -> (last: Option<Vec<u8>>)
    ensures
        final(buffer)@.len() == 0,
        match last {
            Some(v) => old(buffer)@.len() > 0 && v@ == old(buffer)@,
            None => old(buffer)@.len() == 0,
        },
{
    if buffer.len() == 0 {
        None
    } else {
        let mut taken: Vec<u8> = Vec::new();
        std::mem::swap(&mut taken, buffer);
        Some(taken)
    }
}


// ───────────────────────────── screen size ─────────────────────────────

/// Screen size assumed when `wm size` prints nothing usable.
pub const DEFAULT_SCREEN_WIDTH: u32 = 1080;

/// Screen size assumed when `wm size` prints nothing usable.
pub const DEFAULT_SCREEN_HEIGHT: u32 = 1920;

/// `WIDTHxHEIGHT` read as two `u32`s, when `s` holds exactly one `x`.
pub open spec fn size_pair(s: Seq<char>) -> Option<(u32, u32)> {
    match find_seq(s, seq!['x']) {
        Some(k) => {
            if contains_seq(s.skip(k + 1), seq!['x']) {
                None
            } else {
                match (parse_u32(s.take(k)), parse_u32(s.skip(k + 1))) {
                    (Some(w), Some(h)) => Some((w, h)),
                    _ => None,
                }
            }
        },
        None => None,
    }
}

/// The screen size in the output of `wm size` (such as
/// `Physical size: 1080x1920`): the last word read as `WIDTHxHEIGHT`, or
/// 1080x1920 when that fails.
pub open spec fn screen_size(out: Seq<char>) -> (u32, u32) {
    let ws = words(out);
    if ws.len() > 0 {
        match size_pair(ws.last()) {
            Some(p) => p,
            None => (DEFAULT_SCREEN_WIDTH, DEFAULT_SCREEN_HEIGHT),
        }
    } else {
        (DEFAULT_SCREEN_WIDTH, DEFAULT_SCREEN_HEIGHT)
    }
}

/// Reads `WIDTHxHEIGHT` from one word.
fn parse_size_word(w: &[char]) -> (r: Option<(u32, u32)>)
    ensures
        r == size_pair(w@),
{
    let x = ['x'];
    match find_chars(w, &x) {
        Some(k) => {
            assert(x@ =~= seq!['x']);
            proof {
                lemma_find_from(w@, seq!['x'], 0);
            }
            assert(occurs_at(w@, seq!['x'], k as int));
            assert(seq!['x'].len() == 1);
            let n = w.len();
            assert(k + 1 <= n);
            let tail = sub_chars(w, k + 1, n);
            assert(tail@ =~= w@.skip(k + 1));
            if contains_chars(tail.as_slice(), &x) {
                return None;
            }
            let head = sub_chars(w, 0, k);
            assert(head@ =~= w@.take(k as int));
            match (parse_u32_chars(head.as_slice()), parse_u32_chars(tail.as_slice())) {
                (Some(a), Some(b)) => Some((a, b)),
                _ => None,
            }
        },
        None => {
            assert(x@ =~= seq!['x']);
            None
        },
    }
}

/// The screen size printed by `wm size`; 1080x1920 when none can be read.
pub fn parse_screen_size(output: &str) -> (r: (u32, u32))
    ensures
        r == screen_size(output@),
{
    let chars = chars_of(output);
    let ws = split_words(chars.as_slice());
    if ws.len() == 0 {
        return (DEFAULT_SCREEN_WIDTH, DEFAULT_SCREEN_HEIGHT);
    }
    assert(views(ws@).last() == ws@.last()@);
    match parse_size_word(ws[ws.len() - 1].as_slice()) {
        Some(p) => p,
        None => (DEFAULT_SCREEN_WIDTH, DEFAULT_SCREEN_HEIGHT),
    }
}

/// The size the stream is recorded at: the width capped at 1920 and the
/// height capped at 1080.
pub fn capped_dimensions(width: u32, height: u32) -> (r: (u32, u32))
    ensures
        r.0 == if width < 1920 { width } else { 1920 },
        r.1 == if height < 1080 { height } else { 1080 },
{
    let w = if width < 1920 { width } else { 1920 };
    let h = if height < 1080 { height } else { 1080 };
    (w, h)
}

/// The device-side `screenrecord` command line for the given size.
pub open spec fn screenrecord_command_spec(width: u32, height: u32) -> Seq<char> {
    "screenrecord --output-format=h264 --bit-rate="@ + decimal((DEFAULT_BITRATE / 1000) as nat)
        + " --max-fps="@ + decimal(DEFAULT_MAX_FPS as nat) + " --max-size="@ + decimal(
        DEFAULT_MAX_SIZE as nat,
    ) + " --size="@ + decimal(width as nat) + "x"@ + decimal(height as nat) + " -"@
}

/// The device-side `screenrecord` command that streams raw H.264 to stdout.
pub fn screenrecord_command(width: u32, height: u32) -> (r: String)
    ensures
        r@ == screenrecord_command_spec(width, height),
{
    let mut s = String::from_str("screenrecord --output-format=h264 --bit-rate=");
    s.append(u64_to_string((DEFAULT_BITRATE / 1000) as u64).as_str());
    s.append(" --max-fps=");
    s.append(u64_to_string(DEFAULT_MAX_FPS as u64).as_str());
    s.append(" --max-size=");
    s.append(u64_to_string(DEFAULT_MAX_SIZE as u64).as_str());
    s.append(" --size=");
    s.append(u64_to_string(width as u64).as_str());
    s.append("x");
    s.append(u64_to_string(height as u64).as_str());
    s.append(" -");
    s
}


/// Each unit of a scan ends at the first boundary after its start.
proof fn lemma_scan_ends(d: Seq<u8>, i: int)
    requires
        0 <= i,
    ensures
        forall|k: int|
            0 <= k < nal_scan(d, i).len() ==> (#[trigger] nal_scan(d, i)[k]).1 == next_boundary(
                d,
                nal_scan(d, i)[k].0 + 1,
            ),
    decreases d.len() - i,
{
    if i >= d.len() {
    } else if start_code_len(d, i) > 0 {
        let s = i + start_code_len(d, i);
        lemma_scan_ends(d, s);
        let rest = nal_scan(d, s);
        assert(nal_scan(d, i) == seq![(s, next_boundary(d, s + 1))] + rest);
        assert forall|k: int| 0 <= k < nal_scan(d, i).len() implies (#[trigger] nal_scan(d, i)[k]).1
            == next_boundary(d, nal_scan(d, i)[k].0 + 1) by {
            if k > 0 {
                assert(nal_scan(d, i)[k] == rest[k - 1]);
            }
        }
    } else {
        lemma_scan_ends(d, i + 1);
        assert(nal_scan(d, i) == nal_scan(d, i + 1));
    }
}

/// The first boundary from `j` comes no later than any boundary at or after `j`.
proof fn lemma_next_boundary_at_most(d: Seq<u8>, j: int, t: int)
    requires
        0 <= j <= t,
        is_boundary(d, t),
    ensures
        next_boundary(d, j) <= t,
    decreases t - j,
{
    if j < t && !is_boundary(d, j) {
        lemma_next_boundary_at_most(d, j + 1, t);
    }
}

/// The last unit found stays buffered, whole and with its `00 00 01` start
/// code, until a later start code completes it; and every unit handed out
/// ends before that start code, unless the unit began so close to it (a
/// start code right after its own) that the two overlap.
pub proof fn lemma_incomplete_unit_kept(b: Seq<u8>)
    requires
        nal_units(b).len() > 0,
    ensures
        kept_bytes(b) == seq![0u8, 0u8, 1u8] + b.skip(nal_units(b).last().0),
        forall|k: int|
            0 <= k < complete_units(b).len() && (#[trigger] nal_units(b)[k]).0 < nal_units(b).last().0
                - 3 ==> nal_units(b)[k].1 <= nal_units(b).last().0 - 3,
{
    lemma_nal_scan(b, 0);
    lemma_scan_ends(b, 0);
    let u = nal_units(b);
    let s = u.last().0;
    assert(well_placed(b, s, u.last().1));
    assert(kept_bytes(b) =~= seq![0u8, 0u8, 1u8] + b.skip(s));
    assert(is_boundary(b, s - 3));
    assert forall|k: int|
        0 <= k < complete_units(b).len() && (#[trigger] nal_units(b)[k]).0 < s - 3 implies nal_units(
        b,
    )[k].1 <= s - 3 by {
        assert(u[k].0 >= 3) by {
            assert(well_placed(b, u[k].0, u[k].1));
        }
        lemma_next_boundary_at_most(b, u[k].0 + 1, s - 3);
    }
}

/// Every unit handed out while streaming is a non-empty run of the buffered
/// bytes that directly follows a start code (`00 00 01`, possibly with one
/// more `00` before it) and ends at the next start code or the end of the data.
pub proof fn lemma_emitted_units_placed(b: Seq<u8>)
    ensures
        forall|k: int|
            0 <= k < complete_units(b).len() ==> {
                let (s, e) = nal_units(b)[k];
                &&& well_placed(b, s, e)
                &&& #[trigger] complete_units(b)[k] == b.subrange(s, e)
                &&& complete_units(b)[k].len() > 0
            },
{
    lemma_nal_scan(b, 0);
    let u = nal_units(b);
    assert forall|k: int| 0 <= k < complete_units(b).len() implies {
        let (s, e) = nal_units(b)[k];
        &&& well_placed(b, s, e)
        &&& #[trigger] complete_units(b)[k] == b.subrange(s, e)
        &&& complete_units(b)[k].len() > 0
    } by {
        assert(u.len() > 0);
        assert(complete_units(b)[k] == b.subrange(u[k].0, u[k].1));
        assert(well_placed(b, u[k].0, u[k].1));
    }
}

/// A word `WIDTHxHEIGHT` of two decimal numbers reads as exactly that width
/// and that height, in that order, whichever is larger.
pub proof fn lemma_size_pair_in_order(w: u32, h: u32)
    ensures
        size_pair(decimal(w as nat) + seq!['x'] + decimal(h as nat)) == Some((w, h)),
{
    let a = decimal(w as nat);
    let b = decimal(h as nat);
    let x = seq!['x'];
    let s = a + x + b;
    crate::text::lemma_decimal_digits(w as nat);
    crate::text::lemma_decimal_digits(h as nat);
    lemma_find_from(s, x, 0);
    assert(s.subrange(a.len() as int, a.len() + 1 as int) =~= x);
    assert(occurs_at(s, x, a.len() as int));
    assert forall|j: int| 0 <= j < a.len() implies !occurs_at(s, x, j) by {
        assert(s[j] == a[j]);
        assert(crate::text::is_digit(a[j]));
        if occurs_at(s, x, j) {
            assert(s.subrange(j, j + 1)[0] == s[j]);
        }
    }
    assert(find_seq(s, x) == Some(a.len() as int));
    let k = a.len() as int;
    assert(s.skip(k + 1) =~= b);
    assert(s.take(k) =~= a);
    lemma_find_from(b, x, 0);
    if contains_seq(b, x) {
        let i = find_seq(b, x)->0;
        assert(b.subrange(i, i + 1)[0] == b[i]);
        assert(crate::text::is_digit(b[i]));
    }
    assert(crate::text::is_digit(a[0]));
    assert(crate::text::is_digit(b[0]));
    assert(crate::text::unsigned_digits(a) == a);
    assert(crate::text::unsigned_digits(b) == b);
}

/// The screen size read from `wm size` output whose last word is
/// `WIDTHxHEIGHT` is that width and height, in that order.
pub proof fn lemma_screen_size_in_order(out: Seq<char>, w: u32, h: u32)
    requires
        words(out).len() > 0,
        words(out).last() == decimal(w as nat) + seq!['x'] + decimal(h as nat),
    ensures
        screen_size(out) == (w, h),
{
    lemma_size_pair_in_order(w, h);
}

} // verus!
