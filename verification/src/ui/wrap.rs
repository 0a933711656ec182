//! Wrapping the input into visual lines, and moving through them.
//!
//! The input is split at `\n` into logical lines; each logical line is cut
//! into chunks that fit the box (the first chunk of the whole input leaves
//! room for the prompt), breaking at the last space of a chunk when there is
//! one after its first character. Offsets are UTF-8 byte offsets, as the
//! input's cursor is.

use vstd::prelude::*;
use crate::text::{
    blen, byte_len, char_index_of_byte, char_width, chars_before, chars_of, find_char, is_boundary,
    lemma_blen_take_mono, lemma_blen_take_step, lemma_boundary_unique,
};
use super::{max2, min2, sat_sub, AppState, Rect};

verus! {

broadcast use vstd::string::group_string_axioms;

/// Columns the prompt takes on the first visual line.
pub const PROMPT_COLS: u16 = 2;

/// The input box is at least this many rows high.
pub const MIN_INPUT_HEIGHT: u16 = 5;

/// At most this many visual lines are shown at once.
pub const MAX_VISIBLE_LINES: usize = 8;

/// A visual line of the input: the byte range it shows, and whether it
/// carries the prompt.
#[derive(Clone, Copy, Debug)]
pub struct VisualSegment {
    pub start: usize,
    pub end: usize,
    pub show_prompt: bool,
}

/// Index of the last space among the first `m` characters of `t`, or -1.
pub open spec fn last_space(t: Seq<char>, m: int) -> int
    decreases m,
{
    if m <= 0 {
        -1
    } else if t[m - 1] == ' ' {
        m - 1
    } else {
        last_space(t, m - 1)
    }
}

/// Where the chunk of line `l` that starts at character `k` ends, for chunks
/// of at most `max` columns: the rest of the line when it fits, else the last
/// space within the first `max` characters (not the first one), else after
/// `max` characters (at least one).
pub open spec fn wrap_chars(l: Seq<char>, k: int, max: int) -> int {
    let t = l.skip(k);
    if t.len() <= max {
        l.len() as int
    } else {
        let m = max2(max, 1);
        let j = last_space(t, m);
        if j > 0 {
            k + j
        } else {
            k + m
        }
    }
}

proof fn lemma_last_space_range(t: Seq<char>, m: int)
    ensures
        -1 <= last_space(t, m) < max2(m, 0),
        last_space(t, m) >= 0 ==> t[last_space(t, m)] == ' ',
        forall|i: int| last_space(t, m) < i < m ==> t[i] != ' ',
    decreases m,
{
    if m > 0 && t[m - 1] != ' ' {
        lemma_last_space_range(t, m - 1);
    }
}

/// A chunk makes progress and stays in the line.
pub proof fn lemma_wrap_progress(l: Seq<char>, k: int, max: int)
    requires
        0 <= k < l.len(),
    ensures
        k < wrap_chars(l, k, max) <= l.len(),
{
    let t = l.skip(k);
    lemma_last_space_range(t, max2(max, 1));
}

/// The chunks (as character ranges, offset by `base`) of line `l` from
/// character `k` on; `first` says whether the chunk at `k` is the first of
/// the line. An empty line has one empty chunk.
pub open spec fn line_chunks(l: Seq<char>, k: int, first: bool, fw: int, cw: int, base: int) -> Seq<
    (int, int),
>
    decreases l.len() - k,
{
    if k >= l.len() {
        if first {
            seq![(base + k, base + k)]
        } else {
            seq![]
        }
    } else {
        let e = wrap_chars(
            l,
            k,
            if first {
                fw
            } else {
                cw
            },
        );
        if 0 <= k {
            proof {
                lemma_wrap_progress(
                    l,
                    k,
                    if first {
                        fw
                    } else {
                        cw
                    },
                );
            }
            if e >= l.len() {
                seq![(base + k, base + e)]
            } else {
                seq![(base + k, base + e)] + line_chunks(l, e, false, fw, cw, base)
            }
        } else {
            seq![]
        }
    }
}

/// The chunks of the text `s`, which starts at character `base` of the input:
/// those of its first logical line, then those of the rest.
pub open spec fn text_chunks(s: Seq<char>, base: int, fw: int, cw: int) -> Seq<(int, int)>
    decreases s.len(),
{
    let i = find_char(s, '\n') as int;
    let here = line_chunks(s.take(i), 0, true, fw, cw, base);
    if i < s.len() {
        proof {
            lemma_find_char_bound(s, '\n');
        }
        here + text_chunks(s.skip(i + 1), base + i + 1, fw, cw)
    } else {
        here
    }
}

pub proof fn lemma_find_char_bound(s: Seq<char>, c: char)
    ensures
        find_char(s, c) <= s.len(),
    decreases s.len(),
{
    if s.len() > 0 && s[0] != c {
        lemma_find_char_bound(s.drop_first(), c);
    }
}

/// Columns of the first visual line of a box `width` wide.
pub open spec fn first_width(width: int) -> int {
    max2(sat_sub(width, PROMPT_COLS as int), 1)
}

/// Columns of the other visual lines.
pub open spec fn cont_width(width: int) -> int {
    max2(width, 1)
}

/// The character ranges of the visual lines of `input` in a box `width` wide
/// (none for an empty input).
pub open spec fn visual_chunks(input: Seq<char>, width: int) -> Seq<(int, int)> {
    if input.len() == 0 {
        seq![]
    } else {
        text_chunks(input, 0, first_width(width), cont_width(width))
    }
}

/// The visual lines of `input`, with byte offsets; only the first carries the prompt.
pub open spec fn visual_segs(input: Seq<char>, width: int) -> Seq<VisualSegment> {
    let c = visual_chunks(input, width);
    Seq::new(
        c.len(),
        |i: int|
            VisualSegment {
                start: blen(input.take(c[i].0)) as usize,
                end: blen(input.take(c[i].1)) as usize,
                show_prompt: i == 0,
            },
    )
}

/// `lo + wrap_chars(v[lo..hi], k - lo, max)`: where the chunk at `k` of the
/// line `v[lo..hi]` ends.
fn wrap_in(v: &Vec<char>, lo: usize, hi: usize, k: usize, max: usize) -> (r: usize)
    requires
        lo <= k < hi <= v@.len(),
    ensures
        r == lo + wrap_chars(v@.subrange(lo as int, hi as int), k - lo, max as int),
        k < r <= hi,
{
    let ghost l = v@.subrange(lo as int, hi as int);
    let ghost t = l.skip(k - lo);
    assert(t =~= v@.subrange(k as int, hi as int));
    proof {
        lemma_wrap_progress(l, k - lo, max as int);
    }
    if hi - k <= max {
        return hi;
    }
    let m = if max >= 1 {
        max
    } else {
        1
    };
    let mut i = m;
    while i > 0 && v[k + i - 1] != ' '
        invariant
            0 <= i <= m <= hi - k,
            lo <= k < hi <= v@.len(),
            m == max2(max as int, 1),
            t == v@.subrange(k as int, hi as int),
            last_space(t, m as int) == last_space(t, i as int),
        decreases i,
    {
        assert(t[i - 1] == v@[k + i - 1]);
        i -= 1;
    }
    if i > 0 {
        assert(t[i - 1] == v@[k + i - 1]);
    }
    if i > 1 {
        k + (i - 1)
    } else {
        k + m
    }
}

/// `blen(v[..e])`, given `bk == blen(v[..k])`.
fn bytes_to(v: &Vec<char>, k: usize, bk: usize, e: usize) -> (r: usize)
    requires
        k <= e <= v@.len(),
        bk == blen(v@.take(k as int)),
        blen(v@) <= usize::MAX,
    ensures
        r == blen(v@.take(e as int)),
{
    let mut i = k;
    let mut b = bk;
    assert(v@.take(v@.len() as int) =~= v@);
    while i < e
        invariant
            k <= i <= e <= v@.len(),
            b == blen(v@.take(i as int)),
            blen(v@) <= usize::MAX,
            v@.take(v@.len() as int) == v@,
        decreases e - i,
    {
        proof {
            lemma_blen_take_step(v@, i as int);
            lemma_blen_take_mono(v@, i + 1, v@.len() as int);
        }
        b = b + char_width(v[i]);
        i += 1;
    }
    b
}

/// The first position at or after `p` that holds `c` (`v.len()` when none).
fn find_from(v: &Vec<char>, p: usize, c: char) -> (q: usize)
    requires
        p <= v@.len(),
    ensures
        p <= q <= v@.len(),
        q - p == find_char(v@.skip(p as int), c),
        q < v@.len() ==> v@[q as int] == c,
        forall|i: int| p <= i < q ==> v@[i] != c,
{
    let mut q = p;
    while q < v.len() && v[q] != c
        invariant
            p <= q <= v@.len(),
            find_char(v@.skip(p as int), c) == (q - p) + find_char(v@.skip(q as int), c),
            forall|i: int| p <= i < q ==> v@[i] != c,
        decreases v@.len() - q,
    {
        assert(v@.skip(q as int).drop_first() =~= v@.skip(q + 1));
        q += 1;
    }
    if q < v.len() {
        assert(v@.skip(q as int)[0] == c);
    } else {
        assert(v@.skip(q as int).len() == 0);
    }
    q
}

/// The visual lines of `input` in a box `width` columns wide.
pub fn visual_segments(input: &str, width: u16) -> (r: Vec<VisualSegment>)
    requires
        blen(input@) <= usize::MAX,
    ensures
        r@ == visual_segs(input@, width as int),
        forall|i: int|
            0 <= i < visual_chunks(input@, width as int).len() ==> 0 <= (#[trigger] visual_chunks(
                input@,
                width as int,
            )[i]).0 <= visual_chunks(input@, width as int)[i].1 <= input@.len(),
{
    let v = chars_of(input);
    let w = width as usize;
    let fw = if w >= 2 && w - 2 >= 1 {
        w - 2
    } else {
        1
    };
    let cw = if w >= 1 {
        w
    } else {
        1
    };
    let ghost fwi = first_width(width as int);
    let ghost cwi = cont_width(width as int);
    assert(fw == fwi && cw == cwi);
    let mut segs: Vec<VisualSegment> = Vec::new();
    if v.len() == 0 {
        assert(segs@ =~= visual_segs(input@, width as int));
        return segs;
    }
    let ghost total = text_chunks(v@, 0, fwi, cwi);
    let ghost mut done: Seq<(int, int)> = seq![];
    let mut p: usize = 0;
    let mut bp: usize = 0;
    assert(v@.skip(0) =~= v@);
    assert(v@.take(0) =~= Seq::<char>::empty());
    loop
        invariant_except_break
            done + text_chunks(v@.skip(p as int), p as int, fwi, cwi) == total,
            forall|i: int| 0 <= i < done.len() ==> 0 <= (#[trigger] done[i]).0 <= done[i].1 <= p,
        invariant
            forall|i: int| 0 <= i < done.len() ==> 0 <= (#[trigger] done[i]).0 <= done[i].1 <= v@.len(),
            0 <= p <= v@.len(),
            v@ == input@,
            v@.len() > 0,
            blen(v@) <= usize::MAX,
            fw == fwi,
            cw == cwi,
            fwi == first_width(width as int),
            cwi == cont_width(width as int),
            total == text_chunks(v@, 0, fwi, cwi),
            bp == blen(v@.take(p as int)),
            segs@.len() == done.len(),
            forall|i: int|
                0 <= i < done.len() ==> {
                    &&& (#[trigger] segs@[i]).start == blen(v@.take(done[i].0))
                    &&& segs@[i].end == blen(v@.take(done[i].1))
                    &&& segs@[i].show_prompt == (i == 0)
                },
        ensures
            done == total,
            segs@.len() == done.len(),
            forall|i: int|
                0 <= i < done.len() ==> {
                    &&& (#[trigger] segs@[i]).start == blen(v@.take(done[i].0))
                    &&& segs@[i].end == blen(v@.take(done[i].1))
                    &&& segs@[i].show_prompt == (i == 0)
                },
        decreases v@.len() - p,
    {
        let q = find_from(&v, p, '\n');
        let ghost s = v@.skip(p as int);
        let ghost line = v@.subrange(p as int, q as int);
        assert(s.take(q - p) =~= line);
        let ghost after: Seq<(int, int)> = if q < v@.len() {
            text_chunks(v@.skip(q + 1), q + 1, fwi, cwi)
        } else {
            seq![]
        };
        proof {
            if q < v@.len() {
                assert(s.skip(q - p + 1) =~= v@.skip(q + 1));
            }
            assert(text_chunks(s, p as int, fwi, cwi) == line_chunks(line, 0, true, fwi, cwi, p as int)
                + after);
        }
        let mut k = p;
        let mut bk = bp;
        let mut first = true;
        loop
            invariant_except_break
                done + line_chunks(line, k - p, first, fwi, cwi, p as int) + after == total,
                forall|i: int| 0 <= i < done.len() ==> 0 <= (#[trigger] done[i]).0 <= done[i].1 <= k,
            invariant
                forall|i: int| 0 <= i < done.len() ==> 0 <= (#[trigger] done[i]).0 <= done[i].1 <= v@.len(),
                p <= k <= q <= v@.len(),
                line == v@.subrange(p as int, q as int),
                v@ == input@,
                v@.len() > 0,
                blen(v@) <= usize::MAX,
                fw == fwi,
                cw == cwi,
                bk == blen(v@.take(k as int)),
                first ==> k == p,
                segs@.len() == done.len(),
                forall|i: int|
                    0 <= i < done.len() ==> {
                        &&& (#[trigger] segs@[i]).start == blen(v@.take(done[i].0))
                        &&& segs@[i].end == blen(v@.take(done[i].1))
                        &&& segs@[i].show_prompt == (i == 0)
                    },
            ensures
                done + after == total,
                segs@.len() == done.len(),
                forall|i: int|
                    0 <= i < done.len() ==> {
                        &&& (#[trigger] segs@[i]).start == blen(v@.take(done[i].0))
                        &&& segs@[i].end == blen(v@.take(done[i].1))
                        &&& segs@[i].show_prompt == (i == 0)
                    },
                forall|i: int| 0 <= i < done.len() ==> 0 <= (#[trigger] done[i]).0 <= done[i].1 <= q,
            decreases q - k,
        {
            if k >= q {
                if first {
                    let seg = VisualSegment { start: bk, end: bk, show_prompt: segs.len() == 0 };
                    segs.push(seg);
                    proof {
                        let old_done = done;
                        done = done.push((k as int, k as int));
                        assert(line_chunks(line, k - p, first, fwi, cwi, p as int) == seq![
                            (k as int, k as int),
                        ]);
                        assert(old_done + seq![(k as int, k as int)] == done);
                        assert forall|i: int| 0 <= i < done.len() implies {
                            &&& (#[trigger] segs@[i]).start == blen(v@.take(done[i].0))
                            &&& segs@[i].end == blen(v@.take(done[i].1))
                            &&& segs@[i].show_prompt == (i == 0)
                        } by {
                            if i < old_done.len() {
                            }
                        }
                    }
                } else {
                    assert(line_chunks(line, k - p, first, fwi, cwi, p as int) =~= Seq::<
                        (int, int),
                    >::empty());
                    assert(done + Seq::<(int, int)>::empty() =~= done);
                }
                break;
            }
            let max = if first {
                fw
            } else {
                cw
            };
            let e = wrap_in(&v, p, q, k, max);
            let be = bytes_to(&v, k, bk, e);
            let seg = VisualSegment { start: bk, end: be, show_prompt: segs.len() == 0 };
            segs.push(seg);
            proof {
                let old_done = done;
                let rest = line_chunks(line, k - p, first, fwi, cwi, p as int);
                assert(rest == (if e - p >= line.len() {
                    seq![(k as int, e as int)]
                } else {
                    seq![(k as int, e as int)] + line_chunks(line, e - p, false, fwi, cwi, p as int)
                }));
                done = done.push((k as int, e as int));
                assert forall|i: int| 0 <= i < done.len() implies {
                    &&& (#[trigger] segs@[i]).start == blen(v@.take(done[i].0))
                    &&& segs@[i].end == blen(v@.take(done[i].1))
                    &&& segs@[i].show_prompt == (i == 0)
                } by {
                    if i < old_done.len() {
                    }
                }
                if e >= q {
                    assert(line_chunks(line, e - p, false, fwi, cwi, p as int) =~= Seq::<
                        (int, int),
                    >::empty());
                    assert(old_done + rest =~= done + line_chunks(
                        line,
                        e - p,
                        false,
                        fwi,
                        cwi,
                        p as int,
                    ));
                } else {
                    assert(old_done + rest =~= done + line_chunks(
                        line,
                        e - p,
                        false,
                        fwi,
                        cwi,
                        p as int,
                    ));
                }
            }
            k = e;
            bk = be;
            first = false;
            if k >= q {
                proof {
                    assert(line_chunks(line, k - p, false, fwi, cwi, p as int) =~= Seq::<
                        (int, int),
                    >::empty());
                    assert(done + Seq::<(int, int)>::empty() =~= done);
                }
                break;
            }
        }
        if q < v.len() {
            let bq = bytes_to(&v, p, bp, q);
            proof {
                lemma_blen_take_step(v@, q as int);
                lemma_blen_take_mono(v@, q + 1, v@.len() as int);
                assert(v@.take(v@.len() as int) =~= v@);
                assert(crate::text::width(v@[q as int]) == 1) by {
                    assert(v@[q as int] == '\n');
                }
            }
            p = q + 1;
            bp = bq + 1;
        } else {
            proof {
                assert(done + Seq::<(int, int)>::empty() =~= done);
            }
            break;
        }
    }
    proof {
        let c = visual_chunks(input@, width as int);
        assert(done == c);
        assert(forall|i: int| 0 <= i < done.len() ==> 0 <= (#[trigger] done[i]).0 <= done[i].1 <= v@.len());
        assert(segs@ =~= visual_segs(input@, width as int));
    }
    segs
}

/// Where the chunk that starts at byte `start` of `line` ends, in bytes, for
/// chunks of `max_cols` columns.
pub fn wrap_end(line: &str, start: usize, max_cols: usize) -> (r: usize)
    requires
        is_boundary(line@, start as int),
        blen(line@) <= usize::MAX,
    ensures
        line@.len() > 0 && chars_before(line@, start as int) < line@.len() ==> r == blen(
            line@.take(wrap_chars(line@, chars_before(line@, start as int), max_cols as int)),
        ),
        line@.len() == 0 ==> r == 0,
        line@.len() > 0 && chars_before(line@, start as int) == line@.len() ==> r == blen(line@),
{
    let v = chars_of(line);
    if v.len() == 0 {
        return 0;
    }
    let k = char_index_of_byte(&v, start).unwrap();
    if k == v.len() {
        assert(v@.take(k as int) =~= v@);
        return start;
    }
    let e = wrap_in(&v, 0, v.len(), k, max_cols);
    assert(v@.subrange(0, v@.len() as int) =~= v@);
    bytes_to(&v, k, start, e)
}

/// The visual line that holds byte `cursor`: the first that ends at or after
/// it (the last when none does; 0 when there are none).
pub open spec fn cursor_line(segs: Seq<VisualSegment>, cursor: int) -> int
    decreases segs.len(),
{
    if segs.len() == 0 {
        0
    } else if cursor <= segs[0].end {
        0
    } else if segs.len() == 1 {
        0
    } else {
        1 + cursor_line(segs.drop_first(), cursor)
    }
}

proof fn lemma_cursor_line(segs: Seq<VisualSegment>, cursor: int, i: int)
    requires
        0 <= i < segs.len(),
        forall|k: int| 0 <= k < i ==> cursor > (#[trigger] segs[k]).end,
        cursor <= segs[i].end || i == segs.len() - 1,
    ensures
        cursor_line(segs, cursor) == i,
    decreases i,
{
    if i > 0 {
        assert forall|k: int| 0 <= k < i - 1 implies cursor > (#[trigger] segs.drop_first()[k]).end by {
            assert(segs.drop_first()[k] == segs[k + 1]);
        }
        lemma_cursor_line(segs.drop_first(), cursor, i - 1);
    }
}

/// The index of the visual line that holds byte `cursor`.
pub fn cursor_visual_index(segments: &[VisualSegment], cursor: usize) -> (r: usize)
    ensures
        r == cursor_line(segments@, cursor as int),
        segments@.len() > 0 ==> r < segments@.len(),
{
    let n = segments.len();
    let mut i: usize = 0;
    while i < n
        invariant
            i <= n == segments@.len(),
            forall|k: int| 0 <= k < i ==> cursor > (#[trigger] segments@[k]).end,
        decreases n - i,
    {
        if cursor <= segments[i].end {
            proof {
                lemma_cursor_line(segments@, cursor as int, i as int);
            }
            return i;
        }
        i += 1;
    }
    if n > 0 {
        proof {
            lemma_cursor_line(segments@, cursor as int, n - 1);
        }
    }
    n.saturating_sub(1)
}

/// The text columns of an input box `outer_width` wide (at least 8).
pub open spec fn inner_w(outer_width: int) -> int {
    max2(sat_sub(outer_width, 6), 8)
}

/// The text columns of an input box `outer_width` wide.
pub fn inner_width(outer_width: u16) -> (r: u16)
    ensures
        r == inner_w(outer_width as int),
{
    let w = outer_width.saturating_sub(6);
    if w >= 8 {
        w
    } else {
        8
    }
}

/// How many visual lines fit the view: at most eight, at least one.
pub open spec fn input_viewport(n: int) -> int {
    max2(min2(MAX_VISIBLE_LINES as int, n), 1)
}

/// The scroll offset that keeps visual line `vis` in a view of `vp` lines.
pub open spec fn scroll_showing(vis: int, scroll: int, vp: int) -> int {
    if vis < scroll {
        vis
    } else if vis >= scroll + vp {
        vis + 1 - vp
    } else {
        scroll
    }
}

/// The input's scroll offset after the cursor was brought into view in a box
/// `width` wide.
pub open spec fn scroll_for_cursor(input: Seq<char>, cursor: int, scroll: int, width: int) -> int {
    let segs = visual_segs(input, inner_w(width));
    if segs.len() == 0 {
        0
    } else {
        scroll_showing(cursor_line(segs, cursor), scroll, input_viewport(segs.len() as int))
    }
}

/// The rows of the input box: its visual lines (one to eight) and the border,
/// at least `MIN_INPUT_HEIGHT`.
pub fn height(state: &AppState, width: u16) -> (r: u16)
    requires
        blen(state.input@) <= usize::MAX,
    ensures
        r == max2(
            max2(min2(visual_segs(state.input@, inner_w(width as int)).len() as int, 8), 1) + 2,
            MIN_INPUT_HEIGHT as int,
        ),
{
    let inner = inner_width(width);
    let segs = visual_segments(state.input.as_str(), inner);
    let lines = if segs.len() >= 1 {
        segs.len()
    } else {
        1
    };
    let visible = if lines <= MAX_VISIBLE_LINES {
        lines
    } else {
        MAX_VISIBLE_LINES
    };
    let h = visible as u16 + 2;
    if h >= MIN_INPUT_HEIGHT {
        h
    } else {
        MIN_INPUT_HEIGHT
    }
}

/// Byte `cursor` is on visual line `vis` of `segs`, and the line's width.
fn segment_info(segs: &Vec<VisualSegment>, vis: usize) -> (r: (usize, usize))
    requires
        vis < segs@.len(),
    ensures
        r.0 == segs@[vis as int].start,
        r.1 == sat_sub(segs@[vis as int].end as int, segs@[vis as int].start as int),
{
    let s = segs[vis];
    (s.start, s.end.saturating_sub(s.start))
}

/// Where the cursor lands when it moves from byte `cursor` on visual line
/// `from` to visual line `to`: the same column, clipped to the line.
pub open spec fn moved_cursor(segs: Seq<VisualSegment>, from: int, to: int, cursor: int) -> int {
    segs[to].start + min2(
        sat_sub(cursor, segs[from].start as int),
        sat_sub(segs[to].end as int, segs[to].start as int),
    )
}

impl AppState {
    /// Scrolls the input so that the cursor's visual line is in view.
    pub fn ensure_input_scroll(&mut self, width: u16)
        requires
            blen(old(self).input@) <= usize::MAX,
        ensures
            final(self).input_scroll == scroll_for_cursor(
                old(self).input@,
                old(self).cursor as int,
                old(self).input_scroll as int,
                width as int,
            ),
            final(self).input == old(self).input,
            final(self).cursor == old(self).cursor,
            final(self).suggestion_pick == old(self).suggestion_pick,
            final(self).suggestion_matches == old(self).suggestion_matches,
            super::same_scrolling(*final(self), *old(self)),
            super::same_sidebar(*final(self), *old(self)),
            super::same_status(*final(self), *old(self)),
    {
        let inner = inner_width(width);
        let segments = visual_segments(self.input.as_str(), inner);
        if segments.len() == 0 {
            self.input_scroll = 0;
            return;
        }
        let vis = cursor_visual_index(segments.as_slice(), self.cursor);
        let viewport = if segments.len() <= MAX_VISIBLE_LINES {
            segments.len()
        } else {
            MAX_VISIBLE_LINES
        };
        if vis < self.input_scroll {
            self.input_scroll = vis;
        } else if vis >= viewport && vis - viewport >= self.input_scroll {
            self.input_scroll = vis + 1 - viewport;
        }
    }

    /// Moves the cursor to the same column of the visual line above.
    pub fn move_cursor_up_line(&mut self, width: u16)
        requires
            blen(old(self).input@) <= usize::MAX,
        ensures
            ({
                let segs = visual_segs(old(self).input@, inner_w(width as int));
                let vis = cursor_line(segs, old(self).cursor as int);
                if segs.len() == 0 || vis == 0 {
                    final(self).cursor == old(self).cursor && final(self).input_scroll == old(
                        self,
                    ).input_scroll
                } else {
                    &&& final(self).cursor == moved_cursor(
                        segs,
                        vis,
                        vis - 1,
                        old(self).cursor as int,
                    )
                    &&& final(self).input_scroll == scroll_for_cursor(
                        old(self).input@,
                        final(self).cursor as int,
                        old(self).input_scroll as int,
                        width as int,
                    )
                }
            }),
            final(self).input == old(self).input,
            final(self).suggestion_pick == old(self).suggestion_pick,
            final(self).suggestion_matches == old(self).suggestion_matches,
            super::same_scrolling(*final(self), *old(self)),
            super::same_sidebar(*final(self), *old(self)),
            super::same_status(*final(self), *old(self)),
    {
        let inner = inner_width(width);
        let segments = visual_segments(self.input.as_str(), inner);
        if segments.len() == 0 {
            return;
        }
        let vis = cursor_visual_index(segments.as_slice(), self.cursor);
        if vis == 0 {
            return;
        }
        let (prev_start, prev_len) = segment_info(&segments, vis - 1);
        let (cur_start, _) = segment_info(&segments, vis);
        let local = self.cursor.saturating_sub(cur_start);
        let target_local = if local <= prev_len {
            local
        } else {
            prev_len
        };
        assert(prev_start + target_local <= usize::MAX);
        self.cursor = prev_start + target_local;
        self.ensure_input_scroll(width);
    }

    /// Moves the cursor to the same column of the visual line below.
    pub fn move_cursor_down_line(&mut self, width: u16)
        requires
            blen(old(self).input@) <= usize::MAX,
        ensures
            ({
                let segs = visual_segs(old(self).input@, inner_w(width as int));
                let vis = cursor_line(segs, old(self).cursor as int);
                if segs.len() == 0 || vis + 1 >= segs.len() {
                    final(self).cursor == old(self).cursor && final(self).input_scroll == old(
                        self,
                    ).input_scroll
                } else {
                    &&& final(self).cursor == moved_cursor(
                        segs,
                        vis,
                        vis + 1,
                        old(self).cursor as int,
                    )
                    &&& final(self).input_scroll == scroll_for_cursor(
                        old(self).input@,
                        final(self).cursor as int,
                        old(self).input_scroll as int,
                        width as int,
                    )
                }
            }),
            final(self).input == old(self).input,
            final(self).suggestion_pick == old(self).suggestion_pick,
            final(self).suggestion_matches == old(self).suggestion_matches,
            super::same_scrolling(*final(self), *old(self)),
            super::same_sidebar(*final(self), *old(self)),
            super::same_status(*final(self), *old(self)),
    {
        let inner = inner_width(width);
        let segments = visual_segments(self.input.as_str(), inner);
        if segments.len() == 0 {
            return;
        }
        let vis = cursor_visual_index(segments.as_slice(), self.cursor);
        if vis + 1 >= segments.len() {
            return;
        }
        let (next_start, next_len) = segment_info(&segments, vis + 1);
        let (cur_start, _) = segment_info(&segments, vis);
        let local = self.cursor.saturating_sub(cur_start);
        let target_local = if local <= next_len {
            local
        } else {
            next_len
        };
        assert(next_start + target_local <= usize::MAX);
        self.cursor = next_start + target_local;
        self.ensure_input_scroll(width);
    }

    /// Scrolls the input one visual line up.
    pub fn scroll_input_up(&mut self, width: u16)
        ensures
            final(self).input_scroll == sat_sub(old(self).input_scroll as int, 1),
            final(self).input == old(self).input,
            final(self).cursor == old(self).cursor,
            final(self).suggestion_pick == old(self).suggestion_pick,
            final(self).suggestion_matches == old(self).suggestion_matches,
            super::same_scrolling(*final(self), *old(self)),
            super::same_sidebar(*final(self), *old(self)),
            super::same_status(*final(self), *old(self)),
    {
        self.input_scroll = self.input_scroll.saturating_sub(1);
    }

    /// Scrolls the input one visual line down, no further than its last page.
    pub fn scroll_input_down(&mut self, width: u16)
        requires
            blen(old(self).input@) <= usize::MAX,
        ensures
            ({
                let n = visual_segs(old(self).input@, inner_w(width as int)).len() as int;
                final(self).input_scroll == min2(
                    old(self).input_scroll + 1,
                    sat_sub(n, input_viewport(n)),
                )
            }),
            final(self).input == old(self).input,
            final(self).cursor == old(self).cursor,
            final(self).suggestion_pick == old(self).suggestion_pick,
            final(self).suggestion_matches == old(self).suggestion_matches,
            super::same_scrolling(*final(self), *old(self)),
            super::same_sidebar(*final(self), *old(self)),
            super::same_status(*final(self), *old(self)),
    {
        let inner = inner_width(width);
        let segs = visual_segments(self.input.as_str(), inner);
        let n = segs.len();
        let viewport = if n == 0 {
            1
        } else if n <= MAX_VISIBLE_LINES {
            n
        } else {
            MAX_VISIBLE_LINES
        };
        let max_scroll = n.saturating_sub(viewport);
        self.input_scroll = if self.input_scroll < max_scroll {
            self.input_scroll + 1
        } else {
            max_scroll
        };
    }
}

/// The byte offset a click at `(column, row)` in the input's text area puts
/// the cursor at.
pub open spec fn click_offset(column: u16, row: u16, area: Rect, input: Seq<char>, scroll: int) -> int {
    let w = max2(area.width as int, 1);
    let c = visual_chunks(input, w);
    let segs = visual_segs(input, w);
    let vis = scroll + sat_sub(row as int, area.y as int);
    if vis >= segs.len() {
        blen(input) as int
    } else {
        let rel = sat_sub(column as int, area.x + PROMPT_COLS);
        if rel == 0 {
            segs[vis].start as int
        } else if rel < c[vis].1 - c[vis].0 {
            blen(input.take(c[vis].0 + rel)) as int
        } else {
            segs[vis].end as int
        }
    }
}

/// The cursor offset for a click at `(column, row)` in the text area `text_area`,
/// with the input scrolled by `scroll` visual lines.
pub fn cursor_from_click(column: u16, row: u16, text_area: Rect, input: &str, scroll: usize) -> (r:
    usize)
    requires
        blen(input@) <= usize::MAX,
        text_area.x + PROMPT_COLS <= u16::MAX,
        scroll + sat_sub(row as int, text_area.y as int) <= usize::MAX,
    ensures
        r == click_offset(column, row, text_area, input@, scroll as int),
{
    let w: u16 = if text_area.width >= 1 {
        text_area.width
    } else {
        1
    };
    let v = chars_of(input);
    let segments = visual_segments(input, w);
    let ghost c = visual_chunks(input@, w as int);
    let rel_row = row.saturating_sub(text_area.y) as usize;
    let vis = scroll + rel_row;
    if vis >= segments.len() {
        return byte_len(&v);
    }
    let seg = segments[vis];
    let rel_col = column.saturating_sub(text_area.x + PROMPT_COLS);
    if rel_col == 0 {
        return seg.start;
    }
    proof {
        assert(v@.take(v@.len() as int) =~= v@);
        lemma_blen_take_mono(v@, c[vis as int].0, v@.len() as int);
        lemma_blen_take_mono(v@, c[vis as int].1, v@.len() as int);
        lemma_boundary_unique(v@, c[vis as int].0, seg.start as int);
        lemma_boundary_unique(v@, c[vis as int].1, seg.end as int);
    }
    let a = char_index_of_byte(&v, seg.start).unwrap();
    let b = char_index_of_byte(&v, seg.end).unwrap();
    let rel = rel_col as usize;
    if rel < b - a {
        bytes_to(&v, a, seg.start, a + rel)
    } else {
        seg.end
    }
}

impl AppState {
    /// Puts the cursor where the input's text area was clicked, and scrolls to it.
    pub fn set_cursor_from_click(&mut self, column: u16, row: u16, text_area: Rect)
        requires
            blen(old(self).input@) <= usize::MAX,
            text_area.x + PROMPT_COLS <= u16::MAX,
            old(self).input_scroll + sat_sub(row as int, text_area.y as int) <= usize::MAX,
        ensures
            final(self).cursor == click_offset(
                column,
                row,
                text_area,
                old(self).input@,
                old(self).input_scroll as int,
            ),
            final(self).input_scroll == scroll_for_cursor(
                old(self).input@,
                final(self).cursor as int,
                old(self).input_scroll as int,
                text_area.width as int,
            ),
            final(self).input == old(self).input,
            final(self).suggestion_pick == old(self).suggestion_pick,
            final(self).suggestion_matches == old(self).suggestion_matches,
            super::same_scrolling(*final(self), *old(self)),
            super::same_sidebar(*final(self), *old(self)),
            super::same_status(*final(self), *old(self)),
    {
        self.cursor = cursor_from_click(
            column,
            row,
            text_area,
            self.input.as_str(),
            self.input_scroll,
        );
        self.ensure_input_scroll(text_area.width);
    }
}

} // verus!
