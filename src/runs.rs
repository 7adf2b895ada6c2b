use vstd::prelude::*;

use crate::bus::{be16, push_all, trace, Op, Signal};
use crate::display::{draw_raw_trace, Ili9341};

verus! {

/// Bytes that the run buffer holds: 32 pixels of two bytes each.
pub const RUN_BYTES: usize = 64;

/// A point to draw: its position, which may lie off the screen, and its
/// rgb565 color.
#[derive(Clone, Copy, Debug, PartialEq, Eq)]
pub struct Pixel {
    pub x: i32,
    pub y: i32,
    pub color: u16,
}

/// A horizontal run of pixels on row `y`, from column `x0` to `x1`, with
/// their colors from left to right.
pub struct Span {
    pub x0: int,
    pub y: int,
    pub x1: int,
    pub colors: Seq<u16>,
}

/// The pixel lies on a `w` by `h` screen.
pub open spec fn on_screen(p: Pixel, w: int, h: int) -> bool {
    0 <= p.x && 0 <= p.y && p.x < w && p.y < h
}

/// The pixel continues the run: same row, next column, and room in the buffer.
pub open spec fn extends(s: Span, p: Pixel) -> bool {
    p.y == s.y && p.x == s.x1 + 1 && s.colors.len() < RUN_BYTES / 2
}

/// A run of one pixel.
pub open spec fn start(p: Pixel) -> Span {
    Span { x0: p.x as int, y: p.y as int, x1: p.x as int, colors: seq![p.color] }
}

/// The run with the pixel added at its right end.
pub open spec fn grow(s: Span, p: Pixel) -> Span {
    Span { x0: s.x0, y: s.y, x1: p.x as int, colors: s.colors.push(p.color) }
}

/// Reads the pixels in order: the runs completed so far, and the run in
/// progress. Off-screen pixels are skipped; a pixel that does not extend the
/// run in progress completes it and starts the next.
pub open spec fn scan(ps: Seq<Pixel>, w: int, h: int) -> (Seq<Span>, Option<Span>)
    decreases ps.len(),
{
    if ps.len() == 0 {
        (seq![], None)
    } else {
        let prev = scan(ps.drop_last(), w, h);
        let p = ps.last();
        if !on_screen(p, w, h) {
            prev
        } else {
            match prev.1 {
                None => (prev.0, Some(start(p))),
                Some(s) => if extends(s, p) {
                    (prev.0, Some(grow(s, p)))
                } else {
                    (prev.0.push(s), Some(start(p)))
                },
            }
        }
    }
}

/// The runs into which a pixel stream is grouped on a `w` by `h` screen.
pub open spec fn runs(ps: Seq<Pixel>, w: int, h: int) -> Seq<Span> {
    let r = scan(ps, w, h);
    match r.1 {
        None => r.0,
        Some(s) => r.0.push(s),
    }
}

/// Colors as rgb565 bytes, two per color, most significant first.
pub open spec fn color_bytes(cs: Seq<u16>) -> Seq<u8>
    decreases cs.len(),
{
    if cs.len() == 0 {
        seq![]
    } else {
        color_bytes(cs.drop_last()) + be16(cs.last())
    }
}

/// The windowed raw write of one run: a window one row high.
pub open spec fn span_trace(s: Span) -> Seq<Signal> {
    draw_raw_trace(s.x0 as u16, s.y as u16, s.x1 as u16, s.y as u16, color_bytes(s.colors))
}

/// The raw writes of the runs, in order.
pub open spec fn spans_trace(spans: Seq<Span>) -> Seq<Signal>
    decreases spans.len(),
{
    if spans.len() == 0 {
        seq![]
    } else {
        spans_trace(spans.drop_last()) + span_trace(spans.last())
    }
}

/// The run in progress, as the buffer of `draw` holds it.
pub open spec fn buffer_holds(
    cur: Option<Span>,
    row: Seq<u8>,
    startx: i32,
    lasty: i32,
    endx: i32,
    w: int,
    h: int,
) -> bool {
    match cur {
        None => row.len() == 0,
        Some(s) => {
            &&& s.x0 == startx
            &&& s.y == lasty
            &&& s.x1 == endx
            &&& row == color_bytes(s.colors)
            &&& row.len() == 2 * s.colors.len()
            &&& 1 <= s.colors.len() <= RUN_BYTES / 2
            &&& 0 <= startx <= endx < w
            &&& 0 <= lasty < h
        },
    }
}

proof fn lemma_color_bytes_push(cs: Seq<u16>, c: u16)
    ensures
        color_bytes(cs.push(c)) == color_bytes(cs) + be16(c),
        color_bytes(cs.push(c)).len() == color_bytes(cs).len() + 2,
{
    assert(cs.push(c).drop_last() =~= cs);
}

proof fn lemma_spans_trace_push(spans: Seq<Span>, s: Span)
    ensures
        spans_trace(spans.push(s)) == spans_trace(spans) + span_trace(s),
{
    assert(spans.push(s).drop_last() =~= spans);
}

/// The colors of the pixels, in order.
pub open spec fn colors_of(ps: Seq<Pixel>) -> Seq<u16> {
    ps.map_values(|p: Pixel| p.color)
}

/// The colors of the runs, one run after the other.
pub open spec fn joined(spans: Seq<Span>) -> Seq<u16>
    decreases spans.len(),
{
    if spans.len() == 0 {
        seq![]
    } else {
        joined(spans.drop_last()) + spans.last().colors
    }
}

/// The pixels lie at `(x0, y)`, `(x0 + 1, y)`, ... in this order.
pub open spec fn is_row(ps: Seq<Pixel>, x0: int, y: int) -> bool {
    forall|k: int| 0 <= k < ps.len() ==> #[trigger] ps[k].x == x0 + k && ps[k].y == y
}

/// The runs tile row `y` from `x0` to `x0 + n - 1`, left to right without gap
/// or overlap; each is as long as its window and holds at most 32 pixels, and
/// all but the last are full.
pub open spec fn tiles_row(s: Seq<Span>, x0: int, y: int, n: int) -> bool {
    &&& s.len() >= 1
    &&& s[0].x0 == x0
    &&& s.last().x1 == x0 + n - 1
    &&& forall|j: int|
        0 <= j < s.len() ==> {
            &&& (#[trigger] s[j]).y == y
            &&& s[j].x1 - s[j].x0 + 1 == s[j].colors.len()
            &&& 1 <= s[j].colors.len() <= RUN_BYTES / 2
        }
    &&& forall|j: int|
        0 <= j < s.len() - 1 ==> {
            &&& (#[trigger] s[j]).colors.len() == RUN_BYTES / 2
            &&& s[j + 1].x0 == s[j].x1 + 1
        }
}

proof fn lemma_joined_push(spans: Seq<Span>, s: Span)
    ensures
        joined(spans.push(s)) == joined(spans) + s.colors,
{
    assert(spans.push(s).drop_last() =~= spans);
}

proof fn lemma_row_prefix(ps: Seq<Pixel>, x0: int, y: int, w: int, h: int, n: int)
    requires
        is_row(ps, x0, y),
        0 <= x0,
        x0 + ps.len() <= w,
        0 <= y < h,
        1 <= n <= ps.len(),
    ensures
        scan(ps.subrange(0, n), w, h).1 is Some,
        tiles_row(runs(ps.subrange(0, n), w, h), x0, y, n),
        joined(runs(ps.subrange(0, n), w, h)) == colors_of(ps.subrange(0, n)),
    decreases n,
{
    let pre = ps.subrange(0, n);
    let prev = ps.subrange(0, n - 1);
    let p = ps[n - 1];
    assert(pre.drop_last() =~= prev);
    assert(pre.last() == p);
    assert(p.x == x0 + n - 1 && p.y == y);
    assert(colors_of(pre) =~= colors_of(prev).push(p.color));
    if n == 1 {
        assert(prev =~= Seq::<Pixel>::empty());
        assert(scan(prev, w, h).0 =~= Seq::<Span>::empty());
        assert(runs(pre, w, h) == Seq::<Span>::empty().push(start(p)));
        lemma_joined_push(Seq::<Span>::empty(), start(p));
        assert(joined(Seq::<Span>::empty()) =~= Seq::<u16>::empty());
        assert(colors_of(prev) =~= Seq::<u16>::empty());
        assert(seq![p.color] =~= Seq::<u16>::empty().push(p.color));
        assert(Seq::<Span>::empty().push(start(p))[0] == start(p));
    } else {
        lemma_row_prefix(ps, x0, y, w, h, n - 1);
        let done = scan(prev, w, h).0;
        let cur = scan(prev, w, h).1->0;
        let old_runs = done.push(cur);
        assert(old_runs.last() == cur);
        assert(old_runs[old_runs.len() - 1] == cur);
        lemma_joined_push(done, cur);
        if extends(cur, p) {
            let g = grow(cur, p);
            let new_runs = done.push(g);
            lemma_joined_push(done, g);
            assert(joined(new_runs) =~= joined(old_runs).push(p.color));
            assert forall|j: int| 0 <= j < new_runs.len() implies {
                &&& (#[trigger] new_runs[j]).y == y
                &&& new_runs[j].x1 - new_runs[j].x0 + 1 == new_runs[j].colors.len()
                &&& 1 <= new_runs[j].colors.len() <= RUN_BYTES / 2
            } by {
                if j < done.len() {
                    assert(new_runs[j] == old_runs[j]);
                }
            }
            assert forall|j: int| 0 <= j < new_runs.len() - 1 implies {
                &&& (#[trigger] new_runs[j]).colors.len() == RUN_BYTES / 2
                &&& new_runs[j + 1].x0 == new_runs[j].x1 + 1
            } by {
                assert(new_runs[j] == old_runs[j]);
                assert(old_runs[j + 1].x0 == new_runs[j + 1].x0);
            }
            assert(new_runs[0].x0 == x0) by {
                assert(old_runs[0].x0 == new_runs[0].x0);
            }
        } else {
            let q = start(p);
            let new_runs = old_runs.push(q);
            lemma_joined_push(old_runs, q);
            assert(q.colors =~= Seq::<u16>::empty().push(p.color));
            assert(joined(new_runs) =~= joined(old_runs).push(p.color));
            assert forall|j: int| 0 <= j < new_runs.len() implies {
                &&& (#[trigger] new_runs[j]).y == y
                &&& new_runs[j].x1 - new_runs[j].x0 + 1 == new_runs[j].colors.len()
                &&& 1 <= new_runs[j].colors.len() <= RUN_BYTES / 2
            } by {
                if j < old_runs.len() {
                    assert(new_runs[j] == old_runs[j]);
                }
            }
            assert forall|j: int| 0 <= j < new_runs.len() - 1 implies {
                &&& (#[trigger] new_runs[j]).colors.len() == RUN_BYTES / 2
                &&& new_runs[j + 1].x0 == new_runs[j].x1 + 1
            } by {
                assert(new_runs[j] == old_runs[j]);
                if j < old_runs.len() - 1 {
                    assert(old_runs[j + 1] == new_runs[j + 1]);
                }
            }
            assert(new_runs[0] == old_runs[0]);
        }
    }
}

/// A contiguous on-screen row of pixels longer than the run buffer is written
/// in several raw writes whose windows tile the row exactly once, left to
/// right, and together carry every color in order.
pub proof fn lemma_row_split(ps: Seq<Pixel>, x0: int, y: int, w: int, h: int)
    requires
        ps.len() >= 1,
        is_row(ps, x0, y),
        0 <= x0,
        x0 + ps.len() <= w,
        0 <= y < h,
    ensures
        tiles_row(runs(ps, w, h), x0, y, ps.len() as int),
        joined(runs(ps, w, h)) == colors_of(ps),
        ps.len() > RUN_BYTES / 2 ==> runs(ps, w, h).len() >= 2,
{
    lemma_row_prefix(ps, x0, y, w, h, ps.len() as int);
    assert(ps.subrange(0, ps.len() as int) =~= ps);
    let s = runs(ps, w, h);
    if s.len() == 1 {
        assert(s[0] == s.last());
    }
}

/// An off-screen pixel adds nothing: the runs are those of the stream without it.
pub proof fn lemma_off_screen_ignored(ps: Seq<Pixel>, p: Pixel, w: int, h: int)
    requires
        !on_screen(p, w, h),
    ensures
        runs(ps.push(p), w, h) == runs(ps, w, h),
{
    assert(ps.push(p).drop_last() =~= ps);
}

/// Drawing is stateless: the same pixel stream, drawn through handles of the
/// same size (the same handle twice included), gives the same raw writes.
pub proof fn lemma_draw_repeatable(a: Ili9341, b: Ili9341, ps: Seq<Pixel>)
    requires
        a.spec_width() == b.spec_width(),
        a.spec_height() == b.spec_height(),
    ensures
        spans_trace(runs(ps, a.spec_width() as int, a.spec_height() as int)) == spans_trace(
            runs(ps, b.spec_width() as int, b.spec_height() as int),
        ),
{
}

impl Ili9341 {
    /// Appends the raw write of the run in the buffer.
    fn flush(&self, ops: &mut Vec<Op>, startx: i32, lasty: i32, endx: i32, row: &Vec<u8>)
        requires
            0 <= startx <= endx < 65536,
            0 <= lasty < 65536,
        ensures
            trace(final(ops)@) == trace(old(ops)@) + draw_raw_trace(
                startx as u16,
                lasty as u16,
                endx as u16,
                lasty as u16,
                row@,
            ),
    {
        let more = self.draw_raw(startx as u16, lasty as u16, endx as u16, lasty as u16, row.as_slice());
        push_all(ops, more);
    }

    /// Draws a stream of pixels: off-screen ones are dropped, and each maximal
    /// run of same-row, left-to-right contiguous pixels (up to the buffer's 32)
    /// becomes one windowed raw write. The handle is not changed.
    pub fn draw(&self, pixels: &[Pixel]) -> (r: Vec<Op>)
        ensures
            trace(r@) == spans_trace(
                runs(pixels@, self.spec_width() as int, self.spec_height() as int),
            ),
    {
        proof {
            use_type_invariant(self);
        }
        let ghost w = self.spec_width() as int;
        let ghost h = self.spec_height() as int;
        let width = self.width() as i32;
        let height = self.height() as i32;
        let mut ops: Vec<Op> = Vec::new();
        let mut row: Vec<u8> = Vec::with_capacity(RUN_BYTES);
        let mut lasty: i32 = 0;
        let mut startx: i32 = 0;
        let mut endx: i32 = 0;
        let mut k: usize = 0;
        while k < pixels.len()
            invariant
                k <= pixels@.len(),
                w == width,
                h == height,
                0 < w <= 320,
                0 < h <= 320,
                trace(ops@) == spans_trace(scan(pixels@.subrange(0, k as int), w, h).0),
                buffer_holds(
                    scan(pixels@.subrange(0, k as int), w, h).1,
                    row@,
                    startx,
                    lasty,
                    endx,
                    w,
                    h,
                ),
            decreases pixels@.len() - k,
        {
            let ghost before = pixels@.subrange(0, k as int);
            let ghost prev = scan(before, w, h);
            let p = pixels[k];
            assert(pixels@.subrange(0, k + 1).drop_last() =~= before);
            if p.x >= 0 && p.y >= 0 && p.x < width && p.y < height {
                let hi = (p.color / 256) as u8;
                let lo = (p.color % 256) as u8;
                if row.len() == 0 || (p.y == lasty && p.x == endx + 1 && row.len() < RUN_BYTES - 1) {
                    if row.len() == 0 {
                        startx = p.x;
                    }
                    proof {
                        if prev.1 is Some {
                            lemma_color_bytes_push(prev.1->0.colors, p.color);
                        } else {
                            lemma_color_bytes_push(seq![], p.color);
                            assert(seq![].push(p.color) =~= seq![p.color]);
                        }
                    }
                    row.push(hi);
                    row.push(lo);
                    lasty = p.y;
                    endx = p.x;
                    assert(row@ =~= color_bytes(scan(pixels@.subrange(0, k + 1), w, h).1->0.colors));
                } else {
                    self.flush(&mut ops, startx, lasty, endx, &row);
                    proof {
                        lemma_spans_trace_push(prev.0, prev.1->0);
                        lemma_color_bytes_push(seq![], p.color);
                        assert(seq![].push(p.color) =~= seq![p.color]);
                    }
                    row.clear();
                    startx = p.x;
                    row.push(hi);
                    row.push(lo);
                    lasty = p.y;
                    endx = p.x;
                    assert(row@ =~= color_bytes(seq![p.color]));
                }
            }
            k += 1;
        }
        assert(pixels@.subrange(0, k as int) =~= pixels@);
        if row.len() > 0 {
            self.flush(&mut ops, startx, lasty, endx, &row);
            proof {
                let fin = scan(pixels@, w, h);
                lemma_spans_trace_push(fin.0, fin.1->0);
            }
        }
        ops
    }
}

} // verus!
