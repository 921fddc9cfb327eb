//! A scrollable viewport over pre-wrapped, styled display lines.

use vstd::prelude::*;

use crate::area::Area;
use crate::compound_style::{repeat_chars, CompoundStyle, StyledText};
use crate::output::{move_to_bytes, styled_bytes, write_move_to};
use crossterm::style::Attribute;

verus! {

/// One pre-wrapped display line: a sequence of styled runs, ready to render
/// with no further width computation.
pub struct FmtLine {
    pub runs: Vec<StyledText>,
}

/// `v` constrained to the range `[0, max]`, saturating at the nearest bound.
pub open spec fn clamp_offset(v: int, max: int) -> int {
    if v < 0 {
        0
    } else if v > max {
        max
    } else {
        v
    }
}

/// Law: clamping an offset always lands inside `[0, max]`; applying the
/// same delta once more from the clamped result and clamping again still
/// lands inside the bounds; and clamping a clamped offset changes nothing.
pub proof fn lemma_clamp_offset_idempotent(o: int, d: int, max: int)
    requires
        0 <= max,
    ensures
        0 <= clamp_offset(o + d, max) <= max,
        0 <= clamp_offset(clamp_offset(o + d, max) + d, max) <= max,
        clamp_offset(clamp_offset(o + d, max), max) == clamp_offset(o + d, max),
{
}

/// The bytes of a sequence of styled runs, rendered left to right.
pub open spec fn runs_bytes(runs: Seq<StyledText>) -> Seq<u8>
    decreases runs.len(),
{
    if runs.len() == 0 {
        Seq::empty()
    } else {
        runs_bytes(runs.drop_last()) + runs.last().style.rendered(runs.last().text@)
    }
}

/// The bytes of a blank row: `width` spaces under the plain style, or
/// nothing at all for a zero width.
pub open spec fn blank_bytes(width: u16) -> Seq<u8> {
    if width == 0 {
        Seq::empty()
    } else {
        styled_bytes(None, None, Set::empty(), repeat_chars(seq![' '], width as nat))
    }
}

/// The bytes of one scrollbar cell: the thumb glyph or the track glyph,
/// under the plain style.
pub open spec fn scrollbar_cell_bytes(thumb: bool) -> Seq<u8> {
    styled_bytes(None, None, Set::empty(), seq![if thumb { '#' } else { '|' }])
}

/// A window over formatted content. It binds an area of the screen to a
/// content of known total height and keeps a scroll offset, always clamped
/// to `[0, max_offset]`; scrolling past either bound saturates silently.
/// The content itself is not owned: it is handed to `write_on` for the
/// render pass, so that it may be rebuilt between frames while the offset
/// survives.
pub struct ScrollableView {
    pub area: Area,
    pub content_height: usize,
    pub scroll_offset: usize,
}

impl ScrollableView {
    /// How many lines the viewport shows at once.
    pub open spec fn viewport_height(&self) -> int {
        self.area.height as int
    }

    /// The largest meaningful scroll offset: content beyond the viewport,
    /// or zero when everything fits.
    pub open spec fn max_offset(&self) -> int {
        if self.content_height as int > self.viewport_height() {
            self.content_height - self.area.height
        } else {
            0
        }
    }

    /// The offset never points past the content end.
    pub open spec fn valid(&self) -> bool {
        self.scroll_offset <= self.max_offset()
    }

    /// The scrollbar row holding the thumb, proportional to how far down
    /// the content the offset stands. Meaningful when `max_offset() > 0`.
    pub open spec fn thumb_row(&self) -> int {
        (self.scroll_offset * (self.area.height - 1)) / self.max_offset()
    }

    /// Bind `area` to content of height `content_height`, taking over a
    /// previous scroll offset re-clamped against the new bounds.
    pub fn new(area: Area, content_height: usize, scroll_offset: usize) -> (v: ScrollableView)
        ensures
            v.area == area,
            v.content_height == content_height,
            v.scroll_offset == clamp_offset(scroll_offset as int, v.max_offset()),
            v.valid(),
    {
        let max_off: usize = if content_height > area.height as usize {
            content_height - area.height as usize
        } else {
            0
        };
        let off: usize = if scroll_offset > max_off {
            max_off
        } else {
            scroll_offset
        };
        ScrollableView { area, content_height, scroll_offset: off }
    }

    /// Scroll by `delta` lines: negative up, positive down, clamped to the
    /// valid range. Out-of-range requests saturate; they are never an error.
    pub fn try_scroll_lines(&mut self, delta: i64)
        ensures
            final(self).area == old(self).area,
            final(self).content_height == old(self).content_height,
            final(self).scroll_offset == clamp_offset(
                old(self).scroll_offset + delta,
                old(self).max_offset(),
            ),
            final(self).valid(),
    {
        let max_off: usize = self.max_offset_exec();
        let target: i128 = self.scroll_offset as i128 + delta as i128;
        self.scroll_offset = if target < 0 {
            0
        } else if target > max_off as i128 {
            max_off
        } else {
            target as usize
        };
    }

    /// Scroll by `delta` pages, a page being one full viewport height of
    /// lines; same clamping rule as line scrolling.
    pub fn try_scroll_pages(&mut self, delta: i64)
        ensures
            final(self).area == old(self).area,
            final(self).content_height == old(self).content_height,
            final(self).scroll_offset == clamp_offset(
                old(self).scroll_offset + delta * old(self).viewport_height(),
                old(self).max_offset(),
            ),
            final(self).valid(),
    {
        let max_off: usize = self.max_offset_exec();
        let d: i128 = delta as i128;
        let h: i128 = self.area.height as i128;
        proof {
            assert(-0x80000000000000000000i128 <= d * h <= 0x80000000000000000000i128)
                by (nonlinear_arith)
                requires
                    -0x8000000000000000 <= d <= 0x7fffffffffffffff,
                    0 <= h <= 0xffff,
            ;
        }
        let jump: i128 = d * h;
        let target: i128 = self.scroll_offset as i128 + jump;
        self.scroll_offset = if target < 0 {
            0
        } else if target > max_off as i128 {
            max_off
        } else {
            target as usize
        };
    }

    /// The largest valid offset, as a value.
    pub fn max_offset_exec(&self) -> (m: usize)
        ensures
            m == self.max_offset(),
    {
        if self.content_height > self.area.height as usize {
            self.content_height - self.area.height as usize
        } else {
            0
        }
    }

    /// The bytes of visible row `i`: move to the row's start, then the
    /// content line that scrolled there, or a blank row past the content
    /// end; then, when the content scrolls at all, the scrollbar cell at
    /// the row's right edge.
    pub open spec fn row_bytes(&self, lines: Seq<FmtLine>, i: int) -> Seq<u8> {
        move_to_bytes(self.area.left, (self.area.top + i) as u16) + (if self.scroll_offset + i
            < lines.len() {
            runs_bytes(lines[self.scroll_offset + i].runs@)
        } else {
            blank_bytes(self.area.width)
        }) + (if self.max_offset() > 0 {
            move_to_bytes(
                (self.area.left + self.area.width - 1) as u16,
                (self.area.top + i) as u16,
            ) + scrollbar_cell_bytes(i == self.thumb_row())
        } else {
            Seq::<u8>::empty()
        })
    }

    /// The bytes of the first `n` visible rows.
    pub open spec fn rows_bytes(&self, lines: Seq<FmtLine>, n: int) -> Seq<u8>
        decreases n,
    {
        if n <= 0 {
            Seq::empty()
        } else {
            self.rows_bytes(lines, n - 1) + self.row_bytes(lines, n - 1)
        }
    }

    /// Everything one render pass queues: each of the viewport's rows in
    /// order, or nothing at all for an empty area.
    pub open spec fn render_bytes(&self, lines: Seq<FmtLine>) -> Seq<u8> {
        if self.area.width == 0 {
            Seq::empty()
        } else {
            self.rows_bytes(lines, self.area.height as int)
        }
    }

    /// Queue one full render pass onto the buffer: exactly the lines in
    /// `[offset, offset + viewport_height)`, rows past the content end
    /// blank, each row decorated with a scrollbar cell whenever the content
    /// scrolls at all. Rendering leaves the view itself untouched.
    pub fn write_on(&self, w: &mut Vec<u8>, lines: &Vec<FmtLine>)
        requires
            lines@.len() == self.content_height,
            self.valid(),
            self.area.left + self.area.width <= 0xffff,
            self.area.top + self.area.height <= 0xffff,
        ensures
            final(w)@ == old(w)@ + self.render_bytes(lines@),
    {
        proof {
            assert(old(w)@ + Seq::<u8>::empty() =~= old(w)@);
        }
        if self.area.width == 0 {
            return ;
        }
        let max_off: usize = self.max_offset_exec();
        let thumb: u16 = if max_off > 0 && self.area.height > 0 {
            self.thumb_row_exec()
        } else {
            0
        };
        let plain = CompoundStyle::new(None, None, Vec::new());
        proof {
            assert(plain.attr_set() =~= Set::<Attribute>::empty());
        }
        let ghost base = w@;
        let mut i: u16 = 0;
        while i < self.area.height
            invariant
                i <= self.area.height,
                w@ == base + self.rows_bytes(lines@, i as int),
                lines@.len() == self.content_height,
                self.valid(),
                self.area.left + self.area.width <= 0xffff,
                self.area.top + self.area.height <= 0xffff,
                self.area.width > 0,
                max_off == self.max_offset(),
                max_off > 0 && self.area.height > 0 ==> thumb == self.thumb_row(),
                plain.fg is None,
                plain.bg is None,
                plain.attr_set() == Set::<Attribute>::empty(),
            decreases self.area.height - i,
        {
            let ghost row_start = w@;
            write_move_to(w, self.area.left, self.area.top + i);
            let row: usize = self.scroll_offset + i as usize;
            if row < lines.len() {
                let ghost line_start = w@;
                let line = &lines[row];
                let mut j: usize = 0;
                while j < line.runs.len()
                    invariant
                        j <= line.runs.len(),
                        w@ == line_start + runs_bytes(line.runs@.subrange(0, j as int)),
                    decreases line.runs.len() - j,
                {
                    line.runs[j].queue(w);
                    j = j + 1;
                    proof {
                        let pre = line.runs@.subrange(0, (j - 1) as int);
                        let cur = line.runs@.subrange(0, j as int);
                        assert(cur.drop_last() =~= pre);
                        assert(w@ =~= line_start + runs_bytes(cur));
                    }
                }
                proof {
                    assert(line.runs@.subrange(0, line.runs@.len() as int) =~= line.runs@);
                }
            } else {
                plain.repeat_space(w, self.area.width as usize);
            }
            if max_off > 0 {
                write_move_to(w, self.area.left + self.area.width - 1, self.area.top + i);
                if i == thumb {
                    proof {
                        reveal_strlit("#");
                        assert("#"@ =~= seq!['#']);
                    }
                    plain.queue_str(w, "#");
                } else {
                    proof {
                        reveal_strlit("|");
                        assert("|"@ =~= seq!['|']);
                    }
                    plain.queue_str(w, "|");
                }
            }
            i = i + 1;
            proof {
                assert(w@ =~= row_start + self.row_bytes(lines@, (i - 1) as int));
                assert(w@ =~= base + self.rows_bytes(lines@, i as int));
            }
        }
    }

    /// The scrollbar row holding the thumb, as a value.
    fn thumb_row_exec(&self) -> (t: u16)
        requires
            self.valid(),
            self.max_offset() > 0,
            self.area.height > 0,
        ensures
            t == self.thumb_row(),
    {
        let off: u128 = self.scroll_offset as u128;
        let hm1: u128 = (self.area.height - 1) as u128;
        proof {
            assert(off * hm1 <= 0x100000000000000000000u128) by (nonlinear_arith)
                requires
                    0 <= off < 0x10000000000000000,
                    0 <= hm1 < 0x10000,
            ;
        }
        let num: u128 = off * hm1;
        let max_off: usize = self.max_offset_exec();
        let q: u128 = num / max_off as u128;
        proof {
            let off = self.scroll_offset as int;
            let hm1 = self.area.height - 1;
            let m = self.max_offset();
            assert(off * hm1 <= m * hm1) by (nonlinear_arith)
                requires
                    0 <= off <= m,
                    0 <= hm1,
            ;
            vstd::arithmetic::div_mod::lemma_div_is_ordered(off * hm1, m * hm1, m);
            vstd::arithmetic::div_mod::lemma_div_multiples_vanish(hm1, m);
            assert(m * hm1 == hm1 * m) by (nonlinear_arith);
            assert((off * hm1) / m <= hm1);
        }
        q as u16
    }
}

} // verus!
