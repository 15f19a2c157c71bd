//! The procedural banner animation: per-cell glyph and color computed as a
//! pure function of elapsed time, with drift-free pause/resume.
//!
//! Progress through a cycle is kept as the exact rational
//! `cycle_time_ms / animation_ms` (see [`crate::Progress`]), so pausing and
//! resuming reproduce the displayed progress exactly, with no rounding and
//! no cumulative error.

use vstd::prelude::*;
use vstd::arithmetic::div_mod::lemma_small_mod;
use vstd::arithmetic::div_mod::lemma_mod_add_multiples_vanish;
use vstd::arithmetic::mul::lemma_mul_upper_bound;
use crate::Progress;
use crate::art::AsciiCell;
use crate::art::CellData;
use crate::art::cells_match;
use crate::art::lemma_cells_match_push;
use crate::art::blit;
use crate::backend::point_in_rect;
use crate::text::spec_lines;
use crate::text::split_lines;

verus! {

/// How each glyph's color is computed from its position and the progress.
#[derive(Clone, Copy, Debug)]
pub enum ColorRule {
    /// Every glyph in one fixed color.
    Uniform { color: ratatui::style::Color },
    /// A diagonal band of `strip` color, `strip_width` cells wide, sweeps
    /// once across the art per cycle; everything else shows `base`.
    DiagonalStrip { strip_width: u16, strip: ratatui::style::Color, base: ratatui::style::Color },
}

/// How each glyph may be replaced in sync with the progress.
#[derive(Clone, Copy, Debug)]
pub enum GlyphRule {
    /// Keep the art's own glyph.
    Keep,
    /// Inside the sweeping band, show a fixed pseudo-random binary digit.
    BinaryInStrip { strip_width: u16 },
}

/// Whether cell `(x, y)` lies inside the diagonal band at progress
/// `num / den`: the band's center starts one band width left of the top
/// corner and sweeps to one band width past the far corner, and a cell is
/// inside when its diagonal `x + y` is strictly within `sw` of the center.
/// Stated with every term multiplied by `den`, which keeps it exact.
pub open spec fn in_strip(x: int, y: int, w: int, h: int, sw: int, num: int, den: int) -> bool {
    let lhs = den * (x + y + sw);
    let rhs = num * (w + h + 2 * sw);
    rhs < lhs + den * sw && lhs < rhs + den * sw
}

/// The fixed position hash that picks a binary digit for a cell.
pub open spec fn spec_hash_bit(x: u64, y: u64) -> bool {
    let h1 = x.wrapping_mul(2654435761u64);
    let h2 = h1 ^ y.wrapping_mul(2246822519u64);
    let h3 = h2.wrapping_mul(668265263u64);
    let h4 = h3 ^ (h3 >> 15u64);
    (h4 & 1u64) == 0
}

/// The color a rule gives cell `(x, y)` of a `w` by `h` art at progress
/// `num / den`.
pub open spec fn spec_rule_color(
    rule: ColorRule,
    x: int,
    y: int,
    w: int,
    h: int,
    num: int,
    den: int,
) -> ratatui::style::Color {
    match rule {
        ColorRule::Uniform { color } => color,
        ColorRule::DiagonalStrip { strip_width, strip, base } => {
            if in_strip(x, y, w, h, strip_width as int, num, den) {
                strip
            } else {
                base
            }
        },
    }
}

/// The glyph a rule shows for original glyph `orig` at cell `(x, y)`.
pub open spec fn spec_rule_glyph(
    rule: GlyphRule,
    x: int,
    y: int,
    w: int,
    h: int,
    num: int,
    den: int,
    orig: char,
) -> char {
    match rule {
        GlyphRule::Keep => orig,
        GlyphRule::BinaryInStrip { strip_width } => {
            if in_strip(x, y, w, h, strip_width as int, num, den) {
                if spec_hash_bit(x as u64, y as u64) {
                    '0'
                } else {
                    '1'
                }
            } else {
                orig
            }
        },
    }
}

/// Decides the band test exactly, in 128-bit integers.
fn strip_test(x: u16, y: u16, w: u16, h: u16, sw: u16, p: Progress) -> (r: bool)
    requires
        1 <= p.den,
    ensures
        r == in_strip(x as int, y as int, w as int, h as int, sw as int, p.num as int,
            p.den as int),
{
    let den: u128 = p.den as u128;
    let num: u128 = p.num as u128;
    let diag: u128 = x as u128 + y as u128 + sw as u128;
    let range: u128 = w as u128 + h as u128 + 2 * (sw as u128);
    proof {
        lemma_mul_upper_bound(den as int, u64::MAX as int, diag as int, 0x30000);
        lemma_mul_upper_bound(num as int, u64::MAX as int, range as int, 0x40000);
        lemma_mul_upper_bound(den as int, u64::MAX as int, sw as int, 0x10000);
    }
    let lhs: u128 = den * diag;
    let rhs: u128 = num * range;
    let band: u128 = den * (sw as u128);
    rhs < lhs + band && lhs < rhs + band
}

/// Computes the position hash digit choice.
fn hash_bit(x: u64, y: u64) -> (r: bool)
    ensures
        r == spec_hash_bit(x, y),
{
    let h1 = x.wrapping_mul(2654435761u64);
    let h2 = h1 ^ y.wrapping_mul(2246822519u64);
    let h3 = h2.wrapping_mul(668265263u64);
    let h4 = h3 ^ (h3 >> 15u64);
    (h4 & 1u64) == 0
}

/// Evaluates a color rule at one cell.
fn rule_color(rule: &ColorRule, x: u16, y: u16, w: u16, h: u16, p: Progress) -> (r:
    ratatui::style::Color)
    requires
        1 <= p.den,
    ensures
        r == spec_rule_color(*rule, x as int, y as int, w as int, h as int, p.num as int,
            p.den as int),
{
    match rule {
        ColorRule::Uniform { color } => *color,
        ColorRule::DiagonalStrip { strip_width, strip, base } => {
            if strip_test(x, y, w, h, *strip_width, p) {
                *strip
            } else {
                *base
            }
        },
    }
}

/// Evaluates a glyph rule at one cell.
fn rule_glyph(rule: &GlyphRule, x: u16, y: u16, w: u16, h: u16, p: Progress, orig: char) -> (r:
    char)
    requires
        1 <= p.den,
    ensures
        r == spec_rule_glyph(*rule, x as int, y as int, w as int, h as int, p.num as int,
            p.den as int, orig),
{
    match rule {
        GlyphRule::Keep => orig,
        GlyphRule::BinaryInStrip { strip_width } => {
            if strip_test(x, y, w, h, *strip_width, p) {
                if hash_bit(x as u64, y as u64) {
                    '0'
                } else {
                    '1'
                }
            } else {
                orig
            }
        },
    }
}

/// The longest row of an art block.
pub open spec fn max_row_len(rows: Seq<Seq<char>>) -> int
    decreases rows.len(),
{
    if rows.len() == 0 {
        0
    } else {
        let rest = max_row_len(rows.drop_last());
        if rows.last().len() > rest {
            rows.last().len() as int
        } else {
            rest
        }
    }
}

/// Every row is no longer than the longest row.
pub proof fn lemma_max_row_len_ge(rows: Seq<Seq<char>>, i: int)
    requires
        0 <= i < rows.len(),
    ensures
        rows[i].len() <= max_row_len(rows),
    decreases rows.len(),
{
    if i < rows.len() - 1 {
        lemma_max_row_len_ge(rows.drop_last(), i);
        assert(rows.drop_last()[i] == rows[i]);
    }
}

/// An animation that computes every cell's color and glyph on the fly from
/// the current progress instead of storing prebuilt frames.
///
/// Times are in milliseconds. `anchor_ms` is the instant the running cycle
/// was last (re)anchored and `offset_ms` how far into the cycle the
/// animation already was at that instant, so the virtual elapsed time at
/// `now` is `now - anchor_ms + offset_ms`; resuming re-anchors instead of
/// back-dating a start instant, which cannot underflow.
pub struct ProceduralAnimationWidget {
    pub rows: Vec<Vec<char>>,
    pub width: u16,
    pub height: u16,
    pub num_frames: usize,
    pub frame_duration_ms: u64,
    pub pause_at_end_ms: u64,
    pub anchor_ms: u64,
    pub offset_ms: u64,
    pub paused: bool,
    pub paused_progress_ms: u64,
    pub color_rule: ColorRule,
    pub char_rule: GlyphRule,
}

impl ProceduralAnimationWidget {
    /// One full pass over the virtual frames, in milliseconds.
    pub open spec fn anim_ms(self) -> int {
        self.frame_duration_ms * self.num_frames
    }

    /// One full cycle: the pass plus the dwell at its end.
    pub open spec fn total_ms(self) -> int {
        self.anim_ms() + self.pause_at_end_ms
    }

    /// Well-formedness: positive timing that fits the machine, a frozen or
    /// running offset no further than one pass, and art that fits `u16`
    /// coordinates with consistent stored dimensions.
    pub open spec fn wf(self) -> bool {
        &&& 1 <= self.num_frames
        &&& 1 <= self.frame_duration_ms
        &&& self.anim_ms() + self.pause_at_end_ms <= u64::MAX
        &&& self.offset_ms <= self.anim_ms()
        &&& self.paused_progress_ms <= self.anim_ms()
        &&& self.rows@.len() == self.height as int
        &&& forall|i: int|
            0 <= i < self.rows@.len() ==> (#[trigger] self.rows@[i])@.len() <= self.width as int
    }

    /// The virtual elapsed time at `now`.
    pub open spec fn elapsed_at(self, now: u64) -> int {
        now - self.anchor_ms + self.offset_ms
    }

    /// The progress numerator for a given virtual elapsed time: the time
    /// into the current cycle, capped at `anim` during the dwell.
    pub open spec fn progress_num_of(elapsed: int, anim: int, pause: int) -> int {
        let cyc = elapsed % (anim + pause);
        if cyc >= anim {
            anim
        } else {
            cyc
        }
    }

    /// The displayed progress at `now`: the frozen value while paused, else
    /// a pure function of the virtual elapsed time.
    pub open spec fn progress_at(self, now: u64) -> Progress {
        if self.paused {
            Progress { num: self.paused_progress_ms, den: self.anim_ms() as u64 }
        } else {
            Progress {
                num: Self::progress_num_of(
                    self.elapsed_at(now),
                    self.anim_ms(),
                    self.pause_at_end_ms as int,
                ) as u64,
                den: self.anim_ms() as u64,
            }
        }
    }

    /// Builds the animation over `art`, anchored at `now_ms`, with no dwell
    /// and the glyphs kept as they are.
    pub fn new(
        art: &str,
        num_frames: usize,
        frame_duration_ms: u64,
        color_rule: ColorRule,
        now_ms: u64,
    ) -> (r: Self)
        requires
            1 <= num_frames,
            1 <= frame_duration_ms,
            frame_duration_ms * num_frames <= u64::MAX,
            art@.len() < u16::MAX,
        ensures
            r.wf(),
            r.rows.deep_view() == spec_lines(art@),
            r.height == spec_lines(art@).len(),
            r.width == max_row_len(spec_lines(art@)),
            r.num_frames == num_frames,
            r.frame_duration_ms == frame_duration_ms,
            r.pause_at_end_ms == 0,
            r.anchor_ms == now_ms,
            r.offset_ms == 0,
            !r.paused,
            r.paused_progress_ms == 0,
            r.color_rule == color_rule,
            r.char_rule == GlyphRule::Keep,
    {
        proof {
            crate::text::lemma_lines_bounds(art@);
        }
        let rows = split_lines(art);
        let height: u16 = rows.len() as u16;
        let mut width: u16 = 0;
        let mut i: usize = 0;
        while i < rows.len()
            invariant
                rows.deep_view() == spec_lines(art@),
                forall|k: int|
                    0 <= k < spec_lines(art@).len() ==> (#[trigger] spec_lines(art@)[k]).len()
                        <= art@.len(),
                art@.len() < u16::MAX,
                i <= rows@.len(),
                rows@.len() == spec_lines(art@).len(),
                width == max_row_len(spec_lines(art@).take(i as int)),
                width < u16::MAX,
            decreases rows@.len() - i,
        {
            let l = rows[i].len();
            proof {
                assert(rows@[i as int]@ == spec_lines(art@)[i as int]);
            }
            if l > width as usize {
                width = l as u16;
            }
            i += 1;
            proof {
                assert(spec_lines(art@).take(i as int).drop_last() =~= spec_lines(art@).take(
                    i as int - 1,
                ));
                assert(spec_lines(art@).take(i as int).last() == spec_lines(art@)[i as int - 1]);
            }
        }
        proof {
            assert(spec_lines(art@).take(spec_lines(art@).len() as int) =~= spec_lines(art@));
            assert(frame_duration_ms * num_frames >= 1) by (nonlinear_arith)
                requires
                    frame_duration_ms >= 1,
                    num_frames >= 1,
            ;
            assert forall|k: int| 0 <= k < rows@.len() implies (#[trigger] rows@[k])@.len()
                <= width as int by {
                lemma_max_row_len_ge(spec_lines(art@), k);
                assert(rows@[k]@ == spec_lines(art@)[k]);
            }
        }
        ProceduralAnimationWidget {
            rows,
            width,
            height,
            num_frames,
            frame_duration_ms,
            pause_at_end_ms: 0,
            anchor_ms: now_ms,
            offset_ms: 0,
            paused: false,
            paused_progress_ms: 0,
            color_rule,
            char_rule: GlyphRule::Keep,
        }
    }

    /// Replaces the glyph rule.
    pub fn with_char_fn(self, char_rule: GlyphRule) -> (r: Self)
        ensures
            r == (ProceduralAnimationWidget { char_rule, ..self }),
    {
        ProceduralAnimationWidget { char_rule, ..self }
    }

    /// Sets the dwell held at the end of each pass before the cycle repeats.
    pub fn with_pause_at_end(self, pause_ms: u64) -> (r: Self)
        requires
            self.anim_ms() + pause_ms <= u64::MAX,
        ensures
            r == (ProceduralAnimationWidget { pause_at_end_ms: pause_ms, ..self }),
    {
        ProceduralAnimationWidget { pause_at_end_ms: pause_ms, ..self }
    }

    /// The paused widget: the current progress frozen, or no change when
    /// already paused.
    pub open spec fn pause_spec(self, now: u64) -> Self {
        if self.paused {
            self
        } else {
            ProceduralAnimationWidget {
                paused: true,
                paused_progress_ms: self.progress_at(now).num,
                ..self
            }
        }
    }

    /// The resumed widget: the cycle re-anchored at `now` exactly as far in
    /// as the frozen progress, or no change when not paused.
    pub open spec fn unpause_spec(self, now: u64) -> Self {
        if !self.paused {
            self
        } else {
            ProceduralAnimationWidget {
                anchor_ms: now,
                offset_ms: self.paused_progress_ms,
                paused: false,
                ..self
            }
        }
    }

    /// Freezes the displayed progress; a second call changes nothing.
    pub fn pause(&mut self, now_ms: u64)
        requires
            old(self).wf(),
            old(self).paused || now_ms >= old(self).anchor_ms,
        ensures
            *final(self) == old(self).pause_spec(now_ms),
            final(self).wf(),
            final(self).progress_at(now_ms) == old(self).progress_at(now_ms),
    {
        if !self.paused {
            let p = self.get_animation_progress(now_ms);
            self.paused_progress_ms = p.num;
            self.paused = true;
        }
    }

    /// Resumes from the frozen progress with no visual jump; a second call
    /// changes nothing.
    pub fn unpause(&mut self, now_ms: u64)
        requires
            old(self).wf(),
        ensures
            *final(self) == old(self).unpause_spec(now_ms),
            final(self).wf(),
    {
        if self.paused {
            self.anchor_ms = now_ms;
            self.offset_ms = self.paused_progress_ms;
            self.paused = false;
        }
    }

    /// Pauses when running, resumes when paused.
    pub fn toggle_pause(&mut self, now_ms: u64)
        requires
            old(self).wf(),
            old(self).paused || now_ms >= old(self).anchor_ms,
        ensures
            *final(self) == if old(self).paused {
                old(self).unpause_spec(now_ms)
            } else {
                old(self).pause_spec(now_ms)
            },
            final(self).wf(),
    {
        if self.paused {
            self.unpause(now_ms);
        } else {
            self.pause(now_ms);
        }
    }

    /// Whether the animation is frozen.
    pub fn is_paused(&self) -> (r: bool)
        ensures
            r == self.paused,
    {
        self.paused
    }

    /// The art's width in cells.
    pub fn get_width(&self) -> (r: u16)
        ensures
            r == self.width,
    {
        self.width
    }

    /// The art's height in cells.
    pub fn get_height(&self) -> (r: u16)
        ensures
            r == self.height,
    {
        self.height
    }

    /// The displayed progress at `now_ms`.
    pub fn get_current_progress(&self, now_ms: u64) -> (r: Progress)
        requires
            self.wf(),
            self.paused || now_ms >= self.anchor_ms,
        ensures
            r == self.progress_at(now_ms),
            r.wf(),
    {
        self.get_animation_progress(now_ms)
    }

    /// Computes the displayed progress: the frozen numerator while paused,
    /// else the time into the current cycle over one pass, capped at one
    /// during the dwell.
    fn get_animation_progress(&self, now_ms: u64) -> (r: Progress)
        requires
            self.wf(),
            self.paused || now_ms >= self.anchor_ms,
        ensures
            r == self.progress_at(now_ms),
            r.wf(),
    {
        let nf: u64 = self.num_frames as u64;
        proof {
            assert(self.frame_duration_ms * nf >= 1) by (nonlinear_arith)
                requires
                    self.frame_duration_ms >= 1,
                    nf >= 1,
            ;
        }
        let anim: u64 = self.frame_duration_ms * nf;
        if self.paused {
            return Progress { num: self.paused_progress_ms, den: anim };
        }
        let total: u64 = anim + self.pause_at_end_ms;
        let e: u128 = (now_ms - self.anchor_ms) as u128 + self.offset_ms as u128;
        let cyc128: u128 = e % (total as u128);
        let cyc: u64 = cyc128 as u64;
        proof {
            assert(e as int == self.elapsed_at(now_ms));
            assert(cyc128 as int == self.elapsed_at(now_ms) % (total as int));
        }
        if cyc >= anim {
            Progress { num: anim, den: anim }
        } else {
            Progress { num: cyc, den: anim }
        }
    }

    /// The cell data of row `row` (at height `y`) from column `x` on: every
    /// non-blank glyph whose absolute position falls inside `area`, with the
    /// rules' glyph and color at progress `num / den`.
    pub open spec fn row_frame_from(
        self,
        row: Seq<char>,
        y: int,
        x: int,
        area: ratatui::layout::Rect,
        num: int,
        den: int,
    ) -> Seq<CellData>
        decreases row.len() - x,
    {
        if x < 0 || x >= row.len() {
            Seq::<CellData>::empty()
        } else {
            let rest = self.row_frame_from(row, y, x + 1, area, num, den);
            if row[x] == ' ' {
                rest
            } else if point_in_rect(area, x + area.x, y + area.y) {
                seq![
                    (
                        spec_rule_glyph(
                            self.char_rule,
                            x,
                            y,
                            self.width as int,
                            self.height as int,
                            num,
                            den,
                            row[x],
                        ),
                        (x + area.x) as u16,
                        (y + area.y) as u16,
                        spec_rule_color(
                            self.color_rule,
                            x,
                            y,
                            self.width as int,
                            self.height as int,
                            num,
                            den,
                        ),
                    ),
                ] + rest
            } else {
                rest
            }
        }
    }

    /// The cell data of all rows from `y` on.
    pub open spec fn frame_rows_from(
        self,
        y: int,
        area: ratatui::layout::Rect,
        num: int,
        den: int,
    ) -> Seq<CellData>
        decreases self.rows@.len() - y,
    {
        if y < 0 || y >= self.rows@.len() {
            Seq::<CellData>::empty()
        } else {
            self.row_frame_from(self.rows@[y]@, y, 0, area, num, den) + self.frame_rows_from(
                y + 1,
                area,
                num,
                den,
            )
        }
    }

    /// Everything one frame draws inside `area` at progress `p`.
    pub open spec fn spec_frame_cells(
        self,
        area: ratatui::layout::Rect,
        p: Progress,
    ) -> Seq<CellData> {
        self.frame_rows_from(0, area, p.num as int, p.den as int)
    }

    /// Computes the cells one frame draws at progress `progress`: every
    /// non-blank art cell whose absolute position falls inside `area`, at
    /// absolute coordinates, with the rules' glyph and color. Cells outside
    /// `area` are clipped away silently.
    pub fn frame_cells(&self, area: ratatui::layout::Rect, progress: Progress) -> (out: Vec<
        AsciiCell,
    >)
        requires
            self.wf(),
            1 <= progress.den,
        ensures
            cells_match(out@, self.spec_frame_cells(area, progress)),
    {
        let ghost target = self.spec_frame_cells(area, progress);
        let mut out: Vec<AsciiCell> = Vec::new();
        let ghost mut tout = Seq::<CellData>::empty();
        let mut y: usize = 0;
        proof {
            assert(tout + self.frame_rows_from(0, area, progress.num as int, progress.den as int)
                =~= target);
        }
        while y < self.rows.len()
            invariant
                self.wf(),
                1 <= progress.den,
                y <= self.rows@.len(),
                target == self.spec_frame_cells(area, progress),
                tout + self.frame_rows_from(y as int, area, progress.num as int,
                    progress.den as int) == target,
                cells_match(out@, tout),
            decreases self.rows@.len() - y,
        {
            let row = &self.rows[y];
            let ghost before_row = tout;
            let ghost srow = self.rows@[y as int]@;
            let mut x: usize = 0;
            while x < row.len()
                invariant
                    self.wf(),
                    1 <= progress.den,
                    0 <= y < self.rows@.len(),
                    srow == self.rows@[y as int]@,
                    row@ == srow,
                    srow.len() <= self.width as int,
                    x <= srow.len(),
                    tout + self.row_frame_from(srow, y as int, x as int, area, progress.num as int,
                        progress.den as int) == before_row + self.row_frame_from(srow, y as int, 0,
                        area, progress.num as int, progress.den as int),
                    cells_match(out@, tout),
                decreases srow.len() - x,
            {
                let ghost x0 = x as int;
                let ghost tprev = tout;
                let ch = row[x];
                if ch != ' ' {
                    let px = x as u32 + area.x as u32;
                    let py = y as u32 + area.y as u32;
                    let mut keep = false;
                    if px <= 0xFFFF && py <= 0xFFFF {
                        let pos = ratatui::layout::Position { x: px as u16, y: py as u16 };
                        if area.contains(pos) {
                            keep = true;
                            let color = rule_color(&self.color_rule, x as u16, y as u16,
                                self.width, self.height, progress);
                            let glyph = rule_glyph(&self.char_rule, x as u16, y as u16, self.width,
                                self.height, progress, ch);
                            let cell = AsciiCell { ch: glyph, x: px as u16, y: py as u16, color };
                            let ghost oprev = out@;
                            out.push(cell);
                            proof {
                                lemma_cells_match_push(oprev, tout, cell);
                                tout = tout.push(crate::art::cell_data(cell));
                                let rest = self.row_frame_from(srow, y as int, x0 + 1, area,
                                    progress.num as int, progress.den as int);
                                assert(tprev.push(crate::art::cell_data(cell)) =~= tprev + seq![
                                    crate::art::cell_data(cell),
                                ]);
                                assert((tprev + seq![crate::art::cell_data(cell)]) + rest =~= tprev
                                    + (seq![crate::art::cell_data(cell)] + rest));
                            }
                        }
                    }
                    proof {
                        if !keep {
                            assert(!point_in_rect(area, x0 + area.x, y + area.y));
                        }
                    }
                }
                x += 1;
            }
            y += 1;
            proof {
                let rcells = self.row_frame_from(srow, y as int - 1, 0, area, progress.num as int,
                    progress.den as int);
                let rest = self.frame_rows_from(y as int, area, progress.num as int,
                    progress.den as int);
                assert(self.row_frame_from(srow, y as int - 1, srow.len() as int, area,
                    progress.num as int, progress.den as int) =~= Seq::<CellData>::empty());
                assert(tout + Seq::<CellData>::empty() =~= tout);
                assert(tout == before_row + rcells);
                assert((before_row + rcells) + rest =~= before_row + (rcells + rest));
                assert(self.frame_rows_from(y as int - 1, area, progress.num as int,
                    progress.den as int) == rcells + rest);
            }
        }
        proof {
            assert(self.frame_rows_from(self.rows@.len() as int, area, progress.num as int,
                progress.den as int) =~= Seq::<CellData>::empty());
            assert(tout + Seq::<CellData>::empty() =~= tout);
        }
        out
    }

    /// Draws one frame at an explicitly supplied progress, decoupled from
    /// the clock.
    pub fn render_to_buffer_at_progress(
        &self,
        area: ratatui::layout::Rect,
        buf: &mut ratatui::buffer::Buffer,
        progress: Progress,
    )
        requires
            self.wf(),
            1 <= progress.den,
    {
        let cells = self.frame_cells(area, progress);
        blit(&cells, buf);
    }

    /// Draws one frame at the progress the clock gives for `now_ms`.
    pub fn render_to_buffer(
        &self,
        area: ratatui::layout::Rect,
        buf: &mut ratatui::buffer::Buffer,
        now_ms: u64,
    )
        requires
            self.wf(),
            self.paused || now_ms >= self.anchor_ms,
    {
        let p = self.get_animation_progress(now_ms);
        self.render_to_buffer_at_progress(area, buf, p);
    }
}

/// A well-formed animation's pass is at least one millisecond long.
pub proof fn lemma_anim_pos(w: ProceduralAnimationWidget)
    requires
        w.wf(),
    ensures
        w.anim_ms() >= 1,
        w.total_ms() >= 1,
{
    assert(w.frame_duration_ms * w.num_frames >= 1) by (nonlinear_arith)
        requires
            w.frame_duration_ms >= 1,
            w.num_frames >= 1,
    ;
}

/// Clipping is safe: every cell of one frame's cell data lies inside the
/// destination area.
proof fn lemma_row_frame_clipped(
    w: ProceduralAnimationWidget,
    row: Seq<char>,
    y: int,
    x: int,
    area: ratatui::layout::Rect,
    num: int,
    den: int,
)
    ensures
        forall|i: int|
            0 <= i < w.row_frame_from(row, y, x, area, num, den).len() ==> point_in_rect(
                area,
                (#[trigger] w.row_frame_from(row, y, x, area, num, den)[i]).1 as int,
                w.row_frame_from(row, y, x, area, num, den)[i].2 as int,
            ),
    decreases row.len() - x,
{
    if 0 <= x < row.len() {
        lemma_row_frame_clipped(w, row, y, x + 1, area, num, den);
        let s = w.row_frame_from(row, y, x, area, num, den);
        let rest = w.row_frame_from(row, y, x + 1, area, num, den);
        if row[x] != ' ' && point_in_rect(area, x + area.x, y + area.y) {
            assert forall|i: int| 0 <= i < s.len() implies point_in_rect(
                area,
                (#[trigger] s[i]).1 as int,
                s[i].2 as int,
            ) by {
                if i > 0 {
                    assert(s[i] == rest[i - 1]);
                }
            }
        }
    }
}

/// Clipping is safe over all rows.
proof fn lemma_frame_rows_clipped(
    w: ProceduralAnimationWidget,
    y: int,
    area: ratatui::layout::Rect,
    num: int,
    den: int,
)
    ensures
        forall|i: int|
            0 <= i < w.frame_rows_from(y, area, num, den).len() ==> point_in_rect(
                area,
                (#[trigger] w.frame_rows_from(y, area, num, den)[i]).1 as int,
                w.frame_rows_from(y, area, num, den)[i].2 as int,
            ),
    decreases w.rows@.len() - y,
{
    if 0 <= y < w.rows@.len() {
        lemma_frame_rows_clipped(w, y + 1, area, num, den);
        lemma_row_frame_clipped(w, w.rows@[y]@, y, 0, area, num, den);
        let s = w.frame_rows_from(y, area, num, den);
        let head = w.row_frame_from(w.rows@[y]@, y, 0, area, num, den);
        let rest = w.frame_rows_from(y + 1, area, num, den);
        assert forall|i: int| 0 <= i < s.len() implies point_in_rect(
            area,
            (#[trigger] s[i]).1 as int,
            s[i].2 as int,
        ) by {
            if i < head.len() {
                assert(s[i] == head[i]);
            } else {
                assert(s[i] == rest[i - head.len()]);
            }
        }
    }
}

/// Render clipping: every cell a frame draws lies inside the destination
/// area; nothing is ever written outside it.
pub proof fn lemma_frame_cells_clipped(
    w: ProceduralAnimationWidget,
    area: ratatui::layout::Rect,
    p: Progress,
)
    ensures
        forall|i: int|
            0 <= i < w.spec_frame_cells(area, p).len() ==> point_in_rect(
                area,
                (#[trigger] w.spec_frame_cells(area, p)[i]).1 as int,
                w.spec_frame_cells(area, p)[i].2 as int,
            ),
{
    lemma_frame_rows_clipped(w, 0, area, p.num as int, p.den as int);
}

/// Pausing freezes the progress at its value when paused: at any later
/// instant `t`, a widget paused at `now` still shows what it showed at
/// `now`. A widget that was already paused is unchanged.
pub proof fn lemma_pause_freezes_progress(w: ProceduralAnimationWidget, now: u64, t: u64)
    requires
        w.wf(),
        w.paused || now >= w.anchor_ms,
    ensures
        w.pause_spec(now).progress_at(t) == w.progress_at(now),
{
}

/// Resuming at `now` reproduces the frozen progress exactly: no visual
/// jump. The one exception is a widget frozen exactly at the end of its
/// pass whose dwell was later removed, which restarts at zero — hence the
/// requirement that the frozen point lie inside the pass or a dwell exist.
pub proof fn lemma_unpause_restores_progress(w: ProceduralAnimationWidget, now: u64)
    requires
        w.wf(),
        w.paused,
        w.paused_progress_ms < w.anim_ms() || w.pause_at_end_ms > 0,
    ensures
        w.unpause_spec(now).progress_at(now) == w.progress_at(now),
{
    let w1 = w.unpause_spec(now);
    let p = w.paused_progress_ms as int;
    let anim = w.anim_ms();
    let total = w.total_ms();
    lemma_anim_pos(w);
    assert(w1.elapsed_at(now) == p);
    lemma_small_mod(p as nat, total as nat);
    assert(p % total == p);
}

/// Pausing twice in a row has the effect of pausing once, whatever the two
/// instants: the second call is a no-op.
pub proof fn lemma_pause_idempotent(w: ProceduralAnimationWidget, t1: u64, t2: u64)
    ensures
        w.pause_spec(t1).pause_spec(t2) == w.pause_spec(t1),
{
}

/// Resuming twice in a row has the effect of resuming once, whatever the
/// two instants: the second call is a no-op.
pub proof fn lemma_unpause_idempotent(w: ProceduralAnimationWidget, t1: u64, t2: u64)
    ensures
        w.unpause_spec(t1).unpause_spec(t2) == w.unpause_spec(t1),
{
}

/// Dwell correctness over the first cycle: while the virtual elapsed time
/// is within the pass, progress equals elapsed-over-pass and is strictly
/// below one; from the end of the pass to the end of the cycle it is
/// exactly one.
pub proof fn lemma_dwell_correctness(w: ProceduralAnimationWidget, now: u64)
    requires
        w.wf(),
        !w.paused,
        now >= w.anchor_ms,
    ensures
        w.anim_ms() <= w.elapsed_at(now) < w.total_ms() ==> w.progress_at(now).spec_is_complete(),
        w.elapsed_at(now) < w.anim_ms() ==> w.progress_at(now).num == w.elapsed_at(now)
            && w.progress_at(now).num < w.progress_at(now).den,
{
    let e = w.elapsed_at(now);
    let total = w.total_ms();
    lemma_anim_pos(w);
    if e < total {
        lemma_small_mod(e as nat, total as nat);
        assert(e % total == e);
    }
}

/// Within the pass, progress never decreases as time advances.
pub proof fn lemma_progress_monotone(w: ProceduralAnimationWidget, t1: u64, t2: u64)
    requires
        w.wf(),
        !w.paused,
        w.anchor_ms <= t1 <= t2,
        w.elapsed_at(t2) < w.anim_ms(),
    ensures
        w.progress_at(t1).num <= w.progress_at(t2).num,
{
    lemma_dwell_correctness(w, t1);
    lemma_dwell_correctness(w, t2);
}

/// Progress one whole cycle later is the same progress: the animation
/// loops without drift.
pub proof fn lemma_cyclic_wraparound(w: ProceduralAnimationWidget, t1: u64, t2: u64)
    requires
        w.wf(),
        !w.paused,
        t1 >= w.anchor_ms,
        t2 >= w.anchor_ms,
        w.elapsed_at(t2) == w.elapsed_at(t1) + w.total_ms(),
    ensures
        w.progress_at(t2) == w.progress_at(t1),
{
    let e = w.elapsed_at(t1);
    let total = w.total_ms();
    lemma_anim_pos(w);
    lemma_mod_add_multiples_vanish(e, total);
    assert((total + e) % total == e % total);
    assert(w.elapsed_at(t2) == total + e);
}

} // verus!
