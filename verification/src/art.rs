//! Static ASCII art: parsing a glyph block and a color block into cells,
//! measuring the result, and drawing it into a terminal buffer with every
//! write clipped to the destination area.
//!
//! Specifications describe cell lists as sequences of `(glyph, x, y, color)`
//! tuples; [`cells_match`] ties such a sequence to the executable cells.

use vstd::prelude::*;
use crate::backend::point_in_rect;
use crate::backend::write_cell;
use crate::text::spec_lines;
use crate::text::split_lines;

verus! {

/// One glyph of a piece of ASCII art, at art-relative coordinates.
#[derive(Clone, Copy, Debug)]
pub struct AsciiCell {
    pub ch: char,
    pub x: u16,
    pub y: u16,
    pub color: ratatui::style::Color,
}

/// What a cell holds, as a plain tuple: glyph, x, y, color.
pub type CellData = (char, u16, u16, ratatui::style::Color);

/// The tuple view of one cell.
pub open spec fn cell_data(c: AsciiCell) -> CellData {
    (c.ch, c.x, c.y, c.color)
}

/// Whether the cell list `cells` holds exactly the data `ts`, in order.
pub open spec fn cells_match(cells: Seq<AsciiCell>, ts: Seq<CellData>) -> bool {
    &&& cells.len() == ts.len()
    &&& forall|i: int| 0 <= i < ts.len() ==> cell_data(#[trigger] cells[i]) == ts[i]
}

/// The tuple view of a whole cell list.
pub open spec fn cells_data(cells: Seq<AsciiCell>) -> Seq<CellData>
    decreases cells.len(),
{
    if cells.len() == 0 {
        Seq::<CellData>::empty()
    } else {
        seq![cell_data(cells[0])] + cells_data(cells.skip(1))
    }
}

/// [`cells_data`] is the elementwise tuple view.
pub proof fn lemma_cells_data(cells: Seq<AsciiCell>)
    ensures
        cells_data(cells).len() == cells.len(),
        forall|i: int|
            0 <= i < cells.len() ==> cells_data(cells)[i] == cell_data(#[trigger] cells[i]),
        cells_match(cells, cells_data(cells)),
    decreases cells.len(),
{
    if cells.len() > 0 {
        lemma_cells_data(cells.skip(1));
        assert forall|i: int| 0 <= i < cells.len() implies cells_data(cells)[i] == cell_data(
            #[trigger] cells[i],
        ) by {
            if i > 0 {
                assert(cells.skip(1)[i - 1] == cells[i]);
            }
        }
    }
}

/// Coordinates low enough that measuring (adding one) and placing (adding a
/// `u16` offset, checked against the destination) stay inside machine range.
pub open spec fn cell_wf(c: AsciiCell) -> bool {
    c.x < u16::MAX && c.y < u16::MAX
}

/// The color mapped to `key`, or `default` when no pair lists it; the first
/// matching pair wins, as a map lookup built from distinct keys would.
pub open spec fn color_for(
    map: Seq<(char, ratatui::style::Color)>,
    key: char,
    default: ratatui::style::Color,
) -> ratatui::style::Color
    decreases map.len(),
{
    if map.len() == 0 {
        default
    } else if map[0].0 == key {
        map[0].1
    } else {
        color_for(map.skip(1), key, default)
    }
}

/// The cell data of art row `row` at height `y` from column `x` on, colored
/// by the matching color row `crow`.
pub open spec fn row_cells_from(
    row: Seq<char>,
    crow: Seq<char>,
    y: int,
    x: int,
    map: Seq<(char, ratatui::style::Color)>,
    fallback: ratatui::style::Color,
) -> Seq<CellData>
    decreases row.len() - x,
{
    if x < 0 || x >= row.len() {
        Seq::<CellData>::empty()
    } else {
        seq![(row[x], x as u16, y as u16, color_for(map, crow[x], fallback))] + row_cells_from(
            row,
            crow,
            y,
            x + 1,
            map,
            fallback,
        )
    }
}

/// The cell data of one art row `row` at height `y`.
pub open spec fn row_cells(
    row: Seq<char>,
    crow: Seq<char>,
    y: int,
    map: Seq<(char, ratatui::style::Color)>,
    fallback: ratatui::style::Color,
) -> Seq<CellData> {
    row_cells_from(row, crow, y, 0, map, fallback)
}

/// The cell data of all rows from `y` on, in row-major order.
pub open spec fn rows_cells_from(
    rows: Seq<Seq<char>>,
    crows: Seq<Seq<char>>,
    y: int,
    map: Seq<(char, ratatui::style::Color)>,
    fallback: ratatui::style::Color,
) -> Seq<CellData>
    decreases rows.len() - y,
{
    if y < 0 || y >= rows.len() {
        Seq::<CellData>::empty()
    } else {
        row_cells(rows[y], crows[y], y, map, fallback) + rows_cells_from(
            rows,
            crows,
            y + 1,
            map,
            fallback,
        )
    }
}

/// The full cell data that parsing an art block and a color block yields.
pub open spec fn spec_parse_ascii_art(
    art: Seq<char>,
    color_map_str: Seq<char>,
    map: Seq<(char, ratatui::style::Color)>,
    default: ratatui::style::Color,
) -> Seq<CellData> {
    rows_cells_from(spec_lines(art), spec_lines(color_map_str), 0, map, default)
}

/// Whether the two blocks have the same shape: equally many lines, each
/// pair of lines equally long, and small enough for `u16` coordinates.
pub open spec fn art_shape_ok(art: Seq<char>, color_map_str: Seq<char>) -> bool {
    let rows = spec_lines(art);
    let crows = spec_lines(color_map_str);
    &&& rows.len() == crows.len()
    &&& forall|y: int| 0 <= y < rows.len() ==> (#[trigger] rows[y]).len() == crows[y].len()
    &&& rows.len() < u16::MAX
    &&& forall|y: int| 0 <= y < rows.len() ==> (#[trigger] rows[y]).len() < u16::MAX
}

/// Appending one cell and its data preserves [`cells_match`].
pub proof fn lemma_cells_match_push(cells: Seq<AsciiCell>, ts: Seq<CellData>, c: AsciiCell)
    requires
        cells_match(cells, ts),
    ensures
        cells_match(cells.push(c), ts.push(cell_data(c))),
{
    let cells2 = cells.push(c);
    let ts2 = ts.push(cell_data(c));
    assert forall|i: int| 0 <= i < ts2.len() implies cell_data(#[trigger] cells2[i]) == ts2[i] by {
        if i < ts.len() {
            assert(cells2[i] == cells[i]);
            assert(ts2[i] == ts[i]);
        } else {
            assert(cells2[i] == c);
        }
    }
}

/// Appending a well-formed cell keeps every cell well formed.
pub proof fn lemma_cell_wf_push(cells: Seq<AsciiCell>, c: AsciiCell)
    requires
        forall|i: int| 0 <= i < cells.len() ==> cell_wf(#[trigger] cells[i]),
        cell_wf(c),
    ensures
        forall|i: int| 0 <= i < cells.push(c).len() ==> cell_wf(#[trigger] cells.push(c)[i]),
{
    let cells2 = cells.push(c);
    assert forall|i: int| 0 <= i < cells2.len() implies cell_wf(#[trigger] cells2[i]) by {
        if i < cells.len() {
            assert(cells2[i] == cells[i]);
        } else {
            assert(cells2[i] == c);
        }
    }
}

/// Sequence concatenation is associative.
proof fn lemma_add_assoc<A>(a: Seq<A>, b: Seq<A>, c: Seq<A>)
    ensures
        (a + b) + c == a + (b + c),
{
    assert((a + b) + c =~= a + (b + c));
}

/// Looks `key` up in the color pairs, falling back to `default`.
fn lookup_color(
    map: &Vec<(char, ratatui::style::Color)>,
    key: char,
    default: ratatui::style::Color,
) -> (r: ratatui::style::Color)
    ensures
        r == color_for(map@, key, default),
{
    let mut i: usize = 0;
    proof {
        assert(map@.skip(0) =~= map@);
    }
    while i < map.len()
        invariant
            i <= map@.len(),
            color_for(map@, key, default) == color_for(map@.skip(i as int), key, default),
        decreases map@.len() - i,
    {
        proof {
            assert(map@.skip(i as int)[0] == map@[i as int]);
            assert(map@.skip(i as int).skip(1) =~= map@.skip(i as int + 1));
        }
        if map[i].0 == key {
            return map[i].1;
        }
        i += 1;
    }
    proof {
        assert(map@.skip(map@.len() as int).len() == 0);
    }
    default
}

/// Turns an art block and an equally shaped color block into one cell per
/// glyph, each colored by the pair list (`default_color` where a color
/// character is unlisted), in row-major order.
pub fn parse_ascii_art(
    art: &str,
    color_map_str: &str,
    color_map: &Vec<(char, ratatui::style::Color)>,
    default_color: ratatui::style::Color,
) -> (out: Vec<AsciiCell>)
    requires
        art_shape_ok(art@, color_map_str@),
    ensures
        cells_match(out@, spec_parse_ascii_art(art@, color_map_str@, color_map@, default_color)),
        forall|i: int| 0 <= i < out@.len() ==> cell_wf(#[trigger] out@[i]),
{
    let rows = split_lines(art);
    let crows = split_lines(color_map_str);
    let ghost srows = spec_lines(art@);
    let ghost scrows = spec_lines(color_map_str@);
    let ghost target = spec_parse_ascii_art(art@, color_map_str@, color_map@, default_color);
    let mut out: Vec<AsciiCell> = Vec::new();
    let ghost mut tout = Seq::<CellData>::empty();
    let mut y: usize = 0;
    proof {
        assert(tout + rows_cells_from(srows, scrows, 0, color_map@, default_color) =~= target);
    }
    while y < rows.len()
        invariant
            rows.deep_view() == srows,
            crows.deep_view() == scrows,
            srows.len() == scrows.len(),
            forall|k: int| 0 <= k < srows.len() ==> (#[trigger] srows[k]).len() == scrows[k].len(),
            srows.len() < u16::MAX,
            forall|k: int| 0 <= k < srows.len() ==> (#[trigger] srows[k]).len() < u16::MAX,
            y <= rows@.len(),
            rows@.len() == srows.len(),
            crows@.len() == scrows.len(),
            target == spec_parse_ascii_art(art@, color_map_str@, color_map@, default_color),
            tout + rows_cells_from(srows, scrows, y as int, color_map@, default_color) == target,
            cells_match(out@, tout),
            forall|i: int| 0 <= i < out@.len() ==> cell_wf(#[trigger] out@[i]),
        decreases rows@.len() - y,
    {
        let row = &rows[y];
        let crow = &crows[y];
        proof {
            assert(row@ =~= srows[y as int]);
            assert(crow@ =~= scrows[y as int]);
        }
        let ghost before_row = tout;
        let mut x: usize = 0;
        while x < row.len()
            invariant
                row@ == srows[y as int],
                crow@ == scrows[y as int],
                0 <= y < srows.len(),
                srows[y as int].len() == scrows[y as int].len(),
                srows[y as int].len() < u16::MAX,
                srows.len() < u16::MAX,
                x <= row@.len(),
                tout + row_cells_from(
                    srows[y as int],
                    scrows[y as int],
                    y as int,
                    x as int,
                    color_map@,
                    default_color,
                ) == before_row + row_cells(
                    srows[y as int],
                    scrows[y as int],
                    y as int,
                    color_map@,
                    default_color,
                ),
                cells_match(out@, tout),
                forall|i: int| 0 <= i < out@.len() ==> cell_wf(#[trigger] out@[i]),
            decreases row@.len() - x,
        {
            let ghost x0 = x as int;
            let ghost tprev = tout;
            let ghost oprev = out@;
            let color = lookup_color(color_map, crow[x], default_color);
            let cell = AsciiCell { ch: row[x], x: x as u16, y: y as u16, color };
            out.push(cell);
            proof {
                tout = tout.push(cell_data(cell));
            }
            x += 1;
            proof {
                let srow = srows[y as int];
                let scrow = scrows[y as int];
                let td = cell_data(cell);
                let rest = row_cells_from(srow, scrow, y as int, x0 + 1, color_map@,
                    default_color);
                lemma_cells_match_push(oprev, tprev, cell);
                lemma_cell_wf_push(oprev, cell);
                assert(tprev.push(td) =~= tprev + seq![td]);
                assert(row_cells_from(srow, scrow, y as int, x0, color_map@, default_color)
                    == seq![td] + rest);
                lemma_add_assoc(tprev, seq![td], rest);
            }
        }
        y += 1;
        proof {
            let srow = srows[y as int - 1];
            let scrow = scrows[y as int - 1];
            let rcells = row_cells(srow, scrow, y as int - 1, color_map@, default_color);
            let rest = rows_cells_from(srows, scrows, y as int, color_map@, default_color);
            assert(row_cells_from(srow, scrow, y as int - 1, srow.len() as int, color_map@,
                default_color) =~= Seq::<CellData>::empty());
            assert(tout + Seq::<CellData>::empty() =~= tout);
            assert(tout == before_row + rcells);
            lemma_add_assoc(before_row, rcells, rest);
            assert(rows_cells_from(srows, scrows, y as int - 1, color_map@, default_color)
                == rcells + rest);
        }
    }
    proof {
        assert(rows_cells_from(srows, scrows, srows.len() as int, color_map@, default_color)
            =~= Seq::<CellData>::empty());
        assert(tout + Seq::<CellData>::empty() =~= tout);
    }
    out
}

/// A parsed art block: its cells in row-major order.
pub struct AsciiCells {
    pub cells: Vec<AsciiCell>,
}

impl AsciiCells {
    /// Every cell's coordinates leave room for measuring and placing.
    pub open spec fn wf(&self) -> bool {
        forall|i: int| 0 <= i < self.cells@.len() ==> cell_wf(#[trigger] self.cells@[i])
    }

    /// The largest x coordinate among the cells, or zero when there are none.
    pub open spec fn spec_max_x(cells: Seq<AsciiCell>) -> int
        decreases cells.len(),
    {
        if cells.len() == 0 {
            0
        } else {
            let rest = Self::spec_max_x(cells.drop_last());
            if cells.last().x > rest {
                cells.last().x as int
            } else {
                rest
            }
        }
    }

    /// The largest y coordinate among the cells, or zero when there are none.
    pub open spec fn spec_max_y(cells: Seq<AsciiCell>) -> int
        decreases cells.len(),
    {
        if cells.len() == 0 {
            0
        } else {
            let rest = Self::spec_max_y(cells.drop_last());
            if cells.last().y > rest {
                cells.last().y as int
            } else {
                rest
            }
        }
    }

    /// Parses the two blocks into a cell collection.
    pub fn from(
        art: &str,
        color_map_str: &str,
        color_map: &Vec<(char, ratatui::style::Color)>,
        default_color: ratatui::style::Color,
    ) -> (r: Self)
        requires
            art_shape_ok(art@, color_map_str@),
        ensures
            cells_match(
                r.cells@,
                spec_parse_ascii_art(art@, color_map_str@, color_map@, default_color),
            ),
            r.wf(),
    {
        AsciiCells { cells: parse_ascii_art(art, color_map_str, color_map, default_color) }
    }

    /// One more than the largest x coordinate (one when there are no cells).
    pub fn get_width(&self) -> (w: u16)
        requires
            self.wf(),
        ensures
            w == Self::spec_max_x(self.cells@) + 1,
    {
        let mut best: u16 = 0;
        let mut i: usize = 0;
        while i < self.cells.len()
            invariant
                self.wf(),
                i <= self.cells@.len(),
                best == Self::spec_max_x(self.cells@.take(i as int)),
                best < u16::MAX,
            decreases self.cells@.len() - i,
        {
            let x = self.cells[i].x;
            if x > best {
                best = x;
            }
            i += 1;
            proof {
                assert(self.cells@.take(i as int).drop_last() =~= self.cells@.take(i as int - 1));
                assert(self.cells@.take(i as int).last() == self.cells@[i as int - 1]);
            }
        }
        proof {
            assert(self.cells@.take(self.cells@.len() as int) =~= self.cells@);
        }
        best + 1
    }

    /// One more than the largest y coordinate (one when there are no cells).
    pub fn get_height(&self) -> (h: u16)
        requires
            self.wf(),
        ensures
            h == Self::spec_max_y(self.cells@) + 1,
    {
        let mut best: u16 = 0;
        let mut i: usize = 0;
        while i < self.cells.len()
            invariant
                self.wf(),
                i <= self.cells@.len(),
                best == Self::spec_max_y(self.cells@.take(i as int)),
                best < u16::MAX,
            decreases self.cells@.len() - i,
        {
            let y = self.cells[i].y;
            if y > best {
                best = y;
            }
            i += 1;
            proof {
                assert(self.cells@.take(i as int).drop_last() =~= self.cells@.take(i as int - 1));
                assert(self.cells@.take(i as int).last() == self.cells@[i as int - 1]);
            }
        }
        proof {
            assert(self.cells@.take(self.cells@.len() as int) =~= self.cells@);
        }
        best + 1
    }
}

/// The data of the cells whose absolute position (art position shifted by
/// the area's corner) falls inside `area`, moved to absolute coordinates.
pub open spec fn spec_visible(ts: Seq<CellData>, area: ratatui::layout::Rect) -> Seq<CellData>
    decreases ts.len(),
{
    if ts.len() == 0 {
        Seq::<CellData>::empty()
    } else {
        let t = ts[0];
        let rest = spec_visible(ts.skip(1), area);
        if point_in_rect(area, t.1 + area.x, t.2 + area.y) {
            seq![(t.0, (t.1 + area.x) as u16, (t.2 + area.y) as u16, t.3)] + rest
        } else {
            rest
        }
    }
}

/// Clipping is safe: every cell that [`spec_visible`] keeps lies inside
/// the destination area.
pub proof fn lemma_visible_cells_clipped(ts: Seq<CellData>, area: ratatui::layout::Rect)
    ensures
        forall|i: int|
            0 <= i < spec_visible(ts, area).len() ==> point_in_rect(
                area,
                (#[trigger] spec_visible(ts, area)[i]).1 as int,
                spec_visible(ts, area)[i].2 as int,
            ),
    decreases ts.len(),
{
    if ts.len() > 0 {
        lemma_visible_cells_clipped(ts.skip(1), area);
        let t = ts[0];
        let rest = spec_visible(ts.skip(1), area);
        if point_in_rect(area, t.1 + area.x, t.2 + area.y) {
            assert forall|i: int| 0 <= i < spec_visible(ts, area).len() implies point_in_rect(
                area,
                (#[trigger] spec_visible(ts, area)[i]).1 as int,
                spec_visible(ts, area)[i].2 as int,
            ) by {
                if i > 0 {
                    assert(spec_visible(ts, area)[i] == rest[i - 1]);
                }
            }
        }
    }
}

/// Keeps exactly the cells whose absolute position lies inside `area`, at
/// absolute coordinates; everything else is clipped away silently.
pub fn visible_cells(cells: &Vec<AsciiCell>, area: ratatui::layout::Rect) -> (out: Vec<AsciiCell>)
    ensures
        cells_match(out@, spec_visible(cells_data(cells@), area)),
{
    let ghost ts = cells_data(cells@);
    let mut out: Vec<AsciiCell> = Vec::new();
    let ghost mut tout = Seq::<CellData>::empty();
    let mut i: usize = 0;
    proof {
        lemma_cells_data(cells@);
        assert(ts.skip(0) =~= ts);
        assert(tout + spec_visible(ts, area) =~= spec_visible(ts, area));
    }
    while i < cells.len()
        invariant
            ts == cells_data(cells@),
            ts.len() == cells@.len(),
            forall|k: int| 0 <= k < cells@.len() ==> ts[k] == cell_data(#[trigger] cells@[k]),
            i <= cells@.len(),
            tout + spec_visible(ts.skip(i as int), area) == spec_visible(ts, area),
            cells_match(out@, tout),
        decreases cells@.len() - i,
    {
        let c = cells[i];
        let ghost tprev = tout;
        proof {
            assert(ts.skip(i as int)[0] == ts[i as int]);
            assert(ts.skip(i as int).skip(1) =~= ts.skip(i as int + 1));
        }
        let px = c.x as u32 + area.x as u32;
        let py = c.y as u32 + area.y as u32;
        let mut keep = false;
        if px <= 0xFFFF && py <= 0xFFFF {
            let pos = ratatui::layout::Position { x: px as u16, y: py as u16 };
            if area.contains(pos) {
                keep = true;
                let moved = AsciiCell { ch: c.ch, x: px as u16, y: py as u16, color: c.color };
                let ghost oprev = out@;
                out.push(moved);
                proof {
                    lemma_cells_match_push(oprev, tout, moved);
                    tout = tout.push(cell_data(moved));
                    let rest = spec_visible(ts.skip(i as int + 1), area);
                    assert(tprev.push(cell_data(moved)) =~= tprev + seq![cell_data(moved)]);
                    lemma_add_assoc(tprev, seq![cell_data(moved)], rest);
                }
            }
        }
        proof {
            if !keep {
                assert(!point_in_rect(area, ts[i as int].1 + area.x, ts[i as int].2 + area.y));
            }
        }
        i += 1;
    }
    proof {
        assert(ts.skip(ts.len() as int).len() == 0);
        assert(tout + Seq::<CellData>::empty() =~= tout);
    }
    out
}

/// Writes the given absolutely positioned cells into the buffer, one glyph
/// and foreground color each.
pub(crate) fn blit(cells: &Vec<AsciiCell>, buf: &mut ratatui::buffer::Buffer) {
    let mut i: usize = 0;
    while i < cells.len()
        decreases cells@.len() - i,
    {
        let c = cells[i];
        write_cell(buf, c.x, c.y, c.ch, c.color);
        i += 1;
    }
}

/// A widget that draws one parsed art block.
pub struct AsciiArtWidget {
    pub collection: AsciiCells,
}

impl AsciiArtWidget {
    /// Wraps a parsed art block for drawing.
    pub fn new(collection: AsciiCells) -> (r: Self)
        ensures
            r.collection.cells@ == collection.cells@,
    {
        AsciiArtWidget { collection }
    }

    /// Draws every cell whose absolute position falls inside `area`; cells
    /// outside are clipped silently.
    pub fn render(self, area: ratatui::layout::Rect, buf: &mut ratatui::buffer::Buffer) {
        let shown = visible_cells(&self.collection.cells, area);
        blit(&shown, buf);
    }
}

} // verus!
