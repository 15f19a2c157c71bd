//! The trusted boundary to the terminal UI crate: declarations of the
//! drawing-surface types and the few primitives the verified renderers
//! write through.
//!
//! The buffer is opaque to the verifier; everything that decides *what*
//! is drawn — glyph choice, color choice, clipping — is computed and
//! proved elsewhere, and only the final per-cell write crosses this
//! boundary.

use vstd::prelude::*;

verus! {

/// `ratatui::layout::Rect` is a plain record of four public `u16` fields;
/// declaring it transparently lets contracts speak of its coordinates.
#[verifier::external_type_specification]
pub struct ExRect(ratatui::layout::Rect);

/// `ratatui::layout::Position` is a plain record of two public `u16` fields.
#[verifier::external_type_specification]
pub struct ExPosition(ratatui::layout::Position);

/// `ratatui::style::Color` is a plain enum whose variants carry only `u8`s.
#[verifier::external_type_specification]
pub struct ExColor(ratatui::style::Color);

/// `ratatui::layout::Constraint` is a plain enum over `u16`/`u32` values.
#[verifier::external_type_specification]
pub struct ExConstraint(ratatui::layout::Constraint);

/// The terminal's backing cell grid; its cells hold private fields, so it
/// stays opaque and is only ever written through the wrappers below.
#[verifier::external_type_specification]
#[verifier::external_body]
pub struct ExBuffer(ratatui::buffer::Buffer);

/// `u16` addition that sticks at the largest value instead of overflowing,
/// as the rectangle type's own edge arithmetic does.
pub open spec fn sat_add_u16(a: u16, b: u16) -> int {
    if a + b > u16::MAX { u16::MAX as int } else { a + b }
}

/// Whether the point `(px, py)` lies inside `area`, with the right and
/// bottom edges saturating at the `u16` range as the rectangle type does.
pub open spec fn point_in_rect(area: ratatui::layout::Rect, px: int, py: int) -> bool {
    &&& area.x <= px < sat_add_u16(area.x, area.width)
    &&& area.y <= py < sat_add_u16(area.y, area.height)
}

/// Relies on `Rect::contains`: true exactly when the position lies at or
/// right of / below the top-left corner and strictly left of / above the
/// saturating right and bottom edges.
pub assume_specification[ ratatui::layout::Rect::contains ](
    area: ratatui::layout::Rect,
    position: ratatui::layout::Position,
) -> (r: bool)
    ensures
        r == point_in_rect(area, position.x as int, position.y as int),
;

/// Relies on `Buffer::cell_mut`, `Cell::set_char` and `Cell::set_fg`: sets
/// one glyph and its foreground color at the given coordinates, and does
/// nothing when the coordinates fall outside the buffer's own area.
#[verifier::external_body]
pub(crate) fn write_cell(
    buf: &mut ratatui::buffer::Buffer,
    x: u16,
    y: u16,
    ch: char,
    color: ratatui::style::Color,
) {
    if let Some(cell) = buf.cell_mut(ratatui::layout::Position { x, y }) {
        cell.set_char(ch);
        cell.set_fg(color);
    }
}

/// Relies on `Buffer::cell_mut`, `Cell::set_char` and `Cell::set_style`:
/// as [`write_cell`], but also marks the glyph bold.
#[verifier::external_body]
pub(crate) fn write_cell_bold(
    buf: &mut ratatui::buffer::Buffer,
    x: u16,
    y: u16,
    ch: char,
    color: ratatui::style::Color,
) {
    if let Some(cell) = buf.cell_mut(ratatui::layout::Position { x, y }) {
        cell.set_char(ch);
        cell.set_style(
            ratatui::style::Style::new().fg(color).add_modifier(ratatui::style::Modifier::BOLD),
        );
    }
}

/// Relies on `Layout::horizontal` with `Flex::Center`: centers a region of
/// the given horizontal extent inside `area`, then centers it vertically.
/// The solver's exact placement is presentation, not stated here.
#[verifier::external_body]
pub fn center(
    area: ratatui::layout::Rect,
    horizontal: ratatui::layout::Constraint,
) -> ratatui::layout::Rect {
    let [area] = ratatui::layout::Layout::horizontal([horizontal])
        .flex(ratatui::layout::Flex::Center)
        .areas(area);
    vertically_center(area)
}

/// Relies on `Layout::vertical` with fill constraints on both sides: picks
/// the middle band of `area`. The solver's exact placement is presentation,
/// not stated here.
#[verifier::external_body]
pub fn vertically_center(area: ratatui::layout::Rect) -> ratatui::layout::Rect {
    let constraints = [
        ratatui::layout::Constraint::Fill(1),
        ratatui::layout::Constraint::Min(1),
        ratatui::layout::Constraint::Fill(1),
    ];
    let [_, middle, _] = ratatui::layout::Layout::vertical(constraints).areas(area);
    middle
}

} // verus!
