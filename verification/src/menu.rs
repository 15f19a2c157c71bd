//! The start menu: a fixed list of difficulties with a wrap-around cursor,
//! the procedurally animated banner above it, and the screen renderer.
//!
//! Navigation wraps at both ends. A saved selection index outside the list
//! is clamped to the last entry when a menu is built.

use vstd::prelude::*;
use vstd::string::StringExecFns;
use vstd::string::StrSliceExecFns;
use crate::backend::write_cell_bold;
use crate::procedural::ColorRule;
use crate::procedural::GlyphRule;
use crate::procedural::ProceduralAnimationWidget;
use crate::runtime::SelectionStore;
use crate::runtime::get_last_selected_index;
use crate::text::to_uppercase;

verus! {

/// A difficulty: how many bits the game asks about, scaled by two to the
/// power of `shift`.
#[derive(Clone, Copy, Debug, PartialEq, Eq, Structural)]
pub struct Difficulty {
    pub bits: u8,
    pub shift: u8,
}

/// The start menu: its entries, the cursor, and the banner animation.
pub struct StartMenuState {
    pub items: Vec<(String, Difficulty)>,
    pub selected: usize,
    pub animation: ProceduralAnimationWidget,
}

/// Builds the menu's banner: a fifty-frame sweep of fifty milliseconds per
/// frame with a two-second dwell, a bright green diagonal band over dark
/// gray, and binary digits inside the band.
pub fn ascii_animation(now_ms: u64) -> (r: ProceduralAnimationWidget)
    ensures
        r.wf(),
        !r.paused,
        r.anchor_ms == now_ms,
        r.offset_ms == 0,
        r.num_frames == 50,
        r.frame_duration_ms == 50,
        r.pause_at_end_ms == 2000,
        r.color_rule == (ColorRule::DiagonalStrip {
            strip_width: 8,
            strip: ratatui::style::Color::LightGreen,
            base: ratatui::style::Color::DarkGray,
        }),
        r.char_rule == (GlyphRule::BinaryInStrip { strip_width: 8 }),
{
    let art: &str = r#" ,,        ,,              ,,
*MM        db             *MM      [a: toggle animation]     `7MM
 MM                        MM                                  MM
 MM,dMMb.`7MM  `7MMpMMMb.  MM,dMMb.`7Mb,od8 .gP"Ya   ,6"Yb.    MM  ,MP'
 MM    `Mb MM    MM    MM  MM    `Mb MM' "',M'   Yb 8)   MM    MM ;Y
 MM     M8 MM    MM    MM  MM     M8 MM    8M""""""  ,pm9MM    MM;Mm
 MM.   ,M9 MM    MM    MM  MM.   ,M9 MM    YM.    , 8M   MM    MM `Mb.
 P^YbmdP'.JMML..JMML  JMML.P^YbmdP'.JMML.   `Mbmmd' `Moo9^Yo..JMML. YA.
"#;
    // The banner easily fits u16 coordinates; the guard keeps the bound a
    // checked fact rather than an assumption about the literal.
    let n = art.unicode_len();
    let base: &str = if n < 0xFFFF {
        art
    } else {
        proof {
            reveal_strlit("");
        }
        ""
    };
    let rule = ColorRule::DiagonalStrip {
        strip_width: 8,
        strip: ratatui::style::Color::LightGreen,
        base: ratatui::style::Color::DarkGray,
    };
    let w = ProceduralAnimationWidget::new(base, 50, 50, rule, now_ms);
    w.with_char_fn(GlyphRule::BinaryInStrip { strip_width: 8 }).with_pause_at_end(2000)
}

/// Whether `m` is a freshly built menu: the seven standard entries, the
/// cursor at `idx` clamped into range, and the banner anchored at `now`.
pub open spec fn is_fresh_menu(m: StartMenuState, idx: usize, now: u64) -> bool {
    &&& m.wf()
    &&& m.items@.len() == 7
    &&& m.selected == (if idx < 7 {
        idx as int
    } else {
        6
    })
    &&& m.items@[0].1 == (Difficulty { bits: 4, shift: 0 })
    &&& m.items@[1].1 == (Difficulty { bits: 4, shift: 4 })
    &&& m.items@[2].1 == (Difficulty { bits: 4, shift: 8 })
    &&& m.items@[3].1 == (Difficulty { bits: 4, shift: 12 })
    &&& m.items@[4].1 == (Difficulty { bits: 8, shift: 0 })
    &&& m.items@[5].1 == (Difficulty { bits: 12, shift: 0 })
    &&& m.items@[6].1 == (Difficulty { bits: 16, shift: 0 })
    &&& m.items@[0].0@ == "easy       (4 bits)"@
    &&& m.items@[1].0@ == "easy+16    (4 bits*16)"@
    &&& m.items@[2].0@ == "easy+256   (4 bits*256)"@
    &&& m.items@[3].0@ == "easy+4096  (4 bits*4096)"@
    &&& m.items@[4].0@ == "normal     (8 bits)"@
    &&& m.items@[5].0@ == "master     (12 bits)"@
    &&& m.items@[6].0@ == "insane     (16 bits)"@
    &&& m.animation.anchor_ms == now
    &&& !m.animation.paused
    &&& m.animation.num_frames == 50
    &&& m.animation.frame_duration_ms == 50
    &&& m.animation.pause_at_end_ms == 2000
}

impl StartMenuState {
    /// A non-empty list, a cursor inside it, and a well-formed banner.
    pub open spec fn wf(self) -> bool {
        &&& 1 <= self.items@.len()
        &&& self.selected < self.items@.len()
        &&& self.animation.wf()
    }

    /// Builds the menu seeded from the saved selection.
    pub fn new(store: &SelectionStore, now_ms: u64) -> (r: Self)
        ensures
            is_fresh_menu(r, store.last_selected_index, now_ms),
    {
        Self::with_selected(get_last_selected_index(store), now_ms)
    }

    /// Builds the menu with the cursor on `selected_index` (clamped to the
    /// last entry) and the banner anchored at `now_ms`.
    pub fn with_selected(selected_index: usize, now_ms: u64) -> (r: Self)
        ensures
            is_fresh_menu(r, selected_index, now_ms),
    {
        let mut items: Vec<(String, Difficulty)> = Vec::new();
        items.push((String::from_str("easy       (4 bits)"), Difficulty { bits: 4, shift: 0 }));
        items.push((String::from_str("easy+16    (4 bits*16)"), Difficulty { bits: 4, shift: 4 }));
        items.push(
            (String::from_str("easy+256   (4 bits*256)"), Difficulty { bits: 4, shift: 8 }),
        );
        items.push(
            (String::from_str("easy+4096  (4 bits*4096)"), Difficulty { bits: 4, shift: 12 }),
        );
        items.push((String::from_str("normal     (8 bits)"), Difficulty { bits: 8, shift: 0 }));
        items.push((String::from_str("master     (12 bits)"), Difficulty { bits: 12, shift: 0 }));
        items.push((String::from_str("insane     (16 bits)"), Difficulty { bits: 16, shift: 0 }));
        let selected: usize = if selected_index < 7 {
            selected_index
        } else {
            6
        };
        StartMenuState { items, selected, animation: ascii_animation(now_ms) }
    }

    /// The cursor's position.
    pub fn selected_index(&self) -> (r: usize)
        ensures
            r == self.selected,
    {
        self.selected
    }

    /// The difficulty under the cursor.
    pub fn selected_bits(&self) -> (r: Difficulty)
        requires
            self.wf(),
        ensures
            r == self.items@[self.selected as int].1,
    {
        self.items[self.selected].1
    }

    /// The menu with the cursor one entry down, wrapping to the first past
    /// the last.
    pub open spec fn select_next_spec(self) -> Self {
        StartMenuState {
            selected: if self.selected + 1 == self.items@.len() {
                0
            } else {
                (self.selected + 1) as usize
            },
            ..self
        }
    }

    /// The menu with the cursor one entry up, wrapping to the last before
    /// the first.
    pub open spec fn select_previous_spec(self) -> Self {
        StartMenuState {
            selected: if self.selected == 0 {
                (self.items@.len() - 1) as usize
            } else {
                (self.selected - 1) as usize
            },
            ..self
        }
    }

    /// Moves the cursor down, wrapping at the end.
    pub fn select_next(&mut self)
        requires
            old(self).wf(),
        ensures
            *final(self) == old(self).select_next_spec(),
            final(self).wf(),
    {
        let last = self.items.len() - 1;
        if self.selected >= last {
            self.selected = 0;
        } else {
            self.selected = self.selected + 1;
        }
    }

    /// Moves the cursor up, wrapping at the start.
    pub fn select_previous(&mut self)
        requires
            old(self).wf(),
        ensures
            *final(self) == old(self).select_previous_spec(),
            final(self).wf(),
    {
        if self.selected == 0 {
            self.selected = self.items.len() - 1;
        } else {
            self.selected = self.selected - 1;
        }
    }

    /// Pauses or resumes the banner animation.
    pub fn toggle_animation(&mut self, now_ms: u64)
        requires
            old(self).wf(),
            old(self).animation.paused || now_ms >= old(self).animation.anchor_ms,
        ensures
            *final(self) == (StartMenuState {
                animation: if old(self).animation.paused {
                    old(self).animation.unpause_spec(now_ms)
                } else {
                    old(self).animation.pause_spec(now_ms)
                },
                ..*old(self)
            }),
            final(self).wf(),
    {
        self.animation.toggle_pause(now_ms);
    }
}

/// Selection wraparound: stepping up from the first entry lands on the
/// last, stepping down from the last lands on the first, and each step is
/// undone by the opposite step.
pub proof fn lemma_selection_wraparound(m: StartMenuState)
    requires
        m.wf(),
        m.items@.len() <= usize::MAX,
    ensures
        m.selected == 0 ==> m.select_previous_spec().selected == m.items@.len() - 1,
        m.selected == m.items@.len() - 1 ==> m.select_next_spec().selected == 0,
        m.select_previous_spec().select_next_spec().selected == m.selected,
        m.select_next_spec().select_previous_spec().selected == m.selected,
{
}

/// Growing a run of spaces appends one at the end as much as it prepends
/// one at the front.
proof fn lemma_spaces_snoc(n: int)
    requires
        n >= 1,
    ensures
        spaces(n) == spaces(n - 1) + seq![' '],
    decreases n,
{
    if n == 1 {
        assert(spaces(1) =~= spaces(0) + seq![' ']);
    } else {
        lemma_spaces_snoc(n - 1);
        assert(spaces(n) =~= spaces(n - 1) + seq![' ']);
    }
}

/// `n` spaces.
pub open spec fn spaces(n: int) -> Seq<char>
    decreases n,
{
    if n <= 0 {
        Seq::<char>::empty()
    } else {
        seq![' '] + spaces(n - 1)
    }
}

/// One rendered menu line: the marker (a right guillemet under the cursor,
/// a space elsewhere), a space, and the label padded with spaces to
/// `width`.
pub open spec fn spec_menu_line(label: Seq<char>, selected: bool, width: int) -> Seq<char> {
    seq![
        if selected {
            '\u{bb}'
        } else {
            ' '
        },
        ' ',
    ] + label + spaces(width - label.len())
}

/// Formats one menu line.
pub fn menu_line(label: &String, selected: bool, width: u16) -> (r: String)
    ensures
        r@ == spec_menu_line(label@, selected, width as int),
{
    let mut line = String::new();
    proof {
        reveal_strlit("\u{bb}");
        reveal_strlit(" ");
    }
    if selected {
        line.append("\u{bb}");
    } else {
        line.append(" ");
    }
    line.append(" ");
    line.append(label.as_str());
    let n = label.as_str().unicode_len();
    let pad_total: usize = if n < width as usize {
        width as usize - n
    } else {
        0
    };
    let mut pad: usize = 0;
    let ghost head = seq![
        if selected {
            '\u{bb}'
        } else {
            ' '
        },
        ' ',
    ] + label@;
    proof {
        assert(line@ =~= head + spaces(0));
    }
    while pad < pad_total
        invariant
            line@ == head + spaces(pad as int),
            pad <= pad_total,
            pad_total == if n < width as usize {
                (width - n) as int
            } else {
                0
            },
            n == label@.len(),
        decreases pad_total - pad,
    {
        line.append(" ");
        pad += 1;
        proof {
            reveal_strlit(" ");
            lemma_spaces_snoc(pad as int);
            assert(line@ =~= head + spaces(pad as int));
        }
    }
    proof {
        if n >= width {
            assert(spaces(width as int - label@.len()) =~= Seq::<char>::empty());
            assert(line@ =~= spec_menu_line(label@, selected, width as int));
        } else {
            assert(line@ =~= spec_menu_line(label@, selected, width as int));
        }
    }
    line
}

/// The flair color of menu entry `i`: a six-color palette, repeating.
pub open spec fn spec_palette_color(i: int) -> ratatui::style::Color {
    let k = i % 6;
    if k == 0 {
        ratatui::style::Color::LightGreen
    } else if k == 1 {
        ratatui::style::Color::LightCyan
    } else if k == 2 {
        ratatui::style::Color::LightBlue
    } else if k == 3 {
        ratatui::style::Color::LightMagenta
    } else if k == 4 {
        ratatui::style::Color::LightYellow
    } else {
        ratatui::style::Color::LightRed
    }
}

/// Picks the flair color of menu entry `i`.
pub fn palette_color(i: usize) -> (r: ratatui::style::Color)
    ensures
        r == spec_palette_color(i as int),
{
    let k = i % 6;
    if k == 0 {
        ratatui::style::Color::LightGreen
    } else if k == 1 {
        ratatui::style::Color::LightCyan
    } else if k == 2 {
        ratatui::style::Color::LightBlue
    } else if k == 3 {
        ratatui::style::Color::LightMagenta
    } else if k == 4 {
        ratatui::style::Color::LightYellow
    } else {
        ratatui::style::Color::LightRed
    }
}

/// Adds in `u32`, then sticks at the largest `u16` value.
fn sat16(a: u32, b: u32) -> (r: u16)
    requires
        a <= u16::MAX,
        b <= 2 * (u16::MAX as u32),
    ensures
        r == if a + b > u16::MAX {
            u16::MAX as int
        } else {
            a + b
        },
{
    let s = a + b;
    if s > 0xFFFF {
        0xFFFF
    } else {
        s as u16
    }
}

/// Draws the start screen: the banner centered in the upper part, and the
/// menu list centered below it, every cell clipped to `area`. The list
/// shows each label uppercased and padded, the cursor's entry marked, each
/// entry in its palette color, bold.
pub fn render_start_screen(
    state: &StartMenuState,
    area: ratatui::layout::Rect,
    buf: &mut ratatui::buffer::Buffer,
    now_ms: u64,
)
    requires
        state.wf(),
        state.animation.paused || now_ms >= state.animation.anchor_ms,
{
    let ascii_width = state.animation.get_width();
    let ascii_height = state.animation.get_height();

    // Uppercase the labels and measure the longest.
    let mut upper: Vec<String> = Vec::new();
    let mut i: usize = 0;
    while i < state.items.len()
        invariant
            upper@.len() == i,
            i <= state.items@.len(),
        decreases state.items@.len() - i,
    {
        upper.push(to_uppercase(state.items[i].0.as_str()));
        i += 1;
    }
    let mut max_len: u16 = 0;
    let mut j: usize = 0;
    while j < upper.len()
        invariant
            j <= upper@.len(),
            max_len <= u16::MAX,
        decreases upper@.len() - j,
    {
        let l = upper[j].as_str().unicode_len();
        if l > max_len as usize {
            max_len = if l > 0xFFFF {
                0xFFFF
            } else {
                l as u16
            };
        }
        j += 1;
    }

    let list_width: u16 = sat16(2, max_len as u32);
    let list_height: u16 = if state.items.len() > 0xFFFF {
        0xFFFF
    } else {
        state.items.len() as u16
    };

    // Center the banner and the list vertically as one block, each centered
    // horizontally on its own.
    let spacing: u32 = 3;
    let total_height: u32 = ascii_height as u32 + spacing + list_height as u32;
    let slack_y: u32 = if (area.height as u32) > total_height {
        area.height as u32 - total_height
    } else {
        0
    };
    let start_y: u16 = sat16(area.y as u32, slack_y / 2);
    let ascii_x: u16 = sat16(
        area.x as u32,
        (if (area.width as u32) > (ascii_width as u32) {
            area.width as u32 - ascii_width as u32
        } else {
            0
        }) / 2,
    );
    let list_x: u16 = sat16(
        area.x as u32,
        (if (area.width as u32) > (list_width as u32) {
            area.width as u32 - list_width as u32
        } else {
            0
        }) / 2,
    );
    let list_y: u16 = sat16(start_y as u32, ascii_height as u32 + spacing);

    let ascii_area = ratatui::layout::Rect {
        x: ascii_x,
        y: start_y,
        width: if ascii_width < area.width {
            ascii_width
        } else {
            area.width
        },
        height: if ascii_height < area.height {
            ascii_height
        } else {
            area.height
        },
    };

    state.animation.render_to_buffer(ascii_area, buf, now_ms);

    // Write the list lines, clipped to the destination area.
    let mut row: usize = 0;
    while row < upper.len()
        invariant
            row <= upper@.len(),
        decreases upper@.len() - row,
    {
        let line = menu_line(&upper[row], row == state.selected_index(), max_len);
        let color = palette_color(row);
        let py: u32 = list_y as u32 + if row > 0xFFFF {
            0x1FFFF
        } else {
            row as u32
        };
        let count = line.as_str().unicode_len();
        let mut col: usize = 0;
        while col < count
            invariant
                count == line@.len(),
                col <= count,
            decreases count - col,
        {
            let px: u32 = list_x as u32 + if col > 0xFFFF {
                0x1FFFF
            } else {
                col as u32
            };
            if px <= 0xFFFF && py <= 0xFFFF {
                let pos = ratatui::layout::Position { x: px as u16, y: py as u16 };
                if area.contains(pos) {
                    write_cell_bold(buf, px as u16, py as u16, line.as_str().get_char(col), color);
                }
            }
            col += 1;
        }
        row += 1;
    }
}

} // verus!
