//! Timing behavior of the procedural animation: continuity across pause and
//! resume, idempotence, dwell, wraparound, and render clipping.

use binbreak::art::{parse_ascii_art, AsciiCells};
use binbreak::anim::AsciiAnimationWidget;
use binbreak::menu::ascii_animation;
use binbreak::procedural::{ColorRule, GlyphRule, ProceduralAnimationWidget};
use binbreak::Progress;
use ratatui::buffer::Buffer;
use ratatui::layout::{Position, Rect};
use ratatui::style::Color;

fn plain(art: &str) -> ProceduralAnimationWidget {
    // 50 frames of 50 ms each: a 2500 ms pass; dwell added per test.
    ProceduralAnimationWidget::new(
        art,
        50,
        50,
        ColorRule::Uniform { color: Color::White },
        0,
    )
}

#[test]
fn progress_is_exact_rational_of_elapsed() {
    let w = plain("X").with_pause_at_end(2000);
    let p = w.get_current_progress(1000);
    assert_eq!(p, Progress { num: 1000, den: 2500 });
}

#[test]
fn pause_freezes_progress() {
    // Reading progress right after pausing gives what was shown just before.
    let mut w = plain("X").with_pause_at_end(2000);
    let before = w.get_current_progress(1234);
    w.pause(1234);
    assert_eq!(w.get_current_progress(1234), before);
    // And the value stays frozen at any later instant.
    assert_eq!(w.get_current_progress(99_999), before);
}

#[test]
fn unpause_restores_progress() {
    let mut w = plain("X").with_pause_at_end(2000);
    w.pause(700);
    let frozen = w.get_current_progress(5000);
    w.unpause(5000);
    assert_eq!(w.get_current_progress(5000), frozen);
}

#[test]
fn pause_twice_equals_pause_once() {
    let mut once = plain("X").with_pause_at_end(2000);
    let mut twice = plain("X").with_pause_at_end(2000);
    once.pause(800);
    twice.pause(800);
    twice.pause(1600);
    assert_eq!(once.get_current_progress(2000), twice.get_current_progress(2000));
    assert_eq!(once.is_paused(), twice.is_paused());
}

#[test]
fn unpause_twice_equals_unpause_once() {
    let mut once = plain("X").with_pause_at_end(2000);
    let mut twice = plain("X").with_pause_at_end(2000);
    once.pause(800);
    twice.pause(800);
    once.unpause(1000);
    twice.unpause(1000);
    twice.unpause(1500);
    assert_eq!(once.get_current_progress(3000), twice.get_current_progress(3000));
    assert_eq!(once.is_paused(), twice.is_paused());
}

#[test]
fn dwell_reads_exactly_one() {
    // anim = 2500 ms, dwell = 2000 ms: elapsed in [2500, 4500) shows 1.0.
    let w = plain("X").with_pause_at_end(2000);
    assert!(w.get_current_progress(2500).is_complete());
    assert!(w.get_current_progress(4499).is_complete());
    // Back to the start of the next cycle.
    assert_eq!(w.get_current_progress(4500), Progress { num: 0, den: 2500 });
}

#[test]
fn progress_below_one_and_monotone_within_pass() {
    let w = plain("X").with_pause_at_end(2000);
    let mut last = 0u64;
    for t in [0u64, 1, 300, 900, 2000, 2499] {
        let p = w.get_current_progress(t);
        assert_eq!(p.num, t);
        assert!(p.num < p.den);
        assert!(p.num >= last);
        last = p.num;
    }
}

#[test]
fn cyclic_wraparound() {
    // total cycle = 4500 ms: progress repeats exactly one cycle later.
    let w = plain("X").with_pause_at_end(2000);
    for x in [0u64, 700, 2499, 2500, 4499] {
        assert_eq!(w.get_current_progress(x), w.get_current_progress(x + 4500));
    }
}

#[test]
fn render_clipping_writes_only_visible_subset() {
    // A 10x5 art rendered into a 3x2 area: exactly the 3x2 subset is drawn.
    let row = "abcdefghij";
    let art = format!("{row}\n{row}\n{row}\n{row}\n{row}");
    let w = plain(&art);
    let area = Rect::new(0, 0, 3, 2);
    let cells = w.frame_cells(area, Progress { num: 0, den: 1 });
    assert_eq!(cells.len(), 6);
    for c in &cells {
        assert!(c.x < 3 && c.y < 2);
    }
    let mut buf = Buffer::empty(Rect::new(0, 0, 10, 5));
    w.render_to_buffer_at_progress(area, &mut buf, Progress { num: 0, den: 1 });
    assert_eq!(buf.cell(Position::new(1, 1)).unwrap().symbol(), "b");
    assert_eq!(buf.cell(Position::new(2, 0)).unwrap().symbol(), "c");
    // Nothing outside the 3x2 subset was touched.
    assert_eq!(buf.cell(Position::new(3, 0)).unwrap().symbol(), " ");
    assert_eq!(buf.cell(Position::new(0, 2)).unwrap().symbol(), " ");
}

#[test]
fn blank_cells_are_skipped() {
    let w = plain("a b");
    let area = Rect::new(0, 0, 3, 1);
    let cells = w.frame_cells(area, Progress { num: 0, den: 1 });
    assert_eq!(cells.len(), 2);
    assert_eq!((cells[0].ch, cells[0].x), ('a', 0));
    assert_eq!((cells[1].ch, cells[1].x), ('b', 2));
}

#[test]
fn banner_strip_shows_binary_digits() {
    // Mid-pass, the diagonal band replaces glyphs with fixed binary digits.
    let w = ascii_animation(0);
    let area = Rect::new(0, 0, 80, 10);
    let cells = w.frame_cells(area, Progress { num: 1, den: 2 });
    assert!(cells.iter().any(|c| c.ch == '0'));
    assert!(cells.iter().any(|c| c.ch == '1'));
    assert!(cells.iter().any(|c| c.color == Color::LightGreen));
    assert!(cells.iter().any(|c| c.color == Color::DarkGray));
}

#[test]
fn parse_ascii_art_maps_colors() {
    let map = vec![('1', Color::Red), ('2', Color::Blue)];
    let cells = parse_ascii_art("ab\ncd", "12\n21", &map, Color::White);
    assert_eq!(cells.len(), 4);
    assert_eq!((cells[0].ch, cells[0].x, cells[0].y, cells[0].color), ('a', 0, 0, Color::Red));
    assert_eq!((cells[1].ch, cells[1].x, cells[1].y, cells[1].color), ('b', 1, 0, Color::Blue));
    assert_eq!((cells[2].ch, cells[2].x, cells[2].y, cells[2].color), ('c', 0, 1, Color::Blue));
    assert_eq!((cells[3].ch, cells[3].x, cells[3].y, cells[3].color), ('d', 1, 1, Color::Red));
}

#[test]
fn parse_unlisted_color_falls_back_to_default() {
    let map = vec![('1', Color::Red)];
    let cells = parse_ascii_art("x", "9", &map, Color::Magenta);
    assert_eq!(cells[0].color, Color::Magenta);
}

#[test]
fn cells_measure_width_and_height() {
    let map: Vec<(char, Color)> = Vec::new();
    let c = AsciiCells::from("abc\nde", "...\n..", &map, Color::White);
    assert_eq!(c.get_width(), 3);
    assert_eq!(c.get_height(), 2);
}

#[test]
fn frame_animation_advances_and_loops() {
    let map: Vec<(char, Color)> = Vec::new();
    let fa = AsciiCells::from("A", ".", &map, Color::White);
    let fb = AsciiCells::from("B", ".", &map, Color::White);
    let anim = AsciiAnimationWidget::new(vec![fa, fb], 100, true, 0);
    let area = Rect::new(0, 0, 1, 1);
    let shown = |t: u64| {
        let mut buf = Buffer::empty(Rect::new(0, 0, 1, 1));
        anim.render_to_buffer(area, &mut buf, t);
        buf.cell(Position::new(0, 0)).unwrap().symbol().to_string()
    };
    assert_eq!(shown(50), "A");
    assert_eq!(shown(150), "B");
    // One full 200 ms cycle later the first frame shows again.
    assert_eq!(shown(250), "A");
}

#[test]
fn one_shot_animation_finishes() {
    let map: Vec<(char, Color)> = Vec::new();
    let fa = AsciiCells::from("A", ".", &map, Color::White);
    let fb = AsciiCells::from("B", ".", &map, Color::White);
    let anim = AsciiAnimationWidget::once(vec![fa, fb], 0);
    assert!(!anim.is_finished(150));
    assert!(anim.is_finished(200));
    let looping = AsciiAnimationWidget::looping(
        vec![AsciiCells::from("A", ".", &Vec::new(), Color::White)],
        0,
    );
    assert!(!looping.is_finished(10_000));
}

#[test]
fn reset_restarts_a_one_shot() {
    let map: Vec<(char, Color)> = Vec::new();
    let fa = AsciiCells::from("A", ".", &map, Color::White);
    let mut anim = AsciiAnimationWidget::once(vec![fa], 0).with_frame_duration(100);
    assert!(anim.is_finished(150));
    anim.reset(150);
    assert!(!anim.is_finished(200));
}

#[test]
fn art_widget_translates_into_offset_area() {
    let map: Vec<(char, Color)> = Vec::new();
    let cells = AsciiCells::from("ab", "..", &map, Color::Cyan);
    let widget = binbreak::art::AsciiArtWidget::new(cells);
    let mut buf = Buffer::empty(Rect::new(0, 0, 8, 4));
    widget.render(Rect::new(2, 1, 3, 2), &mut buf);
    assert_eq!(buf.cell(Position::new(2, 1)).unwrap().symbol(), "a");
    assert_eq!(buf.cell(Position::new(3, 1)).unwrap().symbol(), "b");
    assert_eq!(buf.cell(Position::new(3, 1)).unwrap().style().fg, Some(Color::Cyan));
    assert_eq!(buf.cell(Position::new(0, 0)).unwrap().symbol(), " ");
}

#[test]
fn empty_frame_set_renders_nothing() {
    let anim = AsciiAnimationWidget::looping(Vec::new(), 0);
    assert!(!anim.is_finished(10_000));
    assert_eq!(anim.get_width(), 0);
    assert_eq!(anim.get_height(), 0);
    let mut buf = Buffer::empty(Rect::new(0, 0, 2, 2));
    anim.render_to_buffer(Rect::new(0, 0, 2, 2), &mut buf, 500);
    for y in 0..2u16 {
        for x in 0..2u16 {
            assert_eq!(buf.cell(Position::new(x, y)).unwrap().symbol(), " ");
        }
    }
}

#[test]
fn empty_art_draws_nothing() {
    let w = plain("");
    let cells = w.frame_cells(Rect::new(0, 0, 5, 5), Progress { num: 0, den: 1 });
    assert!(cells.is_empty());
}
