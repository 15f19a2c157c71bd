//! The menu cursor, the key model, the state machine and the scheduler's
//! per-tick decisions.

use binbreak::keys::{is_down, is_exit, is_left, is_right, is_select, is_up, KeyCode, KeyPress};
use binbreak::menu::{menu_line, render_start_screen, Difficulty, StartMenuState};
use binbreak::runtime::{
    apply_key_event, begin_tick, frame_sleep_ms, get_fps_mode, get_last_selected_index, poll_mode,
    poll_timeout_ms, set_last_selected_index, AppState, FpsMode, GameSession, SelectionStore,
};
use binbreak::When;
use ratatui::buffer::Buffer;
use ratatui::layout::{Position, Rect};
use ratatui::style::{Color, Modifier};

fn key(code: KeyCode) -> KeyPress {
    KeyPress { code, ctrl: false }
}

#[test]
fn selection_wraps_both_ways() {
    let mut m = StartMenuState::with_selected(0, 0);
    m.select_previous();
    assert_eq!(m.selected_index(), 6);
    let mut m2 = StartMenuState::with_selected(6, 0);
    m2.select_next();
    assert_eq!(m2.selected_index(), 0);
}

#[test]
fn selection_steps_undo_each_other() {
    let mut m = StartMenuState::with_selected(3, 0);
    m.select_next();
    assert_eq!(m.selected_index(), 4);
    m.select_previous();
    assert_eq!(m.selected_index(), 3);
}

#[test]
fn menu_entries_and_difficulties() {
    let m = StartMenuState::with_selected(0, 0);
    assert_eq!(m.items.len(), 7);
    assert_eq!(m.items[0].0, "easy       (4 bits)");
    assert_eq!(m.items[4].0, "normal     (8 bits)");
    assert_eq!(m.items[0].1, Difficulty { bits: 4, shift: 0 });
    assert_eq!(m.items[3].1, Difficulty { bits: 4, shift: 12 });
    assert_eq!(m.items[6].1, Difficulty { bits: 16, shift: 0 });
    // A saved index past the end is clamped to the last entry.
    assert_eq!(StartMenuState::with_selected(99, 0).selected_index(), 6);
}

#[test]
fn end_to_end_selection_round_trip() {
    // Fresh store -> menu starts at 4; Enter starts a game at that entry's
    // difficulty and saves 4; a later fresh menu starts at 4 again.
    let mut store = SelectionStore::new();
    let m = StartMenuState::new(&store, 0);
    assert_eq!(m.selected_index(), 4);
    let mut app = AppState::Start(m);
    let forward = apply_key_event(&mut app, key(KeyCode::Enter), &mut store, 10);
    assert!(!forward);
    match &app {
        AppState::Playing(g) => assert_eq!(g.difficulty, Difficulty { bits: 8, shift: 0 }),
        _ => panic!("expected the game to start"),
    }
    assert_eq!(get_last_selected_index(&store), 4);
    let again = StartMenuState::new(&store, 20);
    assert_eq!(again.selected_index(), 4);
}

#[test]
fn key_predicates() {
    assert!(is_up(key(KeyCode::Up)) && is_up(key(KeyCode::Char('k'))));
    assert!(is_down(key(KeyCode::Down)) && is_down(key(KeyCode::Char('j'))));
    assert!(is_left(key(KeyCode::Left)) && is_left(key(KeyCode::Char('h'))));
    assert!(is_right(key(KeyCode::Right)) && is_right(key(KeyCode::Char('l'))));
    assert!(is_select(key(KeyCode::Enter)));
    assert!(is_exit(key(KeyCode::Esc)) && is_exit(key(KeyCode::Char('q'))));
    assert!(is_exit(key(KeyCode::Char('Q'))));
    assert!(!is_up(key(KeyCode::Down)) && !is_select(key(KeyCode::Char('x'))));
}

#[test]
fn ctrl_c_exits_from_any_state() {
    let chord = KeyPress { code: KeyCode::Char('c'), ctrl: true };
    let mut store = SelectionStore::new();
    let mut app = AppState::Start(StartMenuState::with_selected(2, 0));
    assert!(!apply_key_event(&mut app, chord, &mut store, 5));
    assert!(matches!(app, AppState::Exit));
    let mut playing = AppState::Playing(GameSession::new(Difficulty { bits: 4, shift: 0 }));
    apply_key_event(&mut playing, chord, &mut store, 5);
    assert!(matches!(playing, AppState::Exit));
}

#[test]
fn playing_forwards_keys_to_the_game() {
    let mut store = SelectionStore::new();
    let mut app = AppState::Playing(GameSession::new(Difficulty { bits: 8, shift: 0 }));
    assert!(apply_key_event(&mut app, key(KeyCode::Char('5')), &mut store, 5));
    assert!(matches!(app, AppState::Playing(_)));
}

#[test]
fn escape_leaves_and_a_toggles() {
    let mut store = SelectionStore::new();
    let mut app = AppState::Start(StartMenuState::with_selected(1, 0));
    assert!(!apply_key_event(&mut app, key(KeyCode::Char('a')), &mut store, 5));
    match &app {
        AppState::Start(m) => assert!(m.animation.is_paused()),
        _ => panic!("still in the menu"),
    }
    apply_key_event(&mut app, key(KeyCode::Esc), &mut store, 6);
    assert!(matches!(app, AppState::Exit));
}

#[test]
fn enter_does_not_resume_a_paused_banner() {
    // Confirming while the banner is paused leaves it paused.
    let mut store = SelectionStore::new();
    let mut m = StartMenuState::with_selected(1, 0);
    m.toggle_animation(5);
    assert!(m.animation.is_paused());
    let next = binbreak::runtime::handle_start_input(&mut m, key(KeyCode::Enter), &mut store, 6);
    assert!(next.is_some());
    assert!(m.animation.is_paused());
    assert_eq!(get_last_selected_index(&store), 1);
}

#[test]
fn fps_mode_follows_game_and_banner() {
    let mut g = GameSession::new(Difficulty { bits: 4, shift: 0 });
    assert_eq!(get_fps_mode(&g), FpsMode::Performance);
    g.active = true;
    assert_eq!(get_fps_mode(&g), FpsMode::RealTime);
    assert_eq!(poll_mode(&AppState::Playing(g)), Some(FpsMode::RealTime));
    let m = StartMenuState::with_selected(0, 0);
    assert_eq!(poll_mode(&AppState::Start(m)), Some(FpsMode::RealTime));
    let mut paused = StartMenuState::with_selected(0, 0);
    paused.toggle_animation(0);
    assert_eq!(poll_mode(&AppState::Start(paused)), Some(FpsMode::Performance));
    assert_eq!(poll_mode(&AppState::Exit), None);
}

#[test]
fn begin_tick_syncs_and_returns_to_menu() {
    let mut store = SelectionStore::new();
    set_last_selected_index(&mut store, 2);
    let mut app = AppState::Playing(GameSession::new(Difficulty { bits: 12, shift: 0 }));
    assert!(!begin_tick(&mut app, true, false, &store, 100));
    match &app {
        AppState::Playing(g) => assert!(g.active && !g.exit_intended),
        _ => panic!("still playing"),
    }
    assert!(begin_tick(&mut app, false, true, &store, 200));
    match &app {
        AppState::Start(m) => assert_eq!(m.selected_index(), 2),
        _ => panic!("back at the menu"),
    }
}

#[test]
fn tick_cadence_arithmetic() {
    assert_eq!(poll_timeout_ms(10, 33), 10);
    assert_eq!(poll_timeout_ms(50, 33), 33);
    assert_eq!(frame_sleep_ms(10, 33), 23);
    assert_eq!(frame_sleep_ms(40, 33), 0);
    assert_eq!(frame_sleep_ms(33, 33), 0);
}

#[test]
fn menu_line_marks_and_pads() {
    let label = String::from("easy");
    assert_eq!(menu_line(&label, true, 6), "\u{bb} easy  ");
    assert_eq!(menu_line(&label, false, 6), "  easy  ");
    assert_eq!(menu_line(&label, false, 2), "  easy");
}

#[test]
fn start_screen_shows_uppercased_bold_entries() {
    let state = StartMenuState::with_selected(0, 0);
    let area = Rect::new(0, 0, 80, 30);
    let mut buf = Buffer::empty(area);
    render_start_screen(&state, area, &mut buf, 0);
    let mut rows: Vec<String> = Vec::new();
    for y in 0..30u16 {
        let mut line = String::new();
        for x in 0..80u16 {
            line.push_str(buf.cell(Position::new(x, y)).unwrap().symbol());
        }
        rows.push(line);
    }
    let marker_row = rows
        .iter()
        .position(|r| r.contains('\u{bb}'))
        .expect("the cursor marker is drawn");
    assert!(rows[marker_row].contains("EASY       (4 BITS)"));
    assert!(rows.iter().any(|r| r.contains("NORMAL     (8 BITS)")));
    // The first entry is drawn in the first palette color, bold.
    let x = rows[marker_row].find("EASY").unwrap() as u16;
    let cell = buf.cell(Position::new(x, marker_row as u16)).unwrap();
    assert_eq!(cell.style().fg, Some(Color::LightGreen));
    assert!(cell.style().add_modifier.contains(Modifier::BOLD));
    // The banner is drawn above the list.
    assert!(rows[..marker_row].iter().any(|r| r.contains("MM")));
}

#[test]
fn when_applies_action_only_under_condition() {
    let grown: u64 = 5u64.when(true, |x| x + 1);
    assert_eq!(grown, 6);
    let kept: u64 = 5u64.when(false, |x| x + 1);
    assert_eq!(kept, 5);
}
