//! The application state machine and the frame scheduler's decisions: how
//! one key press moves the application between the start menu, the running
//! game and exit, and how each tick picks its polling discipline, its poll
//! timeout and its end-of-tick sleep.
//!
//! The loop itself — reading events, drawing, sleeping — lives outside;
//! everything it decides is computed here.

use vstd::prelude::*;
use crate::keys::KeyCode;
use crate::keys::KeyPress;
use crate::keys::spec_is_up;
use crate::keys::spec_is_down;
use crate::keys::spec_is_select;
use crate::keys::spec_is_exit;
use crate::keys::is_up;
use crate::keys::is_down;
use crate::keys::is_select;
use crate::keys::is_exit;
use crate::menu::Difficulty;
use crate::menu::StartMenuState;
use crate::menu::is_fresh_menu;

verus! {

/// The process-wide "last selected menu entry", handed down explicitly to
/// whoever needs it; a single writer (the key dispatcher, on confirmation)
/// updates it.
pub struct SelectionStore {
    pub last_selected_index: usize,
}

impl SelectionStore {
    /// A fresh store, holding the default entry.
    pub fn new() -> (r: Self)
        ensures
            r.last_selected_index == 4,
    {
        SelectionStore { last_selected_index: 4 }
    }
}

impl Default for SelectionStore {
    /// The default store holds the default entry.
    fn default() -> (r: Self)
        ensures
            r.last_selected_index == 4,
    {
        SelectionStore { last_selected_index: 4 }
    }
}

/// Reads the saved selection.
pub fn get_last_selected_index(store: &SelectionStore) -> (r: usize)
    ensures
        r == store.last_selected_index,
{
    store.last_selected_index
}

/// Saves a selection.
pub fn set_last_selected_index(store: &mut SelectionStore, index: usize)
    ensures
        final(store).last_selected_index == index,
{
    store.last_selected_index = index;
}

/// The scheduler's polling discipline for one tick.
#[derive(Clone, Copy, Debug, PartialEq, Eq, Structural)]
pub enum FpsMode {
    /// Poll with a bounded timeout so the display refreshes on a steady
    /// cadence even without input.
    RealTime,
    /// Block indefinitely for input, consuming no CPU while idle.
    Performance,
}

/// What the scheduler reads of the running game: its difficulty and the
/// two signals the external game reports each tick.
#[derive(Clone, Copy, Debug, PartialEq, Eq, Structural)]
pub struct GameSession {
    pub difficulty: Difficulty,
    pub active: bool,
    pub exit_intended: bool,
}

impl GameSession {
    /// A session for a freshly started game; both signals are unknown until
    /// the first tick syncs them, and start pessimistically cleared.
    pub fn new(difficulty: Difficulty) -> (r: Self)
        ensures
            r == (GameSession { difficulty, active: false, exit_intended: false }),
    {
        GameSession { difficulty, active: false, exit_intended: false }
    }

    /// Whether the game's internal timer is running.
    pub fn is_active(&self) -> (r: bool)
        ensures
            r == self.active,
    {
        self.active
    }

    /// Whether the game asks to leave to the menu.
    pub fn is_exit_intended(&self) -> (r: bool)
        ensures
            r == self.exit_intended,
    {
        self.exit_intended
    }
}

/// The application: the start menu, the running game, or shutting down.
/// Exactly one variant is alive; every transition replaces the whole value.
pub enum AppState {
    Start(StartMenuState),
    Playing(GameSession),
    Exit,
}

/// Whether the state's menu, if any, is well formed.
pub open spec fn app_wf(s: AppState) -> bool {
    match s {
        AppState::Start(m) => m.wf(),
        _ => true,
    }
}

/// Whether `now` is not before the menu animation's anchor (vacuous in the
/// other states, where no animation runs).
pub open spec fn app_time_ok(s: AppState, now: u64) -> bool {
    match s {
        AppState::Start(m) => m.animation.paused || now >= m.animation.anchor_ms,
        _ => true,
    }
}

/// A control-modified `c`, the global exit chord.
pub open spec fn spec_is_ctrl_c(key: KeyPress) -> bool {
    key.ctrl && (key.code == KeyCode::Char('c') || key.code == KeyCode::Char('C'))
}

/// The outcome of one key on the start menu: the menu afterwards, the
/// state to switch to if any, and whether the selection is saved. Up and
/// down move the cursor with wraparound; confirming saves the cursor and
/// starts a game at the selected difficulty; the exit keys leave; `a`
/// toggles the banner animation; anything else does nothing.
pub open spec fn spec_start_input(m: StartMenuState, key: KeyPress, now: u64) -> (
    StartMenuState,
    Option<AppState>,
    bool,
) {
    if spec_is_up(key) {
        (m.select_previous_spec(), None, false)
    } else if spec_is_down(key) {
        (m.select_next_spec(), None, false)
    } else if spec_is_select(key) {
        (
            m,
            Some(
                AppState::Playing(
                    GameSession {
                        difficulty: m.items@[m.selected as int].1,
                        active: false,
                        exit_intended: false,
                    },
                ),
            ),
            true,
        )
    } else if spec_is_exit(key) {
        (m, Some(AppState::Exit), false)
    } else if key.code == KeyCode::Char('a') || key.code == KeyCode::Char('A') {
        (
            StartMenuState {
                animation: if m.animation.paused {
                    m.animation.unpause_spec(now)
                } else {
                    m.animation.pause_spec(now)
                },
                ..m
            },
            None,
            false,
        )
    } else {
        (m, None, false)
    }
}

/// Applies one key to the start menu: moves the cursor, toggles the
/// banner, or hands back the state to switch to; on confirmation the
/// cursor is saved into the store first.
pub fn handle_start_input(
    state: &mut StartMenuState,
    key: KeyPress,
    store: &mut SelectionStore,
    now_ms: u64,
) -> (r: Option<AppState>)
    requires
        old(state).wf(),
        old(state).animation.paused || now_ms >= old(state).animation.anchor_ms,
    ensures
        ({
            let step = spec_start_input(*old(state), key, now_ms);
            &&& *final(state) == step.0
            &&& r == step.1
            &&& *final(store) == (if step.2 {
                SelectionStore { last_selected_index: old(state).selected }
            } else {
                *old(store)
            })
        }),
        final(state).wf(),
{
    if is_up(key) {
        state.select_previous();
        None
    } else if is_down(key) {
        state.select_next();
        None
    } else if is_select(key) {
        let bits = state.selected_bits();
        set_last_selected_index(store, state.selected_index());
        Some(AppState::Playing(GameSession::new(bits)))
    } else if is_exit(key) {
        Some(AppState::Exit)
    } else if matches!(key.code, KeyCode::Char('a' | 'A')) {
        state.toggle_animation(now_ms);
        None
    } else {
        None
    }
}

/// Applies one key press to the whole application. A control-modified `c`
/// exits from any state; in the menu the key is dispatched to
/// [`handle_start_input`]; while playing nothing changes here and the key
/// is to be forwarded to the game (the returned flag); when exiting, keys
/// are ignored.
pub fn apply_key_event(
    app_state: &mut AppState,
    key: KeyPress,
    store: &mut SelectionStore,
    now_ms: u64,
) -> (forward: bool)
    requires
        app_wf(*old(app_state)),
        app_time_ok(*old(app_state), now_ms),
    ensures
        app_wf(*final(app_state)),
        spec_is_ctrl_c(key) ==> *final(app_state) == AppState::Exit && !forward && *final(store)
            == *old(store),
        !spec_is_ctrl_c(key) ==> match *old(app_state) {
            AppState::Exit => *final(app_state) == AppState::Exit && !forward && *final(store)
                == *old(store),
            AppState::Playing(g) => *final(app_state) == AppState::Playing(g) && forward
                && *final(store) == *old(store),
            AppState::Start(m) => {
                let step = spec_start_input(m, key, now_ms);
                &&& !forward
                &&& *final(app_state) == (match step.1 {
                    Option::Some(next) => next,
                    Option::None => AppState::Start(step.0),
                })
                &&& *final(store) == (if step.2 {
                    SelectionStore { last_selected_index: m.selected }
                } else {
                    *old(store)
                })
            },
        },
{
    if key.ctrl && matches!(key.code, KeyCode::Char('c' | 'C')) {
        *app_state = AppState::Exit;
        return false;
    }
    match app_state {
        AppState::Start(menu) => {
            let next = handle_start_input(menu, key, store, now_ms);
            if let Some(n) = next {
                *app_state = n;
            }
            false
        },
        AppState::Playing(_) => true,
        AppState::Exit => false,
    }
}

/// The polling discipline while a game runs: steady redraws while its
/// timer is active, otherwise block for input.
pub fn get_fps_mode(game: &GameSession) -> (r: FpsMode)
    ensures
        r == (if game.active {
            FpsMode::RealTime
        } else {
            FpsMode::Performance
        }),
{
    if game.is_active() {
        FpsMode::RealTime
    } else {
        FpsMode::Performance
    }
}

/// The polling discipline for the current state, or nothing when the
/// application is exiting: steady redraws while the game's timer runs or
/// the menu banner animates, otherwise block for input.
pub open spec fn spec_poll_mode(s: AppState) -> Option<FpsMode> {
    match s {
        AppState::Playing(g) => Some(
            if g.active {
                FpsMode::RealTime
            } else {
                FpsMode::Performance
            },
        ),
        AppState::Start(m) => Some(
            if !m.animation.paused {
                FpsMode::RealTime
            } else {
                FpsMode::Performance
            },
        ),
        AppState::Exit => None,
    }
}

/// Picks the tick's polling discipline.
pub fn poll_mode(app_state: &AppState) -> (r: Option<FpsMode>)
    ensures
        r == spec_poll_mode(*app_state),
{
    match app_state {
        AppState::Playing(g) => Some(get_fps_mode(g)),
        AppState::Start(m) => {
            if !m.animation.is_paused() {
                Some(FpsMode::RealTime)
            } else {
                Some(FpsMode::Performance)
            }
        },
        AppState::Exit => None,
    }
}

/// Begins a tick: syncs the game's two signals into the session and, when
/// the game asks to leave, replaces it with a fresh start menu seeded from
/// the saved selection. Returns whether that reset happened (the tick then
/// restarts). States other than a running game are untouched.
pub fn begin_tick(
    app_state: &mut AppState,
    game_active: bool,
    game_exit_intended: bool,
    store: &SelectionStore,
    now_ms: u64,
) -> (reset: bool)
    requires
        app_wf(*old(app_state)),
    ensures
        app_wf(*final(app_state)),
        match *old(app_state) {
            AppState::Playing(g) => {
                if game_exit_intended {
                    &&& reset
                    &&& match *final(app_state) {
                        AppState::Start(m) => is_fresh_menu(m, store.last_selected_index, now_ms),
                        _ => false,
                    }
                } else {
                    &&& !reset
                    &&& *final(app_state) == AppState::Playing(
                        GameSession {
                            difficulty: g.difficulty,
                            active: game_active,
                            exit_intended: game_exit_intended,
                        },
                    )
                }
            },
            _ => *final(app_state) == *old(app_state) && !reset,
        },
{
    match app_state {
        AppState::Playing(g) => {
            g.active = game_active;
            g.exit_intended = game_exit_intended;
            if game_exit_intended {
                let idx = get_last_selected_index(store);
                *app_state = AppState::Start(StartMenuState::with_selected(idx, now_ms));
                true
            } else {
                false
            }
        },
        _ => false,
    }
}

/// The bounded poll timeout in the steady-redraw discipline: the time
/// already spent since the last frame, capped at the frame budget.
pub fn poll_timeout_ms(dt_ms: u64, target_frame_ms: u64) -> (r: u64)
    ensures
        r == (if dt_ms < target_frame_ms {
            dt_ms as int
        } else {
            target_frame_ms as int
        }),
{
    if dt_ms < target_frame_ms {
        dt_ms
    } else {
        target_frame_ms
    }
}

/// How long to sleep at the end of a tick to hold the frame cadence:
/// whatever is left of the frame budget, or nothing when the tick already
/// overran it.
pub fn frame_sleep_ms(frame_elapsed_ms: u64, target_frame_ms: u64) -> (r: u64)
    ensures
        r == (if frame_elapsed_ms < target_frame_ms {
            target_frame_ms - frame_elapsed_ms
        } else {
            0
        }),
{
    if frame_elapsed_ms < target_frame_ms {
        target_frame_ms - frame_elapsed_ms
    } else {
        0
    }
}

} // verus!
