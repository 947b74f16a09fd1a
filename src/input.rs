//! Key events and the mode machine that interprets them.
use vstd::prelude::*;
use crate::app::{App, AppMode, AppView, Screen};
use crate::nav::{highlight_after_down, move_down, move_up, step_down, step_up, ListCursor};
use crate::text::{drop_last_char, pop_char, push_char};

verus! {

/// How key presses are read: as commands, as text, or as selection moves.
#[derive(Clone, Copy, Debug, PartialEq, Eq, Structural)]
pub enum EditorMode {
    Normal,
    Insert,
    Visual,
}

/// The keys the mode machine tells apart; every other key is `Other`.
#[derive(Clone, Copy, Debug, PartialEq, Eq, Structural)]
pub enum KeyCode {
    Char(char),
    Enter,
    Esc,
    Backspace,
    Up,
    Down,
    Other,
}

/// One terminal event: a key press, or anything else (resize, mouse, focus,
/// key release), which carries no meaning here.
#[derive(Clone, Copy, Debug, PartialEq, Eq, Structural)]
pub enum Event {
    Key(KeyCode),
    Other,
}

/// The outside work a key press asks for. After `RefreshSessions`,
/// `CreateSession` or `DeleteSession` has been carried out, the caller lists
/// the sessions again and hands them to `App::refresh_sessions`.
pub enum Action {
    Nothing,
    Quit,
    RefreshSessions,
    /// Create a session of this name, from this template if one was chosen.
    CreateSession { name: String, template: Option<String> },
    DeleteSession { name: String },
}

/// An `Action` as mathematical values.
pub enum ActionView {
    Nothing,
    Quit,
    RefreshSessions,
    CreateSession { name: Seq<char>, template: Option<Seq<char>> },
    DeleteSession { name: Seq<char> },
}

impl View for Action {
    type V = ActionView;

    open spec fn view(&self) -> ActionView {
        match self {
            Action::Nothing => ActionView::Nothing,
            Action::Quit => ActionView::Quit,
            Action::RefreshSessions => ActionView::RefreshSessions,
            Action::CreateSession { name, template } => ActionView::CreateSession {
                name: name@,
                template: match template {
                    Some(t) => Some(t@),
                    None => None,
                },
            },
            Action::DeleteSession { name } => ActionView::DeleteSession { name: name@ },
        }
    }
}

impl Action {
    /// Whether this action ends the program.
    pub fn is_quit(&self) -> (r: bool)
        ensures
            r == (self@ is Quit),
    {
        match self {
            Action::Quit => true,
            _ => false,
        }
    }
}

pub open spec fn is_char(k: KeyCode, c: char) -> bool {
    k == KeyCode::Char(c)
}

pub open spec fn is_down_key(k: KeyCode) -> bool {
    is_char(k, 'j') || k == KeyCode::Down
}

pub open spec fn is_up_key(k: KeyCode) -> bool {
    is_char(k, 'k') || k == KeyCode::Up
}

pub open spec fn is_enter_key(k: KeyCode) -> bool {
    k == KeyCode::Enter || is_char(k, 'l')
}

pub open spec fn is_back_key(k: KeyCode) -> bool {
    k == KeyCode::Esc || is_char(k, 'h')
}

/// The state after moving the session selection down in the filtered list.
pub open spec fn sessions_down(s: AppView) -> AppView {
    let len = s.filtered_sessions().len();
    AppView {
        session_selected: step_down(s.session_selected, len),
        session_list_state: ListCursor { selected: highlight_after_down(s.session_selected, len) },
        ..s
    }
}

/// The state after moving the session selection up in the filtered list.
pub open spec fn sessions_up(s: AppView) -> AppView {
    AppView {
        session_selected: step_up(s.session_selected),
        session_list_state: ListCursor { selected: Some(step_up(s.session_selected) as usize) },
        ..s
    }
}

/// What a key does in normal mode.
pub open spec fn normal_next(s: AppView, k: KeyCode) -> (AppView, ActionView) {
    let none = ActionView::Nothing;
    match s.mode {
        Screen::MainMenu => if is_char(k, 'q') {
            (s, ActionView::Quit)
        } else if is_char(k, 'i') {
            (AppView { editor_mode: EditorMode::Insert, ..s }, none)
        } else if is_char(k, 'v') {
            (AppView { editor_mode: EditorMode::Visual, ..s }, none)
        } else if is_down_key(k) {
            let len = s.main_menu_items.len();
            (
                AppView {
                    main_menu_selected: step_down(s.main_menu_selected, len),
                    main_list_state: ListCursor {
                        selected: highlight_after_down(s.main_menu_selected, len),
                    },
                    ..s
                },
                none,
            )
        } else if is_up_key(k) {
            (
                AppView {
                    main_menu_selected: step_up(s.main_menu_selected),
                    main_list_state: ListCursor {
                        selected: Some(step_up(s.main_menu_selected) as usize),
                    },
                    ..s
                },
                none,
            )
        } else if is_enter_key(k) {
            if s.main_menu_selected == 0 {
                (AppView { mode: Screen::CreateSession, ..s }, none)
            } else if s.main_menu_selected == 1 {
                (AppView { mode: Screen::ListSessions, ..s }, ActionView::RefreshSessions)
            } else if s.main_menu_selected == 2 {
                (s, ActionView::Quit)
            } else {
                (s, none)
            }
        } else {
            (s, none)
        },
        Screen::ListSessions => if is_back_key(k) || is_char(k, 'q') {
            (AppView { mode: Screen::MainMenu, ..s }, none)
        } else if is_char(k, 'i') {
            (AppView { editor_mode: EditorMode::Insert, ..s }, none)
        } else if is_char(k, 'v') {
            (AppView { editor_mode: EditorMode::Visual, ..s }, none)
        } else if is_down_key(k) {
            (sessions_down(s), none)
        } else if is_up_key(k) {
            (sessions_up(s), none)
        } else if is_enter_key(k) && s.session_selected < s.filtered_sessions().len() {
            (
                AppView {
                    mode: Screen::SessionActionMenu(s.filtered_sessions()[s.session_selected as int]),
                    ..s
                },
                none,
            )
        } else {
            (s, none)
        },
        Screen::CreateSession => if is_back_key(k) {
            (AppView { mode: Screen::MainMenu, ..s }, none)
        } else if is_char(k, 'i') {
            (AppView { editor_mode: EditorMode::Insert, ..s }, none)
        } else if is_down_key(k) {
            let len = s.templates.len();
            (
                AppView {
                    template_selected: step_down(s.template_selected, len),
                    template_list_state: ListCursor {
                        selected: highlight_after_down(s.template_selected, len),
                    },
                    ..s
                },
                none,
            )
        } else if is_up_key(k) {
            (
                AppView {
                    template_selected: step_up(s.template_selected),
                    template_list_state: ListCursor {
                        selected: Some(step_up(s.template_selected) as usize),
                    },
                    ..s
                },
                none,
            )
        } else if is_enter_key(k) {
            let template = if s.template_selected < s.templates.len() {
                Some(s.templates[s.template_selected as int])
            } else {
                None
            };
            (
                AppView { mode: Screen::MainMenu, input_buffer: Seq::empty(), ..s },
                ActionView::CreateSession { name: s.input_buffer, template },
            )
        } else {
            (s, none)
        },
        Screen::SessionActionMenu(_) => if is_back_key(k) {
            (AppView { mode: Screen::ListSessions, ..s }, none)
        } else if is_down_key(k) {
            let len = s.session_actions.len();
            (
                AppView {
                    session_action_selected: step_down(s.session_action_selected, len),
                    session_action_list_state: ListCursor {
                        selected: highlight_after_down(s.session_action_selected, len),
                    },
                    ..s
                },
                none,
            )
        } else if is_up_key(k) {
            (
                AppView {
                    session_action_selected: step_up(s.session_action_selected),
                    session_action_list_state: ListCursor {
                        selected: Some(step_up(s.session_action_selected) as usize),
                    },
                    ..s
                },
                none,
            )
        } else {
            (s, none)
        },
    }
}

/// A text buffer after one key in insert mode: a character is appended,
/// Backspace removes the last character, every other key leaves it alone.
pub open spec fn edit_text(buffer: Seq<char>, k: KeyCode) -> Seq<char> {
    match k {
        KeyCode::Char(c) => buffer.push(c),
        KeyCode::Backspace => drop_last_char(buffer),
        _ => buffer,
    }
}

/// What a key does in insert mode: Esc returns to normal mode; on the
/// session list the key edits the search query (and the selection is brought
/// back into the newly filtered list), on the create screen it edits the new
/// session's name; elsewhere it does nothing.
pub open spec fn insert_next(s: AppView, k: KeyCode) -> AppView {
    match s.mode {
        Screen::ListSessions => if k == KeyCode::Esc {
            AppView { editor_mode: EditorMode::Normal, ..s }
        } else if k is Char || k is Backspace {
            AppView { search_query: edit_text(s.search_query, k), ..s }.with_sessions_clamped()
        } else {
            s
        },
        Screen::CreateSession => if k == KeyCode::Esc {
            AppView { editor_mode: EditorMode::Normal, ..s }
        } else {
            AppView { input_buffer: edit_text(s.input_buffer, k), ..s }
        },
        _ => s,
    }
}

/// What a key does in visual mode: only the session list reacts. Esc
/// returns to normal mode, the movement keys move as in normal mode, and `x`
/// asks to delete the selected session of the filtered list.
pub open spec fn visual_next(s: AppView, k: KeyCode) -> (AppView, ActionView) {
    let none = ActionView::Nothing;
    match s.mode {
        Screen::ListSessions => if k == KeyCode::Esc {
            (AppView { editor_mode: EditorMode::Normal, ..s }, none)
        } else if is_down_key(k) {
            (sessions_down(s), none)
        } else if is_up_key(k) {
            (sessions_up(s), none)
        } else if is_char(k, 'x') && s.session_selected < s.filtered_sessions().len() {
            (s, ActionView::DeleteSession { name: s.filtered_sessions()[s.session_selected as int] })
        } else {
            (s, none)
        },
        _ => (s, none),
    }
}

/// The state and action that follow one event.
pub open spec fn next(s: AppView, e: Event) -> (AppView, ActionView) {
    match e {
        Event::Key(k) => match s.editor_mode {
            EditorMode::Normal => normal_next(s, k),
            EditorMode::Insert => (insert_next(s, k), ActionView::Nothing),
            EditorMode::Visual => visual_next(s, k),
        },
        Event::Other => (s, ActionView::Nothing),
    }
}

/// The state after a sequence of events, each handled in turn.
pub open spec fn run(s: AppView, events: Seq<Event>) -> AppView
    decreases events.len(),
{
    if events.len() == 0 {
        s
    } else {
        run(next(s, events[0]).0, events.drop_first())
    }
}

/// Enter insert mode, type "abc", then press Backspace three times.
pub open spec fn type_abc_then_erase() -> Seq<Event> {
    seq![
        Event::Key(KeyCode::Char('i')),
        Event::Key(KeyCode::Char('a')),
        Event::Key(KeyCode::Char('b')),
        Event::Key(KeyCode::Char('c')),
        Event::Key(KeyCode::Backspace),
        Event::Key(KeyCode::Backspace),
        Event::Key(KeyCode::Backspace),
    ]
}

/// Typing "abc" in insert mode and erasing it with three Backspaces gives the
/// edited text back unchanged: the new session's name on the create screen
/// (where nothing else changes but the editor mode), the search query on the
/// session list.
pub proof fn lemma_insert_round_trip(s: AppView)
    requires
        s.editor_mode == EditorMode::Normal,
        s.mode == Screen::CreateSession || s.mode == Screen::ListSessions,
    ensures
        run(s, type_abc_then_erase()).mode == s.mode,
        run(s, type_abc_then_erase()).editor_mode == EditorMode::Insert,
        run(s, type_abc_then_erase()).input_buffer == s.input_buffer,
        run(s, type_abc_then_erase()).search_query == s.search_query,
        s.mode == Screen::CreateSession ==> run(s, type_abc_then_erase()) == (AppView {
            editor_mode: EditorMode::Insert,
            ..s
        }),
{
    let ev = type_abc_then_erase();
    let s1 = next(s, ev[0]).0;
    let s2 = next(s1, ev[1]).0;
    let s3 = next(s2, ev[2]).0;
    let s4 = next(s3, ev[3]).0;
    let s5 = next(s4, ev[4]).0;
    let s6 = next(s5, ev[5]).0;
    let s7 = next(s6, ev[6]).0;
    assert(s7.input_buffer == s.input_buffer);
    assert(s7.search_query == s.search_query);
    assert(run(s7, ev.skip(7)) == s7);
    assert(ev.skip(6).drop_first() == ev.skip(7));
    assert(ev.skip(5).drop_first() == ev.skip(6));
    assert(ev.skip(4).drop_first() == ev.skip(5));
    assert(ev.skip(3).drop_first() == ev.skip(4));
    assert(ev.skip(2).drop_first() == ev.skip(3));
    assert(ev.skip(1).drop_first() == ev.skip(2));
    assert(ev.drop_first() == ev.skip(1));
    assert(run(s6, ev.skip(6)) == s7);
    assert(run(s5, ev.skip(5)) == s7);
    assert(run(s4, ev.skip(4)) == s7);
    assert(run(s3, ev.skip(3)) == s7);
    assert(run(s2, ev.skip(2)) == s7);
    assert(run(s1, ev.skip(1)) == s7);
    assert(run(s, ev) == s7);
}

/// On the session list in normal mode, `q`, Esc and `h` always return to the
/// main menu and ask for nothing; the search query, the selection and
/// everything else are kept as they were.
pub proof fn lemma_back_to_main_menu(s: AppView, k: KeyCode)
    requires
        s.mode == Screen::ListSessions,
        s.editor_mode == EditorMode::Normal,
        k == KeyCode::Char('q') || k == KeyCode::Esc || k == KeyCode::Char('h'),
    ensures
        next(s, Event::Key(k)) == (AppView { mode: Screen::MainMenu, ..s }, ActionView::Nothing),
{
}

/// Handles one event: updates the state and returns the outside work to do.
/// Only key presses do anything; they are read according to the editor mode.
pub fn handle_input(event: Event, app: &mut App) -> (r: Action)
    ensures
        (final(app)@, r@) == next(old(app)@, event),
{
    match event {
        Event::Key(code) => match app.editor_mode {
            EditorMode::Normal => handle_normal_mode(code, app),
            EditorMode::Insert => {
                handle_insert_mode(code, app);
                Action::Nothing
            },
            EditorMode::Visual => handle_visual_mode(code, app),
        },
        Event::Other => Action::Nothing,
    }
}

fn handle_normal_mode(code: KeyCode, app: &mut App) -> (r: Action)
    ensures
        (final(app)@, r@) == normal_next(old(app)@, code),
{
    match app.mode {
        AppMode::MainMenu => main_menu_key(code, app),
        AppMode::ListSessions => {
            list_sessions_key(code, app);
            Action::Nothing
        },
        AppMode::CreateSession => create_session_key(code, app),
        AppMode::SessionActionMenu(_) => {
            session_action_key(code, app);
            Action::Nothing
        },
    }
}

fn main_menu_key(code: KeyCode, app: &mut App) -> (r: Action)
    requires
        old(app)@.mode == Screen::MainMenu,
    ensures
        (final(app)@, r@) == normal_next(old(app)@, code),
{
    match code {
        KeyCode::Char('q') => Action::Quit,
        KeyCode::Char('i') => {
            app.editor_mode = EditorMode::Insert;
            Action::Nothing
        },
        KeyCode::Char('v') => {
            app.editor_mode = EditorMode::Visual;
            Action::Nothing
        },
        KeyCode::Char('j') | KeyCode::Down => {
            let len = app.main_menu_items.len();
            move_down(&mut app.main_menu_selected, len, &mut app.main_list_state);
            Action::Nothing
        },
        KeyCode::Char('k') | KeyCode::Up => {
            let len = app.main_menu_items.len();
            move_up(&mut app.main_menu_selected, len, &mut app.main_list_state);
            Action::Nothing
        },
        KeyCode::Enter | KeyCode::Char('l') => {
            if app.main_menu_selected == 0 {
                app.mode = AppMode::CreateSession;
                Action::Nothing
            } else if app.main_menu_selected == 1 {
                app.mode = AppMode::ListSessions;
                Action::RefreshSessions
            } else if app.main_menu_selected == 2 {
                Action::Quit
            } else {
                Action::Nothing
            }
        },
        _ => Action::Nothing,
    }
}

fn list_sessions_key(code: KeyCode, app: &mut App)
    requires
        old(app)@.mode == Screen::ListSessions,
    ensures
        (final(app)@, ActionView::Nothing) == normal_next(old(app)@, code),
{
    match code {
        KeyCode::Char('q') | KeyCode::Esc | KeyCode::Char('h') => {
            app.mode = AppMode::MainMenu;
        },
        KeyCode::Char('i') => {
            app.editor_mode = EditorMode::Insert;
        },
        KeyCode::Char('v') => {
            app.editor_mode = EditorMode::Visual;
        },
        KeyCode::Char('j') | KeyCode::Down => {
            let len = app.filtered_sessions().len();
            move_down(&mut app.session_selected, len, &mut app.session_list_state);
        },
        KeyCode::Char('k') | KeyCode::Up => {
            let len = app.filtered_sessions().len();
            move_up(&mut app.session_selected, len, &mut app.session_list_state);
        },
        KeyCode::Enter | KeyCode::Char('l') => {
            let filtered = app.filtered_sessions();
            if app.session_selected < filtered.len() {
                app.mode = AppMode::SessionActionMenu(filtered[app.session_selected].clone());
            }
        },
        _ => {},
    }
}

fn create_session_key(code: KeyCode, app: &mut App) -> (r: Action)
    requires
        old(app)@.mode == Screen::CreateSession,
    ensures
        (final(app)@, r@) == normal_next(old(app)@, code),
{
    match code {
        KeyCode::Esc | KeyCode::Char('h') => {
            app.mode = AppMode::MainMenu;
            Action::Nothing
        },
        KeyCode::Char('i') => {
            app.editor_mode = EditorMode::Insert;
            Action::Nothing
        },
        KeyCode::Char('j') | KeyCode::Down => {
            let len = app.templates.len();
            move_down(&mut app.template_selected, len, &mut app.template_list_state);
            Action::Nothing
        },
        KeyCode::Char('k') | KeyCode::Up => {
            let len = app.templates.len();
            move_up(&mut app.template_selected, len, &mut app.template_list_state);
            Action::Nothing
        },
        KeyCode::Enter | KeyCode::Char('l') => {
            let name = app.input_buffer.clone();
            let template = if app.template_selected < app.templates.len() {
                Some(app.templates[app.template_selected].clone())
            } else {
                None
            };
            app.input_buffer = String::new();
            app.mode = AppMode::MainMenu;
            Action::CreateSession { name, template }
        },
        _ => Action::Nothing,
    }
}

fn session_action_key(code: KeyCode, app: &mut App)
    requires
        old(app)@.mode is SessionActionMenu,
    ensures
        (final(app)@, ActionView::Nothing) == normal_next(old(app)@, code),
{
    match code {
        KeyCode::Esc | KeyCode::Char('h') => {
            app.mode = AppMode::ListSessions;
        },
        KeyCode::Char('j') | KeyCode::Down => {
            let len = app.session_actions.len();
            move_down(&mut app.session_action_selected, len, &mut app.session_action_list_state);
        },
        KeyCode::Char('k') | KeyCode::Up => {
            let len = app.session_actions.len();
            move_up(&mut app.session_action_selected, len, &mut app.session_action_list_state);
        },
        _ => {},
    }
}

fn handle_insert_mode(code: KeyCode, app: &mut App)
    ensures
        final(app)@ == insert_next(old(app)@, code),
{
    match app.mode {
        AppMode::ListSessions => match code {
            KeyCode::Esc => {
                app.editor_mode = EditorMode::Normal;
            },
            KeyCode::Backspace => {
                pop_char(&mut app.search_query);
                app.clamp_session_selection();
            },
            KeyCode::Char(c) => {
                push_char(&mut app.search_query, c);
                app.clamp_session_selection();
            },
            _ => {},
        },
        AppMode::CreateSession => match code {
            KeyCode::Esc => {
                app.editor_mode = EditorMode::Normal;
            },
            KeyCode::Backspace => {
                pop_char(&mut app.input_buffer);
            },
            KeyCode::Char(c) => {
                push_char(&mut app.input_buffer, c);
            },
            _ => {},
        },
        _ => {},
    }
}

fn handle_visual_mode(code: KeyCode, app: &mut App) -> (r: Action)
    ensures
        (final(app)@, r@) == visual_next(old(app)@, code),
{
    match app.mode {
        AppMode::ListSessions => match code {
            KeyCode::Esc => {
                app.editor_mode = EditorMode::Normal;
                Action::Nothing
            },
            KeyCode::Char('j') | KeyCode::Down => {
                let len = app.filtered_sessions().len();
                move_down(&mut app.session_selected, len, &mut app.session_list_state);
                Action::Nothing
            },
            KeyCode::Char('k') | KeyCode::Up => {
                let len = app.filtered_sessions().len();
                move_up(&mut app.session_selected, len, &mut app.session_list_state);
                Action::Nothing
            },
            KeyCode::Char('x') => {
                let filtered = app.filtered_sessions();
                if app.session_selected < filtered.len() {
                    Action::DeleteSession { name: filtered[app.session_selected].clone() }
                } else {
                    Action::Nothing
                }
            },
            // Space is reserved for toggling a multi-selection; it does nothing yet.
            _ => Action::Nothing,
        },
        _ => Action::Nothing,
    }
}

} // verus!
