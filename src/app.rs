//! The application state that key events act on.
use vstd::prelude::*;
use crate::filter::{filtered, filtered_view};
use crate::input::EditorMode;
use crate::nav::{clamp, clamp_highlight, clamp_index, ListCursor};
use crate::text::views;

verus! {

/// The screen that is active.
pub enum AppMode {
    MainMenu,
    CreateSession,
    ListSessions,
    /// The action menu for the session of this name.
    SessionActionMenu(String),
}

/// What an `AppMode` is, with the session name as a sequence of characters.
pub enum Screen {
    MainMenu,
    CreateSession,
    ListSessions,
    SessionActionMenu(Seq<char>),
}

impl View for AppMode {
    type V = Screen;

    open spec fn view(&self) -> Screen {
        match self {
            AppMode::MainMenu => Screen::MainMenu,
            AppMode::CreateSession => Screen::CreateSession,
            AppMode::ListSessions => Screen::ListSessions,
            AppMode::SessionActionMenu(name) => Screen::SessionActionMenu(name@),
        }
    }
}

/// The views of a sequence of string slices.
pub open spec fn str_views(v: Seq<&str>) -> Seq<Seq<char>> {
    v.map_values(|s: &str| s@)
}

pub struct App {
    pub name: String,
    pub mode: AppMode,
    pub editor_mode: EditorMode,
    pub main_menu_items: Vec<&'static str>,
    pub main_menu_selected: usize,
    pub main_list_state: ListCursor,
    pub sessions: Vec<String>,
    pub session_selected: usize,
    pub session_list_state: ListCursor,
    /// The filter shared by the filterable screens.
    pub search_query: String,
    pub templates: Vec<String>,
    pub template_selected: usize,
    pub template_list_state: ListCursor,
    pub session_actions: Vec<&'static str>,
    pub session_action_selected: usize,
    pub session_action_list_state: ListCursor,
    /// The name typed for a new session.
    pub input_buffer: String,
}

/// An `App` as mathematical values.
pub struct AppView {
    pub name: Seq<char>,
    pub mode: Screen,
    pub editor_mode: EditorMode,
    pub main_menu_items: Seq<Seq<char>>,
    pub main_menu_selected: nat,
    pub main_list_state: ListCursor,
    pub sessions: Seq<Seq<char>>,
    pub session_selected: nat,
    pub session_list_state: ListCursor,
    pub search_query: Seq<char>,
    pub templates: Seq<Seq<char>>,
    pub template_selected: nat,
    pub template_list_state: ListCursor,
    pub session_actions: Seq<Seq<char>>,
    pub session_action_selected: nat,
    pub session_action_list_state: ListCursor,
    pub input_buffer: Seq<char>,
}

impl View for App {
    type V = AppView;

    open spec fn view(&self) -> AppView {
        AppView {
            name: self.name@,
            mode: self.mode@,
            editor_mode: self.editor_mode,
            main_menu_items: str_views(self.main_menu_items@),
            main_menu_selected: self.main_menu_selected as nat,
            main_list_state: self.main_list_state,
            sessions: views(self.sessions@),
            session_selected: self.session_selected as nat,
            session_list_state: self.session_list_state,
            search_query: self.search_query@,
            templates: views(self.templates@),
            template_selected: self.template_selected as nat,
            template_list_state: self.template_list_state,
            session_actions: str_views(self.session_actions@),
            session_action_selected: self.session_action_selected as nat,
            session_action_list_state: self.session_action_list_state,
            input_buffer: self.input_buffer@,
        }
    }
}

impl AppView {
    /// The sessions that the current query keeps, in order.
    pub open spec fn filtered_sessions(self) -> Seq<Seq<char>> {
        filtered(self.sessions, self.search_query)
    }

    /// The state with the session selection brought back into the filtered
    /// session list.
    pub open spec fn with_sessions_clamped(self) -> AppView {
        let len = self.filtered_sessions().len();
        AppView {
            session_selected: clamp_index(self.session_selected, len),
            session_list_state: ListCursor {
                selected: clamp_highlight(self.session_selected, len),
            },
            ..self
        }
    }
}

/// The entries of the main menu, in order.
pub open spec fn main_menu_entries() -> Seq<Seq<char>> {
    seq!["Create Session"@, "List Sessions"@, "Quit"@]
}

/// The entries of the per-session action menu, in order.
pub open spec fn session_action_entries() -> Seq<Seq<char>> {
    seq![" Attach"@, " Delete"@, " Rename"@]
}

impl App {
    /// A fresh state on the main menu in normal mode, holding the sessions
    /// and templates that were listed, with every selection at the top and
    /// nothing typed yet.
    pub fn new(sessions: Vec<String>, templates: Vec<String>) -> (r: App)
        ensures
            r@ == (AppView {
                name: "tmux-sessioniber"@,
                mode: Screen::MainMenu,
                editor_mode: EditorMode::Normal,
                main_menu_items: main_menu_entries(),
                main_menu_selected: 0,
                main_list_state: ListCursor { selected: None },
                sessions: views(sessions@),
                session_selected: 0,
                session_list_state: ListCursor { selected: None },
                search_query: Seq::empty(),
                templates: views(templates@),
                template_selected: 0,
                template_list_state: ListCursor { selected: None },
                session_actions: session_action_entries(),
                session_action_selected: 0,
                session_action_list_state: ListCursor { selected: None },
                input_buffer: Seq::empty(),
            }),
    {
        let r = App {
            name: String::from_str("tmux-sessioniber"),
            mode: AppMode::MainMenu,
            editor_mode: EditorMode::Normal,
            main_menu_items: vec!["Create Session", "List Sessions", "Quit"],
            main_menu_selected: 0,
            main_list_state: ListCursor::new(),
            sessions,
            session_selected: 0,
            session_list_state: ListCursor::new(),
            search_query: String::new(),
            templates,
            template_selected: 0,
            template_list_state: ListCursor::new(),
            session_actions: vec![" Attach", " Delete", " Rename"],
            session_action_selected: 0,
            session_action_list_state: ListCursor::new(),
            input_buffer: String::new(),
        };
        assert(r@.main_menu_items == main_menu_entries());
        assert(r@.session_actions == session_action_entries());
        r
    }

    /// The sessions whose names contain the search query, ignoring case.
    pub fn filtered_sessions(&self) -> (r: Vec<String>)
        ensures
            views(r@) == self@.filtered_sessions(),
    {
        filtered_view(&self.sessions, self.search_query.as_str())
    }

    /// The templates whose names contain the search query, ignoring case.
    pub fn filtered_templates(&self) -> (r: Vec<String>)
        ensures
            views(r@) == filtered(self@.templates, self@.search_query),
    {
        filtered_view(&self.templates, self.search_query.as_str())
    }

    /// Brings the session selection back into the filtered session list.
    pub fn clamp_session_selection(&mut self)
        ensures
            final(self)@ == old(self)@.with_sessions_clamped(),
    {
        let len = self.filtered_sessions().len();
        clamp(&mut self.session_selected, len, &mut self.session_list_state);
    }

    /// Replaces the session list with a freshly listed one and brings the
    /// selection back into the new filtered list.
    pub fn refresh_sessions(&mut self, sessions: Vec<String>)
        ensures
            final(self)@ == (AppView { sessions: views(sessions@), ..old(self)@ }).with_sessions_clamped(),
    {
        self.sessions = sessions;
        self.clamp_session_selection();
    }
}

} // verus!
