use tmux_sessioniber::{handle_input, Action, App, AppMode, EditorMode, Event, KeyCode};

fn strings(v: &[&str]) -> Vec<String> {
    v.iter().map(|s| s.to_string()).collect()
}

fn key(code: KeyCode) -> Event {
    Event::Key(code)
}

fn ch(c: char) -> Event {
    Event::Key(KeyCode::Char(c))
}

fn app() -> App {
    App::new(strings(&["a", "b"]), strings(&["No Template", "dev"]))
}

fn is_main_menu(a: &App) -> bool {
    matches!(a.mode, AppMode::MainMenu)
}

fn is_list(a: &App) -> bool {
    matches!(a.mode, AppMode::ListSessions)
}

#[test]
fn new_app_starts_on_main_menu() {
    let a = app();
    assert!(is_main_menu(&a));
    assert_eq!(a.editor_mode, EditorMode::Normal);
    assert_eq!(a.main_menu_items, vec!["Create Session", "List Sessions", "Quit"]);
    assert_eq!(a.session_actions, vec![" Attach", " Delete", " Rename"]);
    assert_eq!(a.sessions, strings(&["a", "b"]));
    assert_eq!(a.name, "tmux-sessioniber");
    assert!(a.search_query.is_empty());
    assert!(a.input_buffer.is_empty());
}

#[test]
fn non_key_events_do_nothing() {
    let mut a = app();
    assert!(matches!(handle_input(Event::Other, &mut a), Action::Nothing));
    assert!(is_main_menu(&a));
}

#[test]
fn main_menu_q_quits() {
    let mut a = app();
    assert!(handle_input(ch('q'), &mut a).is_quit());
}

#[test]
fn main_menu_enter_on_list_sessions_refreshes() {
    let mut a = app();
    a.main_menu_selected = 1;
    let act = handle_input(key(KeyCode::Enter), &mut a);
    assert!(matches!(act, Action::RefreshSessions));
    assert!(is_list(&a));
    a.refresh_sessions(strings(&["x", "y", "z"]));
    assert_eq!(a.sessions, strings(&["x", "y", "z"]));
}

#[test]
fn main_menu_enter_on_create_and_quit() {
    let mut a = app();
    assert!(matches!(handle_input(ch('l'), &mut a), Action::Nothing));
    assert!(matches!(a.mode, AppMode::CreateSession));
    let mut b = app();
    b.main_menu_selected = 2;
    assert!(handle_input(key(KeyCode::Enter), &mut b).is_quit());
}

#[test]
fn main_menu_navigation_clamps() {
    let mut a = app();
    handle_input(ch('j'), &mut a);
    handle_input(key(KeyCode::Down), &mut a);
    handle_input(key(KeyCode::Down), &mut a);
    assert_eq!(a.main_menu_selected, 2);
    assert_eq!(a.main_list_state.selected(), Some(2));
    handle_input(ch('k'), &mut a);
    assert_eq!(a.main_menu_selected, 1);
}

#[test]
fn main_menu_mode_switches() {
    let mut a = app();
    handle_input(ch('i'), &mut a);
    assert_eq!(a.editor_mode, EditorMode::Insert);
    let mut b = app();
    handle_input(ch('v'), &mut b);
    assert_eq!(b.editor_mode, EditorMode::Visual);
}

#[test]
fn list_sessions_back_keys_return_to_main_menu_keeping_filter() {
    for back in [ch('q'), key(KeyCode::Esc), ch('h')] {
        let mut a = App::new(strings(&["work", "Work-2", "home"]), strings(&["No Template"]));
        a.mode = AppMode::ListSessions;
        a.search_query = "work".to_string();
        a.session_selected = 1;
        let act = handle_input(back, &mut a);
        assert!(matches!(act, Action::Nothing));
        assert!(is_main_menu(&a));
        assert_eq!(a.search_query, "work");
        assert_eq!(a.session_selected, 1);
    }
}

#[test]
fn list_sessions_enter_opens_action_menu_for_filtered_item() {
    let mut a = App::new(strings(&["home", "work", "Work-2"]), strings(&["No Template"]));
    a.mode = AppMode::ListSessions;
    a.search_query = "WORK".to_string();
    a.session_selected = 1;
    handle_input(key(KeyCode::Enter), &mut a);
    match &a.mode {
        AppMode::SessionActionMenu(name) => assert_eq!(name, "Work-2"),
        _ => panic!("expected the session action menu"),
    }
}

#[test]
fn list_sessions_enter_on_empty_view_does_nothing() {
    let mut a = app();
    a.mode = AppMode::ListSessions;
    a.search_query = "zzz".to_string();
    handle_input(ch('l'), &mut a);
    assert!(is_list(&a));
}

#[test]
fn list_sessions_navigation_uses_filtered_length() {
    let mut a = App::new(strings(&["a1", "b", "a2", "c"]), strings(&["No Template"]));
    a.mode = AppMode::ListSessions;
    a.search_query = "a".to_string();
    handle_input(ch('j'), &mut a);
    handle_input(ch('j'), &mut a);
    assert_eq!(a.session_selected, 1);
    assert_eq!(a.session_list_state.selected(), Some(1));
    handle_input(key(KeyCode::Up), &mut a);
    assert_eq!(a.session_selected, 0);
}

#[test]
fn insert_mode_edits_search_query() {
    let mut a = app();
    a.mode = AppMode::ListSessions;
    handle_input(ch('i'), &mut a);
    assert_eq!(a.editor_mode, EditorMode::Insert);
    handle_input(ch('q'), &mut a);
    handle_input(ch('h'), &mut a);
    assert_eq!(a.search_query, "qh");
    assert!(is_list(&a));
    handle_input(key(KeyCode::Backspace), &mut a);
    assert_eq!(a.search_query, "q");
    handle_input(key(KeyCode::Esc), &mut a);
    assert_eq!(a.editor_mode, EditorMode::Normal);
}

#[test]
fn insert_mode_query_change_reclamps_selection() {
    let mut a = App::new(strings(&["ab", "b", "c"]), strings(&["No Template"]));
    a.mode = AppMode::ListSessions;
    a.editor_mode = EditorMode::Insert;
    a.session_selected = 2;
    handle_input(ch('b'), &mut a);
    assert_eq!(a.session_selected, 1);
    assert_eq!(a.session_list_state.selected(), Some(1));
}

#[test]
fn insert_abc_then_three_backspaces_restores_buffer() {
    let mut a = app();
    a.mode = AppMode::CreateSession;
    a.input_buffer = "dev".to_string();
    for e in [ch('i'), ch('a'), ch('b'), ch('c')] {
        handle_input(e, &mut a);
    }
    assert_eq!(a.input_buffer, "devabc");
    for _ in 0..3 {
        handle_input(key(KeyCode::Backspace), &mut a);
    }
    assert_eq!(a.input_buffer, "dev");
    assert_eq!(a.editor_mode, EditorMode::Insert);
}

#[test]
fn insert_abc_then_three_backspaces_restores_query() {
    let mut a = app();
    a.mode = AppMode::ListSessions;
    a.search_query = "x".to_string();
    for e in [ch('i'), ch('a'), ch('b'), ch('c')] {
        handle_input(e, &mut a);
    }
    for _ in 0..3 {
        handle_input(key(KeyCode::Backspace), &mut a);
    }
    assert_eq!(a.search_query, "x");
}

#[test]
fn backspace_on_empty_buffer_is_harmless() {
    let mut a = app();
    a.mode = AppMode::CreateSession;
    a.editor_mode = EditorMode::Insert;
    handle_input(key(KeyCode::Backspace), &mut a);
    assert!(a.input_buffer.is_empty());
}

#[test]
fn insert_mode_on_main_menu_ignores_keys() {
    let mut a = app();
    a.editor_mode = EditorMode::Insert;
    handle_input(ch('q'), &mut a);
    handle_input(key(KeyCode::Esc), &mut a);
    assert_eq!(a.editor_mode, EditorMode::Insert);
    assert!(is_main_menu(&a));
}

#[test]
fn create_session_enter_asks_to_create_and_clears_name() {
    let mut a = app();
    a.mode = AppMode::CreateSession;
    a.input_buffer = "proj".to_string();
    handle_input(ch('j'), &mut a);
    let act = handle_input(key(KeyCode::Enter), &mut a);
    match act {
        Action::CreateSession { name, template } => {
            assert_eq!(name, "proj");
            assert_eq!(template, Some("dev".to_string()));
        }
        _ => panic!("expected a create action"),
    }
    assert!(a.input_buffer.is_empty());
    assert!(is_main_menu(&a));
}

#[test]
fn create_session_without_templates_has_no_template() {
    let mut a = App::new(Vec::new(), Vec::new());
    a.mode = AppMode::CreateSession;
    let act = handle_input(ch('l'), &mut a);
    assert!(matches!(act, Action::CreateSession { template: None, .. }));
}

#[test]
fn create_session_back_keys() {
    let mut a = app();
    a.mode = AppMode::CreateSession;
    handle_input(ch('h'), &mut a);
    assert!(is_main_menu(&a));
}

#[test]
fn session_action_menu_navigation_and_back() {
    let mut a = app();
    a.mode = AppMode::SessionActionMenu("gone".to_string());
    handle_input(ch('j'), &mut a);
    handle_input(ch('j'), &mut a);
    handle_input(ch('j'), &mut a);
    assert_eq!(a.session_action_selected, 2);
    assert_eq!(a.session_action_list_state.selected(), Some(2));
    assert!(matches!(handle_input(key(KeyCode::Enter), &mut a), Action::Nothing));
    handle_input(key(KeyCode::Esc), &mut a);
    assert!(is_list(&a));
}

#[test]
fn visual_x_deletes_selected_and_reclamps() {
    let mut a = app();
    a.mode = AppMode::ListSessions;
    a.editor_mode = EditorMode::Visual;
    a.session_selected = 1;
    let act = handle_input(ch('x'), &mut a);
    match act {
        Action::DeleteSession { name } => assert_eq!(name, "b"),
        _ => panic!("expected a delete action"),
    }
    a.refresh_sessions(strings(&["a"]));
    assert_eq!(a.sessions, strings(&["a"]));
    assert_eq!(a.session_selected, 0);
    assert_eq!(a.session_list_state.selected(), Some(0));
}

#[test]
fn visual_refresh_to_empty_leaves_no_selection() {
    let mut a = app();
    a.mode = AppMode::ListSessions;
    a.session_selected = 1;
    a.refresh_sessions(Vec::new());
    assert_eq!(a.session_selected, 0);
    assert_eq!(a.session_list_state.selected(), None);
}

#[test]
fn visual_x_on_empty_view_does_nothing() {
    let mut a = App::new(Vec::new(), Vec::new());
    a.mode = AppMode::ListSessions;
    a.editor_mode = EditorMode::Visual;
    assert!(matches!(handle_input(ch('x'), &mut a), Action::Nothing));
}

#[test]
fn visual_space_is_inert_and_esc_returns_to_normal() {
    let mut a = app();
    a.mode = AppMode::ListSessions;
    a.editor_mode = EditorMode::Visual;
    assert!(matches!(handle_input(ch(' '), &mut a), Action::Nothing));
    handle_input(ch('j'), &mut a);
    assert_eq!(a.session_selected, 1);
    handle_input(key(KeyCode::Esc), &mut a);
    assert_eq!(a.editor_mode, EditorMode::Normal);
}

#[test]
fn filtered_templates_follow_query() {
    let mut a = App::new(Vec::new(), strings(&["No Template", "Dev", "web"]));
    a.search_query = "dev".to_string();
    assert_eq!(a.filtered_templates(), strings(&["Dev"]));
    assert_eq!(a.filtered_sessions(), Vec::<String>::new());
}
