use pl::project::Project;
use pl::state::{Action, App, Key, KeyCode, Mode, Mods};

fn proj(name: &str, path: &str) -> Project {
    Project::new(String::from(name), String::from(path))
}

fn three() -> App {
    App::new(vec![
        proj("alpha", "/p/alpha"),
        proj("beta", "/p/beta"),
        proj("alphabet", "/p/alphabet"),
    ])
}

fn plain(code: KeyCode) -> Key {
    Key { code, mods: Mods::Plain }
}

fn ctrl(c: char) -> Key {
    Key { code: KeyCode::Char(c), mods: Mods::Ctrl }
}

#[test]
fn startup_selects_first_and_shows_all() {
    let app = three();
    assert_eq!(app.selected, Some(0));
    assert_eq!(app.filtered.len(), 3);
    assert_eq!(app.mode, Mode::Editing);
    assert!(!app.pending_open);
    assert!(!app.exit);
}

#[test]
fn startup_with_no_projects_selects_nothing() {
    let app = App::new(vec![]);
    assert_eq!(app.selected, None);
    assert!(app.filtered.is_empty());
    assert_eq!(app.selected_path(), None);
}

#[test]
fn next_wraps_to_front() {
    let mut app = three();
    app.select_last();
    assert_eq!(app.selected, Some(2));
    app.select_next();
    assert_eq!(app.selected, Some(0));
}

#[test]
fn previous_wraps_to_back() {
    let mut app = three();
    assert_eq!(app.selected, Some(0));
    app.select_previous();
    assert_eq!(app.selected, Some(2));
}

#[test]
fn navigation_on_empty_list_stays_none() {
    let mut app = App::new(vec![]);
    app.select_next();
    assert_eq!(app.selected, None);
    app.select_previous();
    assert_eq!(app.selected, None);
    app.select_last();
    assert_eq!(app.selected, None);
    app.select_first();
    assert_eq!(app.selected, None);
}

#[test]
fn query_alpha_filters_and_resets_selection() {
    let mut app = three();
    app.select_last();
    app.set_query(String::from("alpha"));
    let names: Vec<&str> = app.filtered.iter().map(|p| p.name.as_str()).collect();
    assert_eq!(names, vec!["alpha", "alphabet"]);
    assert_eq!(app.selected, Some(0));
}

#[test]
fn query_without_match_clears_selection() {
    let mut app = three();
    app.set_query(String::from("zzz"));
    assert!(app.filtered.is_empty());
    assert_eq!(app.selected, None);
    assert_eq!(app.selected_path(), None);
}

#[test]
fn selection_invariant_holds_under_any_sequence() {
    let mut app = three();
    let keys = [
        plain(KeyCode::Down),
        ctrl('n'),
        ctrl('p'),
        plain(KeyCode::Up),
        plain(KeyCode::Esc),
        plain(KeyCode::Char('j')),
        plain(KeyCode::Char('k')),
        plain(KeyCode::Char('G')),
        plain(KeyCode::Char('/')),
    ];
    let queries = ["a", "alpha", "zzz", "", "ALPHABET"];
    for (key, q) in keys.iter().zip(queries.iter().cycle()) {
        app.handle_key(*key);
        app.set_query(String::from(*q));
        match app.selected {
            Some(i) => {
                assert!(!app.filtered.is_empty());
                assert!(i < app.filtered.len());
            }
            None => assert!(app.filtered.is_empty()),
        }
    }
}

#[test]
fn quit_key_exits_without_pending_open() {
    let mut app = three();
    app.stop_editing();
    assert_eq!(app.mode, Mode::Navigation);
    let act = app.handle_key(plain(KeyCode::Char('q')));
    assert_eq!(act, Action::Handled);
    assert!(app.exit);
    assert!(!app.pending_open);
}

#[test]
fn esc_in_navigation_exits() {
    let mut app = three();
    app.stop_editing();
    app.handle_key(plain(KeyCode::Esc));
    assert!(app.exit);
    assert!(!app.pending_open);
}

#[test]
fn enter_in_navigation_marks_selection_for_open() {
    let mut app = three();
    app.stop_editing();
    app.handle_key(plain(KeyCode::Char('j')));
    assert_eq!(app.selected, Some(1));
    let act = app.handle_key(plain(KeyCode::Enter));
    assert_eq!(act, Action::Handled);
    assert!(app.exit);
    assert!(app.pending_open);
    assert_eq!(app.selected_path(), Some(String::from("/p/beta")));
}

#[test]
fn enter_in_editing_only_leaves_editing() {
    let mut app = three();
    assert_eq!(app.mode, Mode::Editing);
    let act = app.handle_key(plain(KeyCode::Enter));
    assert_eq!(act, Action::Handled);
    assert_eq!(app.mode, Mode::Navigation);
    assert!(!app.exit);
    assert!(!app.pending_open);
}

#[test]
fn esc_in_editing_returns_to_navigation() {
    let mut app = three();
    app.handle_key(plain(KeyCode::Esc));
    assert_eq!(app.mode, Mode::Navigation);
    assert!(!app.exit);
}

#[test]
fn slash_enters_editing() {
    let mut app = three();
    app.stop_editing();
    app.handle_key(plain(KeyCode::Char('/')));
    assert_eq!(app.mode, Mode::Editing);
}

#[test]
fn ctrl_n_and_ctrl_p_navigate_while_editing() {
    let mut app = three();
    assert_eq!(app.mode, Mode::Editing);
    app.handle_key(ctrl('n'));
    assert_eq!(app.selected, Some(1));
    app.handle_key(ctrl('p'));
    assert_eq!(app.selected, Some(0));
    app.handle_key(plain(KeyCode::Down));
    assert_eq!(app.selected, Some(1));
    app.handle_key(plain(KeyCode::Up));
    assert_eq!(app.selected, Some(0));
    assert_eq!(app.mode, Mode::Editing);
}

#[test]
fn plain_character_is_forwarded_to_buffer() {
    let mut app = three();
    let act = app.handle_key(plain(KeyCode::Char('b')));
    assert_eq!(act, Action::ForwardToBuffer);
    app.set_query(String::from("b"));
    let names: Vec<&str> = app.filtered.iter().map(|p| p.name.as_str()).collect();
    assert_eq!(names, vec!["beta", "alphabet"]);
    assert_eq!(app.selected, Some(0));
}

#[test]
fn unknown_key_in_navigation_is_ignored() {
    let mut app = three();
    app.stop_editing();
    let before_sel = app.selected;
    let act = app.handle_key(plain(KeyCode::Other));
    assert_eq!(act, Action::Handled);
    assert_eq!(app.selected, before_sel);
    assert!(!app.exit);
    assert_eq!(app.mode, Mode::Navigation);
}

#[test]
fn modified_esc_while_editing_is_forwarded() {
    let mut app = three();
    let act = app.handle_key(Key { code: KeyCode::Esc, mods: Mods::Mixed });
    assert_eq!(act, Action::ForwardToBuffer);
    assert_eq!(app.mode, Mode::Editing);
}

#[test]
fn clearing_query_restores_whole_list() {
    let mut app = three();
    app.set_query(String::from("alpha"));
    assert_eq!(app.filtered.len(), 2);
    app.set_query(String::new());
    assert_eq!(app.filtered.len(), 3);
    assert_eq!(app.selected, Some(0));
}
