//! Tests of the UI components: the shell editor, the search field, and the
//! song menu's paging.

use oldplay::gui::{Key, KeyReturn, SearchField, Shell, SongMenu};
use oldplay::rustplay::{apply_search_result, handle_mode_key, InputMode, State, UiAction};

#[test]
fn test_fifo() {
    let mut fifo = oldplay::fifo::Fifo::<u32>::new();
    fifo.push_back(1);
    let value = fifo.pop_front().unwrap();
    assert_eq!(1, value);
    assert!(fifo.pop_front().is_none());
}

#[test]
fn shell_edits_text() {
    let mut shell = Shell::new();
    shell.insert('h');
    shell.insert('i');
    assert_eq!(shell.command(), "hi");
    assert_eq!(shell.len(), 2);
    shell.del();
    assert_eq!(shell.command(), "h");
    shell.insert('o');
    shell.go(-2);
    shell.insert('y');
    assert_eq!(shell.command(), "yho");
    let (first, cursor, last) = shell.command_line();
    assert_eq!(first, "y");
    assert_eq!(cursor, 'h');
    assert_eq!(last, "o");
    shell.clear();
    assert_eq!(shell.len(), 0);
}

#[test]
fn search_field_collects_query() {
    let mut field = SearchField::new(10);
    assert!(matches!(field.handle_key(Key::Char('a')), KeyReturn::Nothing));
    assert!(matches!(field.handle_key(Key::Char('b')), KeyReturn::Nothing));
    match field.handle_key(Key::Enter) {
        KeyReturn::Search(q) => assert_eq!(q, "ab"),
        other => panic!("unexpected {:?}", other),
    }
    assert_eq!(field.shell.len(), 0);
    assert!(matches!(field.handle_key(Key::Esc), KeyReturn::ExitMenu));
    field.handle_key(Key::Char('x'));
    assert!(matches!(field.handle_key(Key::Esc), KeyReturn::Nothing));
    assert_eq!(field.shell.len(), 0);
    assert!(matches!(field.handle_key(Key::Up), KeyReturn::Navigate));
}

#[test]
fn menu_moves_and_clamps() {
    let mut menu = SongMenu::new(false, 80, 10);
    assert!(matches!(menu.handle_key(100, None, Key::Down), KeyReturn::Nothing));
    assert_eq!(menu.selected, 1);
    assert!(matches!(menu.handle_key(100, None, Key::PageDown), KeyReturn::Nothing));
    assert_eq!(menu.selected, 11);
    assert_eq!(menu.start_pos, 10);
    menu.handle_key(100, None, Key::Up);
    assert_eq!(menu.selected, 10);
    menu.handle_key(100, None, Key::PageUp);
    assert_eq!(menu.selected, 0);
    assert_eq!(menu.start_pos, 0);
}

#[test]
fn menu_clamps_at_result_end() {
    let mut menu = SongMenu::new(false, 80, 10);
    // Five results only: paging down sticks to the last one.
    menu.handle_key(5, None, Key::PageDown);
    assert_eq!(menu.selected, 4);
    assert_eq!(menu.start_pos, 0);
    menu.handle_key(5, None, Key::Down);
    assert_eq!(menu.selected, 4);
}

#[test]
fn menu_leaves_on_escape() {
    let mut menu = SongMenu::new(false, 80, 10);
    assert!(matches!(menu.handle_key(5, None, Key::Esc), KeyReturn::ExitMenu));
    assert!(matches!(menu.handle_key(5, None, Key::Char('s')), KeyReturn::Navigate));
    assert!(matches!(menu.handle_key(5, None, Key::Enter), KeyReturn::Nothing));
}

#[test]
fn mode_dispatch_follows_keys() {
    let mut state = State::new();
    let mut menu = SongMenu::new(false, 80, 10);
    let mut search = SearchField::new(10);

    // Digits select sub-songs; zero selects the tenth.
    let a = handle_mode_key(&mut state, &mut menu, &mut search, Key::Char('3'), 0, None);
    assert!(matches!(a, UiAction::SetSongCmd(3)));
    let a = handle_mode_key(&mut state, &mut menu, &mut search, Key::Char('0'), 0, None);
    assert!(matches!(a, UiAction::SetSongCmd(10)));
    let a = handle_mode_key(&mut state, &mut menu, &mut search, Key::Char('f'), 0, None);
    assert!(matches!(a, UiAction::FfCmd(10000)));

    // 's' opens the search; typed characters collect; enter runs the query.
    let a = handle_mode_key(&mut state, &mut menu, &mut search, Key::Char('s'), 0, None);
    assert!(matches!(a, UiAction::Idle));
    assert_eq!(state.mode, InputMode::SearchInput);
    handle_mode_key(&mut state, &mut menu, &mut search, Key::Char('a'), 0, None);
    handle_mode_key(&mut state, &mut menu, &mut search, Key::Char('b'), 0, None);
    match handle_mode_key(&mut state, &mut menu, &mut search, Key::Enter, 0, None) {
        UiAction::RunSearch(q) => assert_eq!(q, "ab"),
        other => panic!("unexpected {:?}", other),
    }

    // A search with results opens the menu; without any it queues an error.
    apply_search_result(&mut state, &mut menu, 4);
    assert_eq!(state.mode, InputMode::ResultScreen);
    assert_eq!(menu.selected, 0);
    apply_search_result(&mut state, &mut menu, 0);
    assert_eq!(state.errors.len(), 1);

    // Escape leaves the result screen for the last mode.
    state.mode = InputMode::ResultScreen;
    state.last_mode = InputMode::Main;
    let a = handle_mode_key(&mut state, &mut menu, &mut search, Key::Esc, 4, None);
    assert!(matches!(a, UiAction::Idle));
    assert_eq!(state.mode, InputMode::Main);
}

#[test]
fn menu_resize_requests_redraw() {
    let mut menu = SongMenu::new(true, 80, 10);
    menu.handle_key(100, None, Key::Down);
    menu.resize(100, 20);
    assert_eq!(menu.width, 100);
    assert_eq!(menu.height, 20);
    assert!(menu.scrolled);
    menu.refresh();
    assert!(menu.scrolled);
}
