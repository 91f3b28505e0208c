use file_manager::{App, Command, Entry, InputMode, Key, PendingAction, StatefulList};

fn entry(path: &str, name: &str, is_dir: bool) -> Entry {
    Entry { path: path.to_string(), name: name.to_string(), is_dir }
}

/// A browser as the program starts it: built, then with the first row selected.
fn browser(dir: String, items: Vec<Entry>) -> App {
    let mut app = App::new(dir, items);
    app.list.next();
    app
}

fn listing_of_b() -> Vec<Entry> {
    vec![
        entry("/a/b/c", "c", false),
        entry("/a/b/d", "d", true),
        entry("/a/b/e.txt", "e.txt", false),
    ]
}

fn listing_of_a() -> Vec<Entry> {
    vec![
        entry("/a/x", "x", true),
        entry("/a/b", "b", true),
        entry("/a/z", "z", false),
    ]
}

fn command_text(c: &Command) -> (&'static str, String) {
    match c {
        Command::Nothing => ("nothing", String::new()),
        Command::Quit => ("quit", String::new()),
        Command::ListParent(p) => ("list_parent", p.clone()),
        Command::ListChild(p) => ("list_child", p.clone()),
        Command::ReadFile(p) => ("read_file", p.clone()),
        Command::CreateDir(p) => ("create_dir", p.clone()),
    }
}

#[test]
fn advance_wraps_after_full_cycle() {
    let mut l = StatefulList::with_items(vec![10, 20, 30]);
    assert_eq!(l.selected, None);
    l.next();
    assert_eq!(l.selected, Some(0));
    l.next();
    l.next();
    assert_eq!(l.selected, Some(2));
    l.next();
    assert_eq!(l.selected, Some(0));
    for _ in 0..3 {
        l.next();
    }
    assert_eq!(l.selected, Some(0));
}

#[test]
fn retreat_undoes_advance() {
    let mut l = StatefulList::with_items(vec![1, 2, 3, 4]);
    l.selected = Some(3);
    l.next();
    assert_eq!(l.selected, Some(0));
    l.previous();
    assert_eq!(l.selected, Some(3));
    l.selected = Some(1);
    l.next();
    l.previous();
    assert_eq!(l.selected, Some(1));
}

#[test]
fn retreat_from_none_selects_first_and_wraps() {
    let mut l = StatefulList::with_items(vec!['a', 'b']);
    l.previous();
    assert_eq!(l.selected, Some(0));
    l.previous();
    assert_eq!(l.selected, Some(1));
}

#[test]
fn empty_list_stays_unselected() {
    let mut l: StatefulList<u32> = StatefulList::with_items(Vec::new());
    l.next();
    assert_eq!(l.selected, None);
    l.previous();
    assert_eq!(l.selected, None);
    l.unselect();
    assert_eq!(l.selected, None);
}

#[test]
fn unselect_clears() {
    let mut l = StatefulList::with_items(vec![5]);
    l.next();
    assert_eq!(l.selected, Some(0));
    l.unselect();
    assert_eq!(l.selected, None);
    assert_eq!(l.items, vec![5]);
}

#[test]
fn new_leaves_selection_unset() {
    let app = App::new("/a/b".to_string(), listing_of_b());
    assert_eq!(app.list.selected, None);
    assert_eq!(app.list.items.len(), 3);
    assert_eq!(app.curr_dir, "/a/b");
    assert_eq!(app.input_mode, InputMode::Normal);
    assert_eq!(app.input, "");
    assert!(app.pending_action.is_none());
    assert!(app.error.is_none());
    assert!(app.preview.is_none());
    assert_eq!(app.panel_text(), "");
    let started = browser("/a/b".to_string(), listing_of_b());
    assert_eq!(started.list.selected, Some(0));
    let empty = browser("/empty".to_string(), Vec::new());
    assert_eq!(empty.list.selected, None);
}

#[test]
fn moves_before_submit_keep_folder_target() {
    let mut app = browser("/x/y".to_string(), vec![entry("/x/y/d", "d", true)]);
    app.new_folder();
    app.go_into(Ok(vec![entry("/x/y/d/f", "f", false)]));
    assert_eq!(app.curr_dir, "/x/y/d");
    app.list.next();
    app.list.previous();
    app.open_file(Ok("text".to_string()));
    app.handle_key(Key::Char('k'));
    let c = app.handle_key(Key::Enter);
    assert_eq!(command_text(&c), ("create_dir", "/x/y/k".to_string()));
}

#[test]
fn left_asks_for_parent_listing() {
    let mut app = browser("/a/b".to_string(), listing_of_b());
    let c = app.handle_key(Key::Left);
    assert_eq!(command_text(&c), ("list_parent", "/a".to_string()));
    assert_eq!(app.curr_dir, "/a/b");
}

#[test]
fn go_back_selects_directory_left() {
    let mut app = browser("/a/b".to_string(), listing_of_b());
    app.go_back(Ok(listing_of_a()));
    assert_eq!(app.curr_dir, "/a");
    assert_eq!(app.list.items.len(), 3);
    assert_eq!(app.list.selected, Some(1));
}

#[test]
fn go_back_without_match_leaves_unselected() {
    let mut app = browser("/a/b".to_string(), listing_of_b());
    app.go_back(Ok(vec![entry("/a/q", "q", true)]));
    assert_eq!(app.curr_dir, "/a");
    assert_eq!(app.list.selected, None);
}

#[test]
fn go_back_failure_keeps_directory() {
    let mut app = browser("/a/b".to_string(), listing_of_b());
    app.go_back(Err("permission denied".to_string()));
    assert_eq!(app.curr_dir, "/a/b");
    assert_eq!(app.list.items.len(), 3);
    assert_eq!(app.list.selected, Some(0));
    assert_eq!(app.error.as_deref(), Some("couldn't list /a: permission denied"));
    assert_eq!(app.panel_text(), "couldn't list /a: permission denied");
}

#[test]
fn enter_on_directory_asks_for_child_listing() {
    let mut app = browser("/a/b".to_string(), listing_of_b());
    app.handle_key(Key::Down);
    assert_eq!(app.list.selected, Some(1));
    let c = app.handle_key(Key::Enter);
    assert_eq!(command_text(&c), ("list_child", "/a/b/d".to_string()));
    let c = app.handle_key(Key::Right);
    assert_eq!(command_text(&c), ("list_child", "/a/b/d".to_string()));
}

#[test]
fn enter_on_file_asks_to_read_it() {
    let mut app = browser("/a/b".to_string(), listing_of_b());
    let c = app.handle_key(Key::Enter);
    assert_eq!(command_text(&c), ("read_file", "/a/b/c".to_string()));
}

#[test]
fn enter_without_selection_does_nothing() {
    let mut app = browser("/empty".to_string(), Vec::new());
    let c = app.handle_key(Key::Enter);
    assert_eq!(command_text(&c), ("nothing", String::new()));
}

#[test]
fn go_into_success_moves_and_selects_first() {
    let mut app = browser("/a/b".to_string(), listing_of_b());
    app.list.selected = Some(1);
    app.go_into(Ok(vec![entry("/a/b/d/f", "f", false), entry("/a/b/d/g", "g", false)]));
    assert_eq!(app.curr_dir, "/a/b/d");
    assert_eq!(app.list.selected, Some(0));
    assert_eq!(app.list.items[1].name, "g");
}

#[test]
fn go_into_empty_directory_has_no_selection() {
    let mut app = browser("/a/b".to_string(), listing_of_b());
    app.list.selected = Some(1);
    app.go_into(Ok(Vec::new()));
    assert_eq!(app.curr_dir, "/a/b/d");
    assert_eq!(app.list.selected, None);
}

#[test]
fn go_into_failure_stays_and_reports() {
    let mut app = browser("/a/b".to_string(), listing_of_b());
    app.list.selected = Some(1);
    app.go_into(Err("Permission denied (os error 13)".to_string()));
    assert_eq!(app.curr_dir, "/a/b");
    assert_eq!(app.list.items.len(), 3);
    assert_eq!(app.list.selected, Some(1));
    assert_eq!(
        app.error.as_deref(),
        Some("couldn't list /a/b/d: Permission denied (os error 13)")
    );
}

#[test]
fn open_file_sets_preview_and_clears_error() {
    let mut app = browser("/a/b".to_string(), listing_of_b());
    app.error = Some("old".to_string());
    app.open_file(Ok("hello\nworld".to_string()));
    assert!(app.error.is_none());
    let p = app.preview.as_ref().unwrap();
    assert_eq!(p.name, "c");
    assert_eq!(p.content, "hello\nworld");
    assert_eq!(app.panel_text(), "hello\nworld");
}

#[test]
fn failed_open_after_success_shows_error() {
    let mut app = browser("/a/b".to_string(), listing_of_b());
    app.open_file(Ok("content".to_string()));
    app.list.selected = Some(2);
    app.open_file(Err("stream did not contain valid UTF-8".to_string()));
    assert_eq!(
        app.panel_text(),
        "couldn't open /a/b/e.txt: stream did not contain valid UTF-8"
    );
    assert_eq!(app.preview.as_ref().unwrap().content, "content");
}

#[test]
fn successful_open_after_failure_shows_content() {
    let mut app = browser("/a/b".to_string(), listing_of_b());
    app.open_file(Err("No such file or directory (os error 2)".to_string()));
    assert_eq!(
        app.panel_text(),
        "couldn't open /a/b/c: No such file or directory (os error 2)"
    );
    app.open_file(Ok("fresh".to_string()));
    assert!(app.error.is_none());
    assert_eq!(app.panel_text(), "fresh");
}

#[test]
fn new_folder_snapshots_directory() {
    let mut app = browser("/x/y".to_string(), vec![entry("/x/y/z", "z", true)]);
    let c = app.handle_key(Key::Char('n'));
    assert_eq!(command_text(&c), ("nothing", String::new()));
    assert_eq!(app.input_mode, InputMode::Editing);
    match &app.pending_action {
        Some(PendingAction::CreateFolder { parent }) => assert_eq!(parent, "/x/y"),
        None => panic!("no pending action"),
    }
    app.go_back(Ok(vec![entry("/x/y", "y", true)]));
    assert_eq!(app.curr_dir, "/x");
    for ch in "new".chars() {
        app.handle_key(Key::Char(ch));
    }
    let c = app.handle_key(Key::Enter);
    assert_eq!(command_text(&c), ("create_dir", "/x/y/new".to_string()));
    assert_eq!(app.input_mode, InputMode::Normal);
    assert!(app.pending_action.is_none());
    assert_eq!(app.input, "");
}

#[test]
fn typing_and_backspace_edit_the_input() {
    let mut app = browser("/x".to_string(), Vec::new());
    app.new_folder();
    app.handle_key(Key::Backspace);
    assert_eq!(app.input, "");
    app.handle_key(Key::Char('a'));
    app.handle_key(Key::Char('q'));
    app.handle_key(Key::Char('n'));
    assert_eq!(app.input, "aqn");
    assert_eq!(app.input_mode, InputMode::Editing);
    app.handle_key(Key::Backspace);
    assert_eq!(app.input, "aq");
    app.handle_key(Key::Left);
    assert_eq!(app.input, "aq");
}

#[test]
fn cancel_drops_action_and_text() {
    let mut app = browser("/x".to_string(), Vec::new());
    app.new_folder();
    app.handle_key(Key::Char('t'));
    let c = app.handle_key(Key::Esc);
    assert_eq!(command_text(&c), ("nothing", String::new()));
    assert_eq!(app.input_mode, InputMode::Normal);
    assert!(app.pending_action.is_none());
    assert_eq!(app.input, "");
    let c = app.handle_key(Key::Esc);
    assert_eq!(command_text(&c), ("nothing", String::new()));
    assert_eq!(app.input_mode, InputMode::Normal);
}

#[test]
fn quit_only_in_normal_mode() {
    let mut app = browser("/x".to_string(), Vec::new());
    let c = app.handle_key(Key::Char('q'));
    assert_eq!(command_text(&c).0, "quit");
    app.new_folder();
    let c = app.handle_key(Key::Char('q'));
    assert_eq!(command_text(&c).0, "nothing");
    assert_eq!(app.input, "q");
}

#[test]
fn up_and_down_move_selection() {
    let mut app = browser("/a/b".to_string(), listing_of_b());
    app.handle_key(Key::Up);
    assert_eq!(app.list.selected, Some(2));
    app.handle_key(Key::Down);
    assert_eq!(app.list.selected, Some(0));
    app.handle_key(Key::Other);
    assert_eq!(app.list.selected, Some(0));
}

#[test]
fn failed_create_reports_error() {
    let mut app = browser("/x".to_string(), Vec::new());
    let path = "/x/dup".to_string();
    app.finish_create(&path, Ok(()));
    assert!(app.error.is_none());
    app.finish_create(&path, Err("File exists (os error 17)".to_string()));
    assert_eq!(app.error.as_deref(), Some("couldn't create /x/dup: File exists (os error 17)"));
}

#[test]
fn tick_changes_nothing() {
    let mut app = browser("/a/b".to_string(), listing_of_b());
    app.on_tick();
    assert_eq!(app.curr_dir, "/a/b");
    assert_eq!(app.list.selected, Some(0));
}
