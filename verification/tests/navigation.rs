use filenav::input::{operation_for, Key, Operation};
use filenav::list::SelectableList;
use filenav::nav::{NavError, Navigator};
use filenav::path::{is_root, join, parent_of};

fn s(x: &str) -> String {
    x.to_string()
}

fn names(xs: &[&str]) -> Vec<String> {
    xs.iter().map(|x| x.to_string()).collect()
}

fn sorted(xs: &Vec<String>) -> Vec<String> {
    let mut c = xs.clone();
    c.sort();
    c
}

fn loaded_tmp_a() -> Navigator {
    let mut nav = Navigator::new();
    let r = nav.load_directory(s("/tmp/a"), Some(names(&["x.txt", "sub"])));
    assert!(r.is_ok());
    nav
}

#[test]
fn advance_cycles_back_after_len_calls() {
    let mut l = SelectableList::with_items(names(&["a", "b", "c"]));
    l.advance();
    assert_eq!(l.selected, Some(0));
    for _ in 0..3 {
        l.advance();
    }
    assert_eq!(l.selected, Some(0));
    l.advance();
    assert_eq!(l.selected, Some(1));
    for _ in 0..3 {
        l.advance();
    }
    assert_eq!(l.selected, Some(1));
}

#[test]
fn single_item_cursor_never_moves() {
    let mut l = SelectableList::with_items(names(&["only"]));
    l.advance();
    assert_eq!(l.selected, Some(0));
    l.advance();
    assert_eq!(l.selected, Some(0));
    l.retreat();
    assert_eq!(l.selected, Some(0));
}

#[test]
fn empty_list_cursor_stays_absent() {
    let mut l = SelectableList::with_items(names(&[]));
    l.advance();
    assert_eq!(l.selected, None);
    l.retreat();
    assert_eq!(l.selected, None);
}

#[test]
fn retreat_wraps_to_last() {
    let mut l = SelectableList::with_items(names(&["a", "b", "c"]));
    l.advance();
    assert_eq!(l.selected, Some(0));
    l.retreat();
    assert_eq!(l.selected, Some(2));
    l.retreat();
    assert_eq!(l.selected, Some(1));
}

#[test]
fn load_directory_sets_listing_and_clears_selection() {
    let nav = loaded_tmp_a();
    assert_eq!(nav.current_directory, s("/tmp/a"));
    assert_eq!(sorted(&nav.entries.items), sorted(&names(&["sub", "x.txt"])));
    assert_eq!(nav.entries.selected, None);
}

#[test]
fn load_directory_failure_keeps_all_state() {
    let mut nav = loaded_tmp_a();
    let before_items = nav.entries.items.clone();
    let r = nav.load_directory(s("/nowhere"), None);
    assert_eq!(r, Err(NavError::FilesystemAccessError));
    assert_eq!(nav.current_directory, s("/tmp/a"));
    assert_eq!(nav.entries.items, before_items);
    assert_eq!(nav.entries.selected, None);
    assert_eq!(nav.clipboard_source_path, None);
    assert_eq!(nav.clipboard_display_name, None);
}

#[test]
fn go_back_at_home_loads_root() {
    let mut nav = Navigator::new();
    nav.home_directory = s("/home/someone");
    let r = nav.load_directory(s("/home/someone"), Some(names(&["notes"])));
    assert!(r.is_ok());
    assert_eq!(nav.back_target(), s("/"));
    let r = nav.go_back(Some(names(&["home", "etc"])));
    assert!(r.is_ok());
    assert_eq!(nav.current_directory, s("/"));
}

#[test]
fn go_back_at_root_stays_at_root() {
    let mut nav = Navigator::new();
    nav.home_directory = s("/home/someone");
    let r = nav.load_directory(s("/"), Some(names(&["home", "etc"])));
    assert!(r.is_ok());
    assert_eq!(nav.back_target(), s("/"));
}

#[test]
fn go_back_elsewhere_targets_parent() {
    let mut nav = Navigator::new();
    nav.home_directory = s("/home/someone");
    let r = nav.load_directory(s("/tmp/a/sub"), Some(names(&[])));
    assert!(r.is_ok());
    assert_eq!(nav.back_target(), s("/tmp/a"));
}

#[test]
fn enter_then_back_scenario() {
    let mut nav = loaded_tmp_a();
    nav.home_directory = s("/home/someone");
    nav.entries.advance();
    if nav.entries.items[0] != s("sub") {
        nav.entries.advance();
    }
    let p = nav.selected_path().unwrap();
    assert_eq!(p, s("/tmp/a/sub"));
    let r = nav.enter_selected(true, Some(names(&[])));
    assert!(r.is_ok());
    assert_eq!(nav.current_directory, s("/tmp/a/sub"));
    assert_eq!(nav.entries.selected, None);
    let r = nav.go_back(Some(names(&["x.txt", "sub"])));
    assert!(r.is_ok());
    assert_eq!(nav.current_directory, s("/tmp/a"));
    assert_eq!(nav.entries.selected, Some(0));
}

#[test]
fn enter_file_refreshes_current_directory() {
    let mut nav = loaded_tmp_a();
    nav.entries.advance();
    if nav.entries.items[0] != s("x.txt") {
        nav.entries.advance();
    }
    let r = nav.enter_selected(false, Some(names(&["x.txt", "sub"])));
    assert!(r.is_ok());
    assert_eq!(nav.current_directory, s("/tmp/a"));
    assert_eq!(nav.entries.selected, Some(0));
}

#[test]
fn enter_without_selection_is_recoverable() {
    let mut nav = loaded_tmp_a();
    assert_eq!(nav.selected_path(), Err(NavError::NoSelectionError));
    let r = nav.enter_selected(true, Some(names(&[])));
    assert_eq!(r, Err(NavError::NoSelectionError));
    assert_eq!(nav.current_directory, s("/tmp/a"));
}

#[test]
fn delete_reports_error_but_refreshes() {
    let mut nav = loaded_tmp_a();
    nav.entries.advance();
    let r = nav.delete_selected(false, Some(names(&["x.txt", "sub"])));
    assert_eq!(r, Err(NavError::DeleteError));
    assert_eq!(sorted(&nav.entries.items), sorted(&names(&["sub", "x.txt"])));
}

#[test]
fn delete_removes_entry_from_next_listing() {
    let mut nav = loaded_tmp_a();
    nav.entries.advance();
    if nav.entries.items[0] != s("x.txt") {
        nav.entries.advance();
    }
    assert_eq!(nav.selected_path().unwrap(), s("/tmp/a/x.txt"));
    let r = nav.delete_selected(true, Some(names(&["sub"])));
    assert!(r.is_ok());
    assert!(!nav.entries.items.contains(&s("x.txt")));
    let r = nav.load_directory(s("/tmp/a"), Some(names(&["sub"])));
    assert!(r.is_ok());
    assert!(!nav.entries.items.contains(&s("x.txt")));
}

#[test]
fn copy_then_paste_targets_the_source() {
    let mut nav = loaded_tmp_a();
    nav.entries.advance();
    if nav.entries.items[0] != s("x.txt") {
        nav.entries.advance();
    }
    let r = nav.copy_selected(Some(names(&["x.txt", "sub"])));
    assert!(r.is_ok());
    assert_eq!(nav.clipboard_source_path, Some(s("/tmp/a/x.txt")));
    assert_eq!(nav.clipboard_display_name, Some(s("x.txt")));
    let (src, target) = nav.paste_target().unwrap();
    assert_eq!(src, s("/tmp/a/x.txt"));
    assert_eq!(target, src);
    let r = nav.paste(Some(true), Some(names(&["x.txt", "sub"])));
    assert!(r.is_ok());
    let (src2, target2) = nav.paste_target().unwrap();
    assert_eq!(src2, src);
    assert_eq!(target2, target);
}

#[test]
fn paste_with_empty_clipboard_is_silent() {
    let mut nav = loaded_tmp_a();
    assert_eq!(nav.paste_target(), None);
    let r = nav.paste(None, Some(names(&["x.txt", "sub"])));
    assert!(r.is_ok());
}

#[test]
fn paste_copy_failure_reports_copy_error() {
    let mut nav = loaded_tmp_a();
    let r = nav.paste(Some(false), Some(names(&["x.txt", "sub"])));
    assert_eq!(r, Err(NavError::CopyError));
}

#[test]
fn key_table_matches_dispatcher_contract() {
    assert_eq!(operation_for(Key::Quit), Operation::Terminate);
    assert_eq!(operation_for(Key::Down), Operation::MoveDown);
    assert_eq!(operation_for(Key::Up), Operation::MoveUp);
    assert_eq!(operation_for(Key::Right), Operation::EnterEntry);
    assert_eq!(operation_for(Key::Left), Operation::GoBack);
    assert_eq!(operation_for(Key::DeleteKey), Operation::DeleteEntry);
    assert_eq!(operation_for(Key::CopyKey), Operation::CopyEntry);
    assert_eq!(operation_for(Key::PasteKey), Operation::PasteEntry);
    assert_eq!(operation_for(Key::Other), Operation::Ignore);
}

#[test]
fn path_helpers_compute_join_and_parent() {
    assert_eq!(join(&s("/tmp/a"), &s("x.txt")), s("/tmp/a/x.txt"));
    assert_eq!(join(&s("/"), &s("etc")), s("/etc"));
    assert_eq!(parent_of(&s("/tmp/a/sub")), s("/tmp/a"));
    assert_eq!(parent_of(&s("/tmp")), s("/"));
    assert_eq!(parent_of(&s("/")), s("/"));
    assert!(is_root(&s("/")));
    assert!(!is_root(&s("/tmp")));
}

#[test]
fn finish_setup_loads_the_recorded_home() {
    let mut nav = Navigator::new();
    nav.home_directory = s("/home/someone");
    let r = nav.finish_setup(Some(names(&["notes", "mail"])));
    assert!(r.is_ok());
    assert_eq!(nav.current_directory, s("/home/someone"));
    assert_eq!(sorted(&nav.entries.items), sorted(&names(&["mail", "notes"])));
    assert_eq!(nav.entries.selected, Some(0));
}

#[test]
fn setup_home_records_what_it_returns() {
    let mut nav = Navigator::new();
    match nav.setup_home() {
        Ok(h) => {
            assert_eq!(nav.home_directory, h);
            assert_eq!(nav.current_directory, s("/"));
        }
        Err(e) => assert_eq!(e, NavError::HomeResolutionError),
    }
}

#[test]
fn enter_unreadable_target_changes_nothing() {
    let mut nav = loaded_tmp_a();
    nav.entries.advance();
    let before_items = nav.entries.items.clone();
    let r = nav.enter_selected(true, None);
    assert_eq!(r, Err(NavError::FilesystemAccessError));
    assert_eq!(nav.current_directory, s("/tmp/a"));
    assert_eq!(nav.entries.items, before_items);
    assert_eq!(nav.entries.selected, Some(0));
}

#[test]
fn new_navigator_starts_at_root_with_empty_state() {
    let nav = Navigator::new();
    assert_eq!(nav.current_directory, s("/"));
    assert_eq!(nav.home_directory, s("/"));
    assert!(nav.entries.items.is_empty());
    assert_eq!(nav.entries.selected, None);
    assert_eq!(nav.clipboard_source_path, None);
    assert_eq!(nav.clipboard_display_name, None);
}
