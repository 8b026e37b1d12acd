use rawg::file_explorer::{EnterResult, EntryKind, FileExplorer, ListedEntry};

fn listed(name: &str, path: &str, is_dir: bool) -> ListedEntry {
    ListedEntry::new(name.to_string(), path.to_string(), is_dir)
}

fn explorer_in(dir: &str) -> FileExplorer {
    FileExplorer::new(Some(dir.to_string()))
}

fn names(e: &FileExplorer) -> Vec<String> {
    e.entries.iter().map(|d| d.name.clone()).collect()
}

#[test]
fn new_uses_home_or_root() {
    let e = explorer_in("/home/user");
    assert_eq!(e.current_dir, "/home/user");
    assert!(e.entries.is_empty());
    assert_eq!(e.selected, 0);
    assert_eq!(e.scroll_offset, 0);
    let root = FileExplorer::new(None);
    assert_eq!(root.current_dir, "/");
}

#[test]
fn reload_orders_directories_then_files_by_name() {
    let mut e = explorer_in("/home/user");
    e.reload(vec![
        listed("zeta.conf", "/home/user/zeta.conf", false),
        listed("docs", "/home/user/docs", true),
        listed(".hidden", "/home/user/.hidden", true),
        listed("alpha.txt", "/home/user/alpha.txt", false),
        listed("Music", "/home/user/Music", true),
        listed(".bashrc", "/home/user/.bashrc", false),
        listed("beta.conf", "/home/user/beta.conf", false),
    ]);
    assert_eq!(
        names(&e),
        vec!["..", "Music", "docs", "alpha.txt", "beta.conf", "zeta.conf"]
    );
    assert_eq!(e.entries[0].path, "/home");
    assert!(e.entries[0].is_dir);
    assert!(!e.entries[0].is_conf);
    assert!(e.entries[1].is_dir && e.entries[2].is_dir);
    assert!(!e.entries[3].is_conf);
    assert!(e.entries[4].is_conf);
    assert!(e.entries[5].is_conf);
    assert_eq!(e.selected, 0);
    assert_eq!(e.scroll_offset, 0);
}

#[test]
fn reload_at_root_has_no_parent_row() {
    let mut e = FileExplorer::new(None);
    e.reload(vec![listed("etc", "/etc", true)]);
    assert_eq!(names(&e), vec!["etc"]);
    let mut empty = FileExplorer::new(None);
    empty.reload(vec![]);
    assert!(empty.entries.is_empty());
}

#[test]
fn reload_sorts_by_code_point() {
    let mut e = explorer_in("/d");
    e.reload(vec![
        listed("b", "/d/b", false),
        listed("ab", "/d/ab", false),
        listed("a", "/d/a", false),
        listed("B", "/d/B", false),
        listed("é", "/d/é", false),
        listed("z", "/d/z", false),
    ]);
    assert_eq!(names(&e), vec!["..", "B", "a", "ab", "b", "z", "é"]);
}

#[test]
fn conf_extension_is_exact() {
    let mut e = explorer_in("/d");
    e.reload(vec![
        listed("a.conf", "/d/a.conf", false),
        listed("b.CONF", "/d/b.CONF", false),
        listed("c.conf.bak", "/d/c.conf.bak", false),
        listed("conf", "/d/conf", false),
        listed("d.config", "/d/d.config", false),
    ]);
    let flags: Vec<bool> = e.entries.iter().skip(1).map(|d| d.is_conf).collect();
    assert_eq!(flags, vec![true, false, false, false, false]);
}

#[test]
fn reload_resets_selection() {
    let mut e = explorer_in("/d");
    e.reload(vec![listed("a", "/d/a", false), listed("b", "/d/b", false)]);
    e.move_down(20);
    e.move_down(20);
    assert_eq!(e.selected, 2);
    e.reload(vec![listed("a", "/d/a", false)]);
    assert_eq!(e.selected, 0);
    assert_eq!(e.scroll_offset, 0);
}

fn explorer_with(n: usize) -> FileExplorer {
    let mut e = FileExplorer::new(None);
    let listing = (0..n)
        .map(|i| listed(&format!("f{:02}", i), &format!("/f{:02}", i), false))
        .collect();
    e.reload(listing);
    e
}

#[test]
fn move_down_scrolls_when_leaving_window() {
    let mut e = explorer_with(5);
    e.move_down(2);
    assert_eq!((e.selected, e.scroll_offset), (1, 0));
    e.move_down(2);
    assert_eq!((e.selected, e.scroll_offset), (2, 1));
    e.move_down(2);
    assert_eq!((e.selected, e.scroll_offset), (3, 2));
    e.move_down(2);
    assert_eq!((e.selected, e.scroll_offset), (4, 3));
    e.move_down(2);
    assert_eq!((e.selected, e.scroll_offset), (4, 3));
}

#[test]
fn move_up_scrolls_when_leaving_window() {
    let mut e = explorer_with(5);
    for _ in 0..4 {
        e.move_down(2);
    }
    e.move_up();
    assert_eq!((e.selected, e.scroll_offset), (3, 3));
    e.move_up();
    assert_eq!((e.selected, e.scroll_offset), (2, 2));
    e.move_up();
    e.move_up();
    assert_eq!((e.selected, e.scroll_offset), (0, 0));
    e.move_up();
    assert_eq!((e.selected, e.scroll_offset), (0, 0));
}

#[test]
fn up_then_down_returns_to_the_same_row() {
    let mut e = explorer_with(6);
    e.move_down(3);
    e.move_down(3);
    let before = e.selected;
    e.move_up();
    e.move_down(3);
    assert_eq!(e.selected, before);
    e.move_down(3);
    e.move_up();
    assert_eq!(e.selected, before);
}

#[test]
fn selection_stays_in_window() {
    let mut e = explorer_with(30);
    let h = 4;
    for step in 0..60 {
        if step % 3 == 2 {
            e.move_up();
        } else {
            e.move_down(h);
        }
        assert!(e.scroll_offset <= e.selected && e.selected < e.scroll_offset + h);
    }
}

#[test]
fn move_down_in_empty_list_does_nothing() {
    let mut e = explorer_with(0);
    e.move_down(20);
    assert_eq!((e.selected, e.scroll_offset), (0, 0));
    assert!(e.selected_entry().is_none());
}

#[test]
fn enter_directory_changes_current_dir() {
    let mut e = explorer_in("/home/user");
    e.reload(vec![listed("docs", "/home/user/docs", true)]);
    e.move_down(20);
    match e.enter() {
        EnterResult::Directory => {}
        _ => panic!("expected a directory"),
    }
    assert_eq!(e.current_dir, "/home/user/docs");
}

#[test]
fn enter_parent_row_goes_up() {
    let mut e = explorer_in("/home/user");
    e.reload(vec![]);
    assert!(matches!(e.enter(), EnterResult::Directory));
    assert_eq!(e.current_dir, "/home");
}

#[test]
fn enter_conf_file_returns_its_path() {
    let mut e = explorer_in("/d");
    e.reload(vec![listed("wg0.conf", "/d/wg0.conf", false), listed("notes.txt", "/d/notes.txt", false)]);
    e.move_down(20);
    e.move_down(20);
    match e.enter() {
        EnterResult::Config(p) => assert_eq!(p, "/d/wg0.conf"),
        _ => panic!("expected a config"),
    }
    assert_eq!(e.current_dir, "/d");
    e.move_up();
    assert!(matches!(e.enter(), EnterResult::Ignored));
    assert_eq!(e.current_dir, "/d");
}

#[test]
fn selected_entry_follows_selection() {
    let mut e = explorer_in("/d");
    e.reload(vec![listed("x", "/d/x", false)]);
    assert_eq!(e.selected_entry().unwrap().name, "..");
    e.move_down(20);
    assert_eq!(e.selected_entry().unwrap().name, "x");
}

#[test]
fn visible_rows_window() {
    let mut e = explorer_in("/d");
    e.reload(vec![
        listed("sub", "/d/sub", true),
        listed("a.conf", "/d/a.conf", false),
        listed("b.txt", "/d/b.txt", false),
    ]);
    let rows = e.visible_rows(2);
    assert_eq!(rows.len(), 2);
    assert_eq!(rows[0].index, 0);
    assert_eq!(rows[0].kind, EntryKind::Directory);
    assert!(rows[0].selected);
    assert_eq!(rows[1].kind, EntryKind::Directory);
    for _ in 0..3 {
        e.move_down(2);
    }
    assert_eq!((e.selected, e.scroll_offset), (3, 2));
    let rows = e.visible_rows(2);
    assert_eq!(rows.len(), 2);
    assert_eq!((rows[0].index, rows[0].kind, rows[0].selected), (2, EntryKind::Config, false));
    assert_eq!((rows[1].index, rows[1].kind, rows[1].selected), (3, EntryKind::Other, true));
    assert_eq!(e.highlight_position(), 1);
    assert_eq!(e.visible_rows(0).len(), 0);
    assert_eq!(e.visible_rows(100).len(), 2);
}

#[test]
fn reload_agrees_with_string_order_on_many_names() {
    let mut names_in: Vec<String> = Vec::new();
    let mut x: u64 = 12345;
    for _ in 0..500 {
        x = x.wrapping_mul(6364136223846793005).wrapping_add(1442695040888963407);
        let len = (x >> 60) as usize + 1;
        let pool = ['a', 'b', 'Z', '_', '0', 'é', 'ж', '€', '.'];
        let name: String = (0..len)
            .map(|k| pool[((x >> (k * 5)) % pool.len() as u64) as usize])
            .collect();
        names_in.push(name);
    }
    let listing: Vec<ListedEntry> = names_in
        .iter()
        .enumerate()
        .map(|(i, n)| listed(n, &format!("/d/{}", i), i % 3 == 0))
        .collect();
    let mut e = FileExplorer::new(None);
    e.reload(listing);
    let mut dirs: Vec<String> = names_in
        .iter()
        .enumerate()
        .filter(|(i, n)| i % 3 == 0 && !n.starts_with('.'))
        .map(|(_, n)| n.clone())
        .collect();
    let mut files: Vec<String> = names_in
        .iter()
        .enumerate()
        .filter(|(i, n)| i % 3 != 0 && !n.starts_with('.'))
        .map(|(_, n)| n.clone())
        .collect();
    dirs.sort();
    files.sort();
    let mut expected = dirs;
    expected.extend(files);
    assert_eq!(names(&e), expected);
}

#[test]
fn equal_names_keep_listing_order() {
    let mut e = FileExplorer::new(None);
    e.reload(vec![
        listed("same", "/one", false),
        listed("a", "/a", false),
        listed("same", "/two", false),
    ]);
    let paths: Vec<String> = e.entries.iter().map(|d| d.path.clone()).collect();
    assert_eq!(paths, vec!["/a", "/one", "/two"]);
}
