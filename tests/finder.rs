use zed::key::Key;
use zed::ui::finder::{
    search_entries, FileFinder, FileResult, FinderAction, Walk, WalkEntry, WalkStep, MAX_CHECKS,
    MAX_RESULTS,
};

fn entry(path: &str, is_dir: bool) -> WalkEntry {
    WalkEntry { path: path.to_string(), is_dir }
}

fn tree() -> Vec<WalkEntry> {
    vec![
        entry("./src", true),
        entry("./src/main.rs", false),
        entry("./README.md", false),
        entry("./.git", true),
        entry("./.git/HEAD", false),
        entry("./target", true),
        entry("./target/debug", true),
        entry("./target/debug/main", false),
        entry("./target/release/main.d", false),
        entry("./docs", true),
    ]
}

fn paths(r: &[FileResult]) -> Vec<String> {
    r.iter().map(|x| x.path.clone()).collect()
}

#[test]
fn query_main_finds_only_main_rs() {
    let r = search_entries("main", &tree());
    assert_eq!(paths(&r), vec!["./src/main.rs".to_string()]);
    assert_eq!(r[0].icon, "\u{e7a8}");
}

#[test]
fn empty_query_lists_every_file_not_excluded() {
    let r = search_entries("", &tree());
    assert_eq!(paths(&r), vec!["./src/main.rs".to_string(), "./README.md".to_string()]);
    assert_eq!(r[1].icon, "\u{e73e}");
}

#[test]
fn no_match_gives_nothing() {
    assert!(search_entries("zzz", &tree()).is_empty());
    assert!(search_entries("", &Vec::new()).is_empty());
}

#[test]
fn results_are_capped() {
    let entries: Vec<WalkEntry> = (0..100).map(|i| entry(&format!("f{}.txt", i), false)).collect();
    let r = search_entries("", &entries);
    assert_eq!(r.len(), MAX_RESULTS);
    assert_eq!(r.len(), 30);
    assert_eq!(r[29].path, "f29.txt");
}

#[test]
fn checks_are_capped() {
    let mut entries: Vec<WalkEntry> = (0..2000).map(|i| entry(&format!("d{}", i), true)).collect();
    entries.push(entry("late.rs", false));
    assert!(search_entries("", &entries).is_empty());
    let mut few: Vec<WalkEntry> = (0..1023).map(|i| entry(&format!("d{}", i), true)).collect();
    few.push(entry("just_in_time.rs", false));
    assert_eq!(search_entries("", &few).len(), 1);
    assert_eq!(MAX_CHECKS, 1024);
}

#[test]
fn excluded_entries_are_not_counted() {
    let mut entries: Vec<WalkEntry> =
        (0..3000).map(|i| entry(&format!("x/.git/objects/o{}", i), false)).collect();
    entries.push(entry("x/kept.rs", false));
    assert_eq!(paths(&search_entries("", &entries)), vec!["x/kept.rs".to_string()]);
}

#[test]
fn walk_answers() {
    let mut w = Walk::new("a");
    assert_eq!(w.visit("./.git", true), WalkStep::SkipDir);
    assert_eq!(w.visit("./.git/config", false), WalkStep::Continue);
    assert_eq!(w.visit("./target/release", true), WalkStep::SkipDir);
    assert_eq!(w.visit("./src", true), WalkStep::Continue);
    assert_eq!(w.visit("./src/a.rs", false), WalkStep::Continue);
    assert!(!w.is_stopped());
    for i in 0..29 {
        let step = w.visit(&format!("./a{}", i), false);
        assert_eq!(step, if i == 28 { WalkStep::Stop } else { WalkStep::Continue });
    }
    assert!(w.is_stopped());
    assert_eq!(w.visit("./b.rs", false), WalkStep::Stop);
    let r = w.into_results();
    assert_eq!(r.len(), 30);
    assert_eq!(r[0].path, "./src/a.rs");
}

#[test]
fn file_result_text() {
    let r = FileResult::new();
    assert_eq!(r.path, "");
    assert_eq!(r.icon, "");
    let r = search_entries("", &vec![entry("a.py", false)]);
    assert_eq!(r[0].display_text(), "\u{e73c}  a.py");
}

fn finder_with_results(n: usize) -> FileFinder {
    let mut f = FileFinder::new();
    f.set_dir(".".to_string());
    let entries: Vec<WalkEntry> = (0..n).map(|i| entry(&format!("./f{}", i), false)).collect();
    f.search_dir(&entries);
    f
}

#[test]
fn selection_moves_and_clears() {
    let mut f = finder_with_results(3);
    assert_eq!(f.results.len(), 3);
    assert_eq!(f.currently_selected_index, None);
    assert!(matches!(f.handle_key(Key::Down), FinderAction::Moved));
    assert_eq!(f.currently_selected_index, None);
    f.handle_key(Key::Up);
    assert_eq!(f.currently_selected_index, Some(0));
    f.handle_key(Key::Up);
    f.handle_key(Key::Up);
    f.handle_key(Key::Up);
    assert_eq!(f.currently_selected_index, Some(2));
    f.handle_key(Key::Down);
    assert_eq!(f.currently_selected_index, Some(1));
    match f.handle_key(Key::Enter) {
        FinderAction::Open(p) => assert_eq!(p, "./f1"),
        _ => panic!("expected the selected file"),
    }
    f.handle_key(Key::Down);
    f.handle_key(Key::Down);
    assert_eq!(f.currently_selected_index, None);
    assert!(matches!(f.handle_key(Key::Enter), FinderAction::Ignore));
    assert!(matches!(f.handle_key(Key::Esc), FinderAction::Close));
}

#[test]
fn up_with_no_results_keeps_focus_on_query() {
    let mut f = FileFinder::new();
    f.handle_key(Key::Up);
    assert_eq!(f.currently_selected_index, None);
}

#[test]
fn typing_edits_the_query_and_requeries() {
    let mut f = FileFinder::new();
    assert!(matches!(f.handle_key(Key::Char('m')), FinderAction::Search));
    assert!(matches!(f.handle_key(Key::Char('a')), FinderAction::Search));
    assert_eq!(f.search, "ma");
    f.search_dir(&tree());
    assert_eq!(paths(&f.results), vec!["./src/main.rs".to_string()]);
    assert!(matches!(f.handle_key(Key::Backspace), FinderAction::Search));
    assert_eq!(f.search, "m");
    f.handle_key(Key::Backspace);
    assert_eq!(f.search, "");
    assert!(matches!(f.handle_key(Key::Backspace), FinderAction::Ignore));
    assert!(matches!(f.handle_key(Key::Tab), FinderAction::Ignore));
}

#[test]
fn selection_is_revalidated_after_requery() {
    let mut f = finder_with_results(5);
    for _ in 0..5 {
        f.handle_key(Key::Up);
    }
    assert_eq!(f.currently_selected_index, Some(4));
    f.handle_key(Key::Char('1'));
    let mut w = f.start_walk();
    for e in [("./f1", false), ("./f10", false), ("./f2", false)] {
        w.visit(e.0, e.1);
    }
    f.finish_walk(w);
    assert_eq!(f.results.len(), 2);
    assert_eq!(f.currently_selected_index, Some(1));
    f.handle_key(Key::Char('x'));
    f.search_dir(&tree());
    assert!(f.results.is_empty());
    assert_eq!(f.currently_selected_index, None);
}
