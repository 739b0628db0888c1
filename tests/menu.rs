use zed::cli::{answer_is_yes, is_yes, resolve_target, ArgsOutcome, Cli, PathKind, Target};
use zed::error::Error;
use zed::key::Key;
use zed::ui::dashboard::{Dashboard, DashboardAction};

fn args(v: &[&str]) -> Vec<String> {
    v.iter().map(|s| s.to_string()).collect()
}

#[test]
fn dashboard_moves_between_three_options() {
    let mut d = Dashboard::new();
    d.set_dir("/home".to_string());
    assert_eq!(d.dir, "/home");
    assert_eq!(d.selected_option, 1);
    assert_eq!(d.handle_key(Key::Up), DashboardAction::Ignore);
    assert_eq!(d.handle_key(Key::Down), DashboardAction::Moved);
    assert_eq!(d.handle_key(Key::Char('j')), DashboardAction::Moved);
    assert_eq!(d.handle_key(Key::Down), DashboardAction::Ignore);
    assert_eq!(d.selected_option, 3);
    assert_eq!(d.handle_key(Key::Enter), DashboardAction::Ignore);
    assert_eq!(d.handle_key(Key::Char('k')), DashboardAction::Moved);
    assert_eq!(d.selected_option, 2);
}

#[test]
fn dashboard_opens_finder() {
    let mut d = Dashboard::new();
    assert_eq!(d.handle_key(Key::Tab), DashboardAction::OpenFinder);
    assert_eq!(d.handle_key(Key::Char(' ')), DashboardAction::Ignore);
    assert!(d.leader);
    assert_eq!(d.handle_key(Key::Char('f')), DashboardAction::OpenFinder);
    assert!(!d.leader);
    d.handle_key(Key::Char(' '));
    assert_eq!(d.handle_key(Key::Char('g')), DashboardAction::Ignore);
    assert_eq!(d.handle_key(Key::Ctrl('q')), DashboardAction::Quit);
    assert!(d.banner.contains("\u{2588}"));
}

#[test]
fn cli_defaults() {
    let c = Cli::from_args();
    assert!(matches!(c.target, Target::Empty));
    assert!(!c.backup);
    assert_eq!(c.config.as_deref(), Some("~/.config/zed/config.ron"));
}

fn no_files(n: usize) -> Vec<bool> {
    vec![false; n]
}

#[test]
fn cli_backup_flag() {
    let mut c = Cli::from_args();
    let out = c.parse_args(&args(&["zed", "-b"]), &no_files(2));
    assert!(matches!(out, Ok(ArgsOutcome::Run(ref p)) if p.is_empty()));
    assert!(c.backup);
    assert!(matches!(c.target, Target::Empty));
    assert_eq!(c.config.as_deref(), Some("~/.config/zed/config.ron"));
}

#[test]
fn cli_reads_arguments() {
    let mut c = Cli::from_args();
    let a = args(&["zed", "--backup", "--config", "my.ron", "file.rs", "other"]);
    let files = vec![false, false, false, true, false, false];
    match c.parse_args(&a, &files) {
        Ok(ArgsOutcome::Run(p)) => assert_eq!(p, vec!["file.rs".to_string(), "other".to_string()]),
        _ => panic!("expected the path arguments"),
    }
    assert!(c.backup);
    assert_eq!(c.config.as_deref(), Some("my.ron"));
}

#[test]
fn cli_config_must_be_a_file() {
    let mut c = Cli::from_args();
    let a = args(&["zed", "-b", "-c", "missing.ron"]);
    assert!(matches!(c.parse_args(&a, &no_files(4)), Err(Error::ConfigNotFound)));
    assert!(!c.backup);
    assert_eq!(c.config.as_deref(), Some("~/.config/zed/config.ron"));
    assert!(matches!(c.parse_args(&args(&["zed", "-c"]), &no_files(2)), Err(Error::ConfigNotFound)));
    // A short list of answers counts as "not a file".
    assert!(matches!(c.parse_args(&args(&["zed", "-c", "x"]), &Vec::new()), Err(Error::ConfigNotFound)));
}

#[test]
fn cli_help_and_invalid_options() {
    let mut c = Cli::from_args();
    assert!(matches!(c.parse_args(&args(&["zed", "-h", "-x"]), &no_files(3)), Ok(ArgsOutcome::Help)));
    let out = c.parse_args(&args(&["zed", "a.rs", "-x", "-h"]), &no_files(4));
    assert!(matches!(out, Ok(ArgsOutcome::Invalid(ref o)) if o == "-x"));
    assert!(matches!(c.parse_args(&args(&["zed"]), &no_files(1)), Ok(ArgsOutcome::Run(ref p)) if p.is_empty()));
}

#[test]
fn cli_settings() {
    let mut c = Cli::from_args();
    c.set_target(Target::Dir(".".to_string()));
    assert!(matches!(&c.target, Target::Dir(p) if p == "."));
    assert!(Cli::usage().starts_with("Usage:"));
}

#[test]
fn path_resolution() {
    assert!(matches!(resolve_target("a".to_string(), PathKind::File, false), Target::File(p) if p == "a"));
    assert!(matches!(resolve_target("d".to_string(), PathKind::Dir, false), Target::Dir(p) if p == "d"));
    assert!(matches!(resolve_target("n".to_string(), PathKind::Missing, true), Target::File(p) if p == "n"));
    assert!(matches!(resolve_target("n".to_string(), PathKind::Missing, false), Target::Empty));
}

#[test]
fn creation_answer() {
    assert!(answer_is_yes("yes\n"));
    assert!(answer_is_yes("  YeS \n"));
    assert!(!answer_is_yes("y\n"));
    assert!(!answer_is_yes("no"));
    assert!(!answer_is_yes("yes please"));
    assert!(answer_is_yes("\u{3000}yes\u{a0}"));
    assert!(is_yes("yes"));
    assert!(!is_yes("YES"));
}
