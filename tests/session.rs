use zed::backend::buffer::{Buffer, Mode};
use zed::backend::editor;
use zed::error::Error;
use zed::key::Key;
use zed::language::Language;
use zed::ui::editor::{command_for, Command, Editor, EditorAction};

fn open(path: &str, text: &str) -> Editor {
    let mut b = Buffer::new();
    b.set_path(path, text);
    let mut s = Editor::new();
    s.set_editor(editor::Editor::new());
    s.push_buf(b);
    s
}

#[test]
fn new_buffer_is_one_empty_line() {
    let b = Buffer::new();
    assert_eq!(b.line_count, 1);
    assert!(b.p.is_none());
    assert_eq!(b.mode, Mode::Normal);
    assert_eq!(b.lang, Language::Txt);
}

#[test]
fn set_path_counts_lines() {
    let mut b = Buffer::new();
    b.set_path("notes.md", "one\ntwo\nthree\n");
    assert_eq!(b.line_count, 4);
    assert_eq!(b.p.as_deref(), Some("notes.md"));
    assert_eq!(b.lang, Language::Markdown);
    assert_eq!(b.lang_str, "\u{e73e} Markdown");
    b.set_path("x.txt", "a\r\nb\rc");
    assert_eq!(b.line_count, 3);
    b.set_path("y.txt", "no break");
    assert_eq!(b.line_count, 1);
}

#[test]
fn set_mode_switches_only_the_mode() {
    let mut b = Buffer::new();
    b.set_path("a.rs", "x\n");
    b.set_mode(Mode::Visual);
    assert_eq!(b.mode, Mode::Visual);
    assert_eq!(b.line_count, 2);
}

#[test]
fn three_line_file_down_to_boundary() {
    let mut b3 = Buffer::new();
    b3.set_path("three.txt", "one\ntwo\nthree\n");
    let mut s = Editor::new();
    assert_eq!(s.current_line, 1);
    assert_eq!(s.move_down(&b3), Ok(()));
    assert_eq!(s.move_down(&b3), Ok(()));
    assert_eq!(s.current_line, 3);
    assert_eq!(s.move_down(&b3), Err(Error::CouldNotMove));
    assert_eq!(s.current_line, 3);
}

#[test]
fn three_line_file_down_keys() {
    let mut s = open("three.txt", "one\ntwo\nthree\n");
    assert_eq!(s.handle_key(Key::Down), EditorAction::Redraw);
    assert_eq!(s.handle_key(Key::Down), EditorAction::Redraw);
    assert_eq!(s.current_line, 3);
    s.handle_key(Key::Down);
    assert_eq!(s.current_line, 3);
}

#[test]
fn move_up_stops_at_line_one() {
    let mut s = Editor::new();
    assert_eq!(s.move_up(), Err(Error::CouldNotMove));
    for _ in 0..20 {
        let _ = s.move_up();
    }
    assert_eq!(s.current_line, 1);
}

#[test]
fn move_up_after_down() {
    let mut b = Buffer::new();
    b.set_path("f", "a\nb\nc\nd\n");
    let mut s = Editor::new();
    s.move_down(&b).unwrap();
    s.move_down(&b).unwrap();
    assert_eq!(s.move_up(), Ok(()));
    assert_eq!(s.current_line, 2);
}

#[test]
fn move_down_many_times_stops_before_last_line() {
    let mut b = Buffer::new();
    b.set_path("f", "1\n2\n3\n4\n5\n6\n7");
    assert_eq!(b.line_count, 7);
    let mut s = Editor::new();
    for _ in 0..(b.line_count + 10) {
        let _ = s.move_down(&b);
    }
    assert_eq!(s.current_line, b.line_count - 1);
}

#[test]
fn move_down_in_one_line_document_fails() {
    let b = Buffer::new();
    let mut s = Editor::new();
    assert_eq!(s.move_down(&b), Err(Error::CouldNotMove));
    assert_eq!(s.current_line, 1);
}

#[test]
fn mode_keys() {
    let mut s = open("a.rs", "fn main() {}\nx\ny\n");
    assert_eq!(s.mode(), Mode::Normal);
    s.handle_key(Key::Char('k'));
    assert_eq!(s.current_line, 2);
    assert_eq!(s.handle_key(Key::Char('i')), EditorAction::Redraw);
    assert_eq!(s.mode(), Mode::Insert);
    assert_eq!(s.current_line, 2);
    assert_eq!(s.handle_key(Key::Char('k')), EditorAction::Ignore);
    assert_eq!(s.current_line, 2);
    assert_eq!(s.handle_key(Key::Esc), EditorAction::Redraw);
    assert_eq!(s.mode(), Mode::Normal);
    s.handle_key(Key::Char('v'));
    assert_eq!(s.mode(), Mode::Visual);
    s.handle_key(Key::Char('j'));
    assert_eq!(s.current_line, 1);
    assert_eq!(s.handle_key(Key::Ctrl('q')), EditorAction::Quit);
}

#[test]
fn keys_without_document() {
    let mut s = Editor::new();
    assert_eq!(s.handle_key(Key::Down), EditorAction::Ignore);
    assert_eq!(s.handle_key(Key::Char('i')), EditorAction::Ignore);
    assert_eq!(s.mode(), Mode::Normal);
    assert!(s.view(80, 24).is_none());
}

#[test]
fn key_bindings_table() {
    assert_eq!(command_for(Mode::Normal, Key::Char('i')), Command::SetMode(Mode::Insert));
    assert_eq!(command_for(Mode::Insert, Key::Char('i')), Command::Nothing);
    assert_eq!(command_for(Mode::Visual, Key::Esc), Command::SetMode(Mode::Normal));
    assert_eq!(command_for(Mode::Normal, Key::Esc), Command::Nothing);
    assert_eq!(command_for(Mode::Insert, Key::Up), Command::Up);
    assert_eq!(command_for(Mode::Normal, Key::Ctrl('q')), Command::Quit);
}

#[test]
fn arena_keeps_active_index() {
    let mut e = editor::Editor::new();
    e.set_dir("/tmp".to_string());
    e.set_anon();
    e.push_buf(Buffer::new());
    let mut b = Buffer::new();
    b.set_path("b.rs", "");
    e.push_buf(b);
    assert_eq!(e.num_buf, 2);
    assert_eq!(e.cur_buf, Some(1));
    assert_eq!(e.current().unwrap().lang, Language::Rust);
    e.set_current_mode(Mode::Insert);
    assert_eq!(e.buffers[1].mode, Mode::Insert);
    assert_eq!(e.buffers[0].mode, Mode::Normal);
    assert!(e.anon);
    assert_eq!(e.dir.as_deref(), Some("/tmp"));
}

#[test]
fn error_messages() {
    assert_eq!(Error::CouldNotMove.message(), "Position out of bounds");
    assert_eq!(Error::ConfigNotFound.message(), "Could not resolve config file");
}

#[test]
fn new_arena_puts_cursor_on_line_one() {
    let mut b = Buffer::new();
    b.set_path("f", "a\nb\nc\n");
    let mut s = Editor::new();
    s.move_down(&b).unwrap();
    assert_eq!(s.current_line, 2);
    s.set_editor(editor::Editor::new());
    assert_eq!(s.current_line, 1);
}
