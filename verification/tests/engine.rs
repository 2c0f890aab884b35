use modal_input::cursor::{char_width, splice_at, to_storage_offset};
use modal_input::input::{Input, InputCmd};
use modal_input::options::InputCfg;
use modal_input::snap::{InputMode, InputOp};

fn open_with(value: &str, cursor: Option<usize>) -> Input {
    Input::open(&InputCfg::create(false).with_value(value.to_string()).with_cursor(cursor))
}

#[test]
fn storage_offsets_of_ascii() {
    for (cursor, offset) in [(0usize, 0usize), (1, 1), (2, 2), (5, 5)] {
        assert_eq!(to_storage_offset("hello", cursor), Ok(offset));
    }
}

#[test]
fn storage_offsets_skip_multi_byte_characters() {
    // 'h' is one byte, 'é' two, '€' three, '😀' four.
    let content = "hé€😀!";
    assert_eq!(to_storage_offset(content, 0), Ok(0));
    assert_eq!(to_storage_offset(content, 1), Ok(1));
    assert_eq!(to_storage_offset(content, 2), Ok(3));
    assert_eq!(to_storage_offset(content, 3), Ok(6));
    assert_eq!(to_storage_offset(content, 4), Ok(10));
    assert_eq!(to_storage_offset(content, 5), Ok(11));
}

#[test]
fn storage_offset_is_a_char_boundary() {
    let content = "aé€b😀";
    for cursor in 0..=5usize {
        let offset = to_storage_offset(content, cursor).unwrap();
        assert!(content.is_char_boundary(offset));
    }
}

#[test]
fn storage_offset_beyond_end_fails() {
    assert!(to_storage_offset("hi", 3).is_err());
    assert!(to_storage_offset("", 1).is_err());
    assert_eq!(to_storage_offset("", 0), Ok(0));
}

#[test]
fn char_widths() {
    assert_eq!(char_width('a'), 1);
    assert_eq!(char_width('é'), 2);
    assert_eq!(char_width('€'), 3);
    assert_eq!(char_width('😀'), 4);
}

#[test]
fn splice_swaps_one_character() {
    assert_eq!(splice_at("hello", 0, "H"), "Hello");
    assert_eq!(splice_at("hello", 4, "O"), "hellO");
    assert_eq!(splice_at("abc", 1, ""), "ac");
    assert_eq!(splice_at("abc", 1, "xyz"), "axyzc");
}

#[test]
fn replace_str_at_start() {
    let mut input = open_with("hello", Some(0));
    input.replace_str("H");
    assert_eq!(input.value(), "Hello");
    assert_eq!(input.cursor(), 0);
}

#[test]
fn replace_str_at_end_is_noop() {
    let mut input = open_with("hi", Some(2));
    input.take_render();
    input.replace_str("!");
    assert_eq!(input.value(), "hi");
    assert_eq!(input.cursor(), 2);
    // Nothing was committed and no redraw was requested.
    assert_eq!(input.snaps.versions.len(), 1);
    assert!(!input.take_render());
}

#[test]
fn replace_str_swaps_a_multi_byte_character() {
    let mut input = open_with("aéb", Some(1));
    input.replace_str("x");
    assert_eq!(input.value(), "axb");
    // One character swapped for one character: the character length is
    // unchanged even though the byte length shrank.
    assert_eq!(input.value().chars().count(), 3);
    assert_eq!(input.value().len(), 3);
    assert_eq!("aéb".len(), 4);
}

#[test]
fn replace_str_with_multi_character_string() {
    let mut input = open_with("abc", Some(1));
    input.replace_str("XY");
    assert_eq!(input.value(), "aXYc");
    assert_eq!(input.cursor(), 1);
}

#[test]
fn enter_replace_from_normal() {
    let mut input = open_with("a", Some(0));
    input.snaps.current.op = InputOp::Select(0);
    input.replace();
    assert_eq!(input.mode(), InputMode::Replace);
    assert_eq!(input.op(), InputOp::Idle);
}

#[test]
fn enter_replace_again_is_noop() {
    let mut input = open_with("a", Some(0));
    input.replace();
    input.take_render();
    input.replace();
    assert_eq!(input.mode(), InputMode::Replace);
    assert_eq!(input.op(), InputOp::Idle);
    assert!(!input.take_render());
}

#[test]
fn escape_returns_to_normal() {
    let mut input = open_with("a", Some(0));
    input.replace();
    input.escape();
    assert_eq!(input.mode(), InputMode::Normal);
    assert_eq!(input.op(), InputOp::Idle);
}

#[test]
fn escape_in_normal_is_noop() {
    let mut input = open_with("a", Some(0));
    input.take_render();
    input.escape();
    assert_eq!(input.mode(), InputMode::Normal);
    assert!(!input.take_render());
}

#[test]
fn replace_str_changes_only_the_target_bytes() {
    let spliced = splice_at("aéb", 1, "x");
    assert_eq!(spliced.as_bytes(), b"axb");
    let spliced = splice_at("ab", 0, "é");
    assert_eq!(spliced.as_bytes(), "éb".as_bytes());
}

#[test]
fn undo_redo_round_trip() {
    let mut input = open_with("ab", Some(0));
    for s in ["X", "Y", "Z"] {
        input.replace_str(s);
        assert!(input.commit());
    }
    assert_eq!(input.value(), "Zb");
    assert!(input.undo());
    assert_eq!(input.value(), "Yb");
    assert!(input.undo());
    assert_eq!(input.value(), "Xb");
    assert!(input.undo());
    assert_eq!(input.value(), "ab");
    assert!(!input.undo());
    assert!(input.redo());
    assert!(input.redo());
    assert!(input.redo());
    assert!(!input.redo());
    assert_eq!(input.value(), "Zb");
    assert_eq!(input.cursor(), 0);
}

#[test]
fn redo_after_new_commit_is_noop() {
    let mut input = open_with("ab", Some(0));
    input.replace_str("X");
    assert!(input.commit());
    assert!(input.undo());
    assert_eq!(input.value(), "ab");
    input.replace_str("Q");
    assert!(input.commit());
    assert!(!input.redo());
    assert_eq!(input.value(), "Qb");
}

#[test]
fn commit_without_change_pushes_nothing() {
    let mut input = open_with("ab", Some(0));
    assert!(!input.commit());
    assert_eq!(input.snaps.versions.len(), 1);
    input.replace_str("X");
    assert!(input.commit());
    assert!(!input.commit());
    assert_eq!(input.snaps.versions.len(), 2);
}

#[test]
fn cursor_defaults_to_end_and_is_clamped() {
    let input = open_with("abc", None);
    assert_eq!(input.cursor(), 3);
    let input = open_with("abc", Some(7));
    assert_eq!(input.cursor(), 3);
    let input = open_with("abc", Some(2));
    assert_eq!(input.cursor(), 2);
}

#[test]
fn realtime_session_flushes_every_mutation() {
    let cfg = InputCfg::filter().with_value("ab".to_string()).with_cursor(Some(0));
    let mut input = Input::open(&cfg);
    assert_eq!(input.take_flushed(), None);
    input.replace_str("X");
    assert_eq!(input.take_flushed(), Some("Xb".to_string()));
    assert_eq!(input.take_flushed(), None);
}

#[test]
fn non_realtime_session_flushes_nothing() {
    let mut input = open_with("ab", Some(0));
    input.replace_str("X");
    assert_eq!(input.take_flushed(), None);
    assert_eq!(input.close(), "Xb");
}

#[test]
fn render_signal_is_edge_triggered() {
    let mut input = open_with("ab", Some(0));
    assert!(input.take_render());
    assert!(!input.take_render());
    input.replace_str("X");
    assert!(input.take_render());
    assert!(!input.take_render());
}

#[test]
fn execute_dispatches_commands() {
    let mut input = open_with("ab", Some(0));
    input.execute(&InputCmd::Replace);
    assert_eq!(input.mode(), InputMode::Replace);
    input.execute(&InputCmd::ReplaceStr("Z".to_string()));
    assert_eq!(input.value(), "Zb");
    input.execute(&InputCmd::Escape);
    assert_eq!(input.mode(), InputMode::Normal);
    input.execute(&InputCmd::Commit);
    input.execute(&InputCmd::Undo);
    assert_eq!(input.value(), "ab");
    input.execute(&InputCmd::Redo);
    assert_eq!(input.value(), "Zb");
}
