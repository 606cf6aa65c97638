use kannaka_tui::input::InputBar;

fn typed(text: &str) -> InputBar {
    let mut bar = InputBar::new();
    for c in text.chars() {
        bar.type_char(c);
    }
    bar
}

#[test]
fn characters_are_typed_at_the_cursor() {
    let mut bar = typed("ac");
    bar.left();
    bar.type_char('b');
    assert_eq!((bar.text.as_str(), bar.cursor), ("abc", 2));
}

#[test]
fn typing_and_taking_back_changes_nothing() {
    for c in ['x', '\u{e9}', '\u{1f600}'] {
        let mut bar = typed("abcd");
        bar.left();
        bar.left();
        bar.type_char(c);
        bar.backspace();
        assert_eq!((bar.text.as_str(), bar.cursor), ("abcd", 2));
    }
}

#[test]
fn the_cursor_moves_by_a_byte() {
    let mut bar = InputBar::new();
    bar.type_char('\u{e9}');
    assert_eq!((bar.text.as_str(), bar.cursor), ("\u{e9}", 1));
    bar.right();
    assert_eq!(bar.cursor, 2);
    bar.right();
    assert_eq!(bar.cursor, 2);
    bar.type_char('x');
    assert_eq!((bar.text.as_str(), bar.cursor), ("\u{e9}x", 3));
}

#[test]
fn keys_stop_at_the_ends() {
    let mut bar = typed("ab");
    bar.delete();
    assert_eq!(bar.text, "ab");
    bar.right();
    assert_eq!(bar.cursor, 2);
    bar.home();
    assert_eq!(bar.cursor, 0);
    bar.left();
    bar.backspace();
    assert_eq!((bar.text.as_str(), bar.cursor), ("ab", 0));
    bar.delete();
    assert_eq!((bar.text.as_str(), bar.cursor), ("b", 0));
    bar.end();
    assert_eq!(bar.cursor, 1);
    bar.clear();
    assert_eq!((bar.text.as_str(), bar.cursor), ("", 0));
}

#[test]
fn the_history_is_walked_both_ways() {
    let mut bar = InputBar::new();
    bar.up();
    bar.down();
    assert_eq!((bar.text.as_str(), bar.history_idx), ("", None));
    for line in ["one", "two", "tr\u{e9}s"] {
        bar.record(line);
    }
    bar.up();
    assert_eq!((bar.text.as_str(), bar.cursor, bar.history_idx), ("tr\u{e9}s", 5, Some(2)));
    bar.up();
    bar.up();
    bar.up();
    assert_eq!((bar.text.as_str(), bar.history_idx), ("one", Some(0)));
    bar.down();
    assert_eq!((bar.text.as_str(), bar.history_idx), ("two", Some(1)));
    bar.down();
    bar.down();
    assert_eq!((bar.text.as_str(), bar.cursor, bar.history_idx), ("", 0, None));
    bar.down();
    assert_eq!(bar.history_idx, None);
}

#[test]
fn recording_leaves_the_walk() {
    let mut bar = InputBar::new();
    bar.record("one");
    bar.up();
    bar.record("two");
    assert_eq!(bar.history_idx, None);
    bar.up();
    assert_eq!(bar.text, "two");
}

#[test]
fn the_line_has_no_blanks_around_it() {
    assert_eq!(typed("  a b ").line(), "a b");
    assert_eq!(typed("   ").line(), "");
}
