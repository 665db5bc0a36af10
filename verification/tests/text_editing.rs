use fui::text_box::{
    ClipboardRequest, DefaultTextBoxStyle, DefaultTextBoxStyleParams, EditKey, KeyPress,
    TextBoxEvent,
};
use fui::text_buffer::{chars_of, string_from_chars, TextBuffer};

fn key(code: EditKey, shift: bool, ctrl: bool) -> KeyPress {
    KeyPress { keycode: Some(code), shift, ctrl, text: None }
}

fn typed(text: &str) -> KeyPress {
    KeyPress { keycode: None, shift: false, ctrl: false, text: Some(text.to_string()) }
}

#[test]
fn new_buffer_puts_cursor_at_end() {
    let b = TextBuffer::new("héllo".to_string());
    assert_eq!(b.get_text_property(), "héllo");
    assert_eq!(b.get_cursor(), 5);
    assert_eq!(b.get_selection_start(), 5);
    assert_eq!(b.get_selection(), None);
}

#[test]
fn chars_round_trip() {
    let v = chars_of("ab ć");
    assert_eq!(v, vec!['a', 'b', ' ', 'ć']);
    assert_eq!(string_from_chars(&v), "ab ć");
}

#[test]
fn set_cursor_clamps_and_extends() {
    let mut b = TextBuffer::new("hello".to_string());
    b.set_cursor(99, false);
    assert_eq!(b.get_cursor(), 5);
    b.set_cursor(1, true);
    assert_eq!(b.get_selection(), Some((1, 5)));
    assert_eq!(b.get_selected_string(), Some("ello".to_string()));
    b.set_cursor(2, false);
    assert_eq!(b.get_selection(), None);
    assert_eq!(b.get_selected_string(), None);
}

#[test]
fn insert_replaces_selection() {
    let mut b = TextBuffer::new("hello world".to_string());
    b.set_cursor(0, false);
    b.set_cursor(5, true);
    b.insert_str("HEY");
    assert_eq!(b.get_text_property(), "HEY world");
    assert_eq!(b.get_cursor(), 3);
    assert_eq!(b.get_selection(), None);
}

#[test]
fn backspace_and_delete() {
    let mut b = TextBuffer::new("abc".to_string());
    b.backspace();
    assert_eq!(b.get_text_property(), "ab");
    assert_eq!(b.get_cursor(), 2);
    b.set_cursor(0, false);
    b.backspace();
    assert_eq!(b.get_text_property(), "ab");
    b.delete();
    assert_eq!(b.get_text_property(), "b");
    assert_eq!(b.get_cursor(), 0);
    b.set_cursor(1, false);
    b.delete();
    assert_eq!(b.get_text_property(), "b");
}

#[test]
fn backspace_undoes_typing_a_character() {
    let mut b = TextBuffer::new("abcd".to_string());
    b.set_cursor(2, false);
    b.insert_str("X");
    assert_eq!(b.get_text_property(), "abXcd");
    b.backspace();
    assert_eq!(b.get_text_property(), "abcd");
    assert_eq!(b.get_cursor(), 2);
    assert_eq!(b.get_selection_start(), 2);
}

#[test]
fn backspaces_undo_typing_a_string() {
    let mut b = TextBuffer::new("abcd".to_string());
    b.set_cursor(2, false);
    b.insert_str("xyz");
    assert_eq!(b.get_text_property(), "abxyzcd");
    for _ in 0..3 {
        b.backspace();
    }
    assert_eq!(b.get_text_property(), "abcd");
    assert_eq!(b.get_cursor(), 2);
    assert_eq!(b.get_selection_start(), 2);
}

#[test]
fn deleted_selection_reinserted_gives_text_back() {
    let mut b = TextBuffer::new("one two three".to_string());
    b.set_cursor(4, false);
    b.set_cursor(8, true);
    let removed = b.delete_selected_text();
    assert_eq!(removed, Some("two ".to_string()));
    assert_eq!(b.get_text_property(), "one three");
    b.insert_str(&removed.unwrap());
    assert_eq!(b.get_text_property(), "one two three");
}

#[test]
fn delete_selected_without_selection_is_none() {
    let mut b = TextBuffer::new("abc".to_string());
    assert_eq!(b.delete_selected_text(), None);
    assert_eq!(b.get_text_property(), "abc");
}

#[test]
fn select_all_selects_whole_text() {
    let mut b = TextBuffer::new("some text".to_string());
    b.set_cursor(3, false);
    b.select_all();
    assert_eq!(b.get_selection(), Some((0, 9)));
    assert_eq!(b.get_selected_string(), Some("some text".to_string()));
}

#[test]
fn word_moves() {
    let mut b = TextBuffer::new("foo  bar baz".to_string());
    b.move_word_left(false);
    assert_eq!(b.get_cursor(), 9);
    b.move_word_left(false);
    assert_eq!(b.get_cursor(), 5);
    b.move_word_left(true);
    assert_eq!(b.get_cursor(), 0);
    assert_eq!(b.get_selection(), Some((0, 5)));
    b.move_word_left(false);
    assert_eq!(b.get_cursor(), 0);
    b.move_word_right(false);
    assert_eq!(b.get_cursor(), 3);
    b.move_word_right(false);
    assert_eq!(b.get_cursor(), 8);
    b.move_word_right(false);
    assert_eq!(b.get_cursor(), 12);
    b.move_word_right(false);
    assert_eq!(b.get_cursor(), 12);
}

fn text_box(text: &str, password: bool) -> DefaultTextBoxStyle {
    DefaultTextBoxStyle::new(DefaultTextBoxStyleParams { password }, text.to_string())
}

#[test]
fn typing_inserts_text() {
    let mut tb = text_box("ab", false);
    let r = tb.handle_key(&typed("c"));
    assert!(r.sync);
    assert!(r.dirty);
    assert!(matches!(r.clipboard, ClipboardRequest::Nothing));
    assert_eq!(tb.buffer.get_text_property(), "abc");
}

#[test]
fn ctrl_typing_inserts_nothing() {
    let mut tb = text_box("ab", false);
    let r = tb.handle_key(&KeyPress {
        keycode: Some(EditKey::Other),
        shift: false,
        ctrl: true,
        text: Some("q".to_string()),
    });
    assert!(!r.sync);
    assert_eq!(tb.buffer.get_text_property(), "ab");
}

#[test]
fn copy_cut_paste_requests() {
    let mut tb = text_box("hello", false);
    tb.handle_key(&key(EditKey::KeyA, false, true));
    let r = tb.handle_key(&key(EditKey::KeyC, false, true));
    match r.clipboard {
        ClipboardRequest::SetText(t) => assert_eq!(t, "hello"),
        _ => panic!("copy gives the selected text"),
    }
    assert_eq!(tb.buffer.get_text_property(), "hello");
    let r = tb.handle_key(&key(EditKey::KeyX, false, true));
    match r.clipboard {
        ClipboardRequest::SetText(t) => assert_eq!(t, "hello"),
        _ => panic!("cut gives the selected text"),
    }
    assert_eq!(tb.buffer.get_text_property(), "");
    let r = tb.handle_key(&key(EditKey::KeyV, false, true));
    assert!(matches!(r.clipboard, ClipboardRequest::Paste));
    assert!(tb.paste(Some("xy".to_string())));
    assert_eq!(tb.buffer.get_text_property(), "xy");
    assert!(!tb.paste(None));
    assert_eq!(tb.buffer.get_text_property(), "xy");
}

#[test]
fn copy_without_selection_asks_nothing() {
    let mut tb = text_box("hello", false);
    let r = tb.handle_key(&key(EditKey::KeyC, false, true));
    assert!(matches!(r.clipboard, ClipboardRequest::Nothing));
}

#[test]
fn home_end_keys() {
    let mut tb = text_box("abc", false);
    tb.handle_key(&key(EditKey::Home, false, false));
    assert_eq!(tb.buffer.get_cursor(), 0);
    tb.handle_key(&key(EditKey::End, true, false));
    assert_eq!(tb.buffer.get_selection(), Some((0, 3)));
}

#[test]
fn password_box_shows_bullets() {
    let tb = text_box("secret", true);
    assert_eq!(tb.get_display_text().chars().count(), 6);
    assert!(!tb.get_display_text().contains('s'));
    let plain = text_box("secret", false);
    assert_eq!(plain.get_display_text(), "secret");
}

#[test]
fn tap_moves_cursor_and_focus_is_tracked() {
    let mut tb = text_box("abcdef", false);
    tb.handle_event(TextBoxEvent::TapDown { cursor_pos: 2 });
    assert_eq!(tb.buffer.get_cursor(), 2);
    tb.handle_event(TextBoxEvent::FocusChange(true));
    assert!(tb.is_focused);
    tb.handle_event(TextBoxEvent::HoverChange(true));
    assert!(tb.is_hover);
}
