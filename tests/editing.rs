use rusty_crm::colors::ColorScheme;
use rusty_crm::line_buffer::LineBuffer;

fn line(text: &str) -> LineBuffer {
    let mut b = LineBuffer::new("Query: ".to_string(), ColorScheme::new());
    b.set_buffer(text.to_string());
    b
}

#[test]
fn new_line_is_empty_in_insert_mode() {
    let b = LineBuffer::new("P: ".to_string(), ColorScheme::new());
    assert_eq!(b.get_string(), "");
    assert_eq!(b.get_prompt(), "P: ");
    assert_eq!(b.get_caret(), 0);
    assert!(b.is_insert());
}

#[test]
fn set_buffer_puts_caret_at_end() {
    let b = line("héllo");
    assert_eq!(b.get_caret(), 5);
    assert_eq!(b.len(), 5);
}

#[test]
fn insert_splices_at_caret() {
    let mut b = line("hed");
    b.move_left();
    b.add("llo worl");
    assert_eq!(b.get_string(), "hello world");
    assert_eq!(b.get_caret(), 10);
}

#[test]
fn overtype_replaces_and_extends() {
    let mut b = line("abcdef");
    b.toggle_insert();
    assert!(!b.is_insert());
    b.move_to_start();
    b.move_right();
    b.add("XY");
    assert_eq!(b.get_string(), "aXYdef");
    assert_eq!(b.get_caret(), 3);
    b.move_to_end();
    b.move_left();
    b.add("123");
    assert_eq!(b.get_string(), "aXYde123");
    assert_eq!(b.get_caret(), 8);
}

#[test]
fn delete_and_backspace() {
    let mut b = line("abc");
    b.delete();
    assert_eq!(b.get_string(), "abc");
    b.backspace();
    assert_eq!(b.get_string(), "ab");
    assert_eq!(b.get_caret(), 2);
    b.move_to_start();
    b.backspace();
    assert_eq!(b.get_string(), "ab");
    assert_eq!(b.get_caret(), 0);
    b.delete();
    assert_eq!(b.get_string(), "b");
    assert_eq!(b.get_caret(), 0);
}

#[test]
fn moves_are_clamped_in_characters() {
    let mut b = line("äö");
    b.move_right();
    assert_eq!(b.get_caret(), 2);
    b.move_left();
    b.move_left();
    b.move_left();
    assert_eq!(b.get_caret(), 0);
    b.move_to_end();
    assert_eq!(b.get_caret(), 2);
}

#[test]
fn caret_stays_in_bounds_under_mixed_edits() {
    let mut b = line("");
    let steps = ["ab", "<", "<", "<", "x", "del", "del", "del", ">", ">", "bs", "bs", "bs", "yz", "ins", "123456", "<", "bs"];
    for s in steps.iter() {
        match *s {
            "<" => b.move_left(),
            ">" => b.move_right(),
            "del" => b.delete(),
            "bs" => b.backspace(),
            "ins" => b.toggle_insert(),
            t => b.add(t),
        }
        assert!(b.get_caret() <= b.len());
    }
}

#[test]
fn type_then_delete_all_round_trip() {
    let mut b = line("");
    let s = "round trip ✓";
    b.add(s);
    assert_eq!(b.get_string(), s);
    b.move_to_start();
    for _ in 0..s.chars().count() {
        b.delete();
    }
    assert_eq!(b.get_string(), "");
    assert_eq!(b.get_caret(), 0);
}

#[test]
fn clear_and_prompt() {
    let mut b = line("text");
    b.set_prompt("Name: ".to_string());
    assert_eq!(b.get_prompt(), "Name: ");
    assert_eq!(b.get_string(), "text");
    b.clear();
    assert_eq!(b.get_string(), "");
    assert_eq!(b.get_caret(), 0);
}
