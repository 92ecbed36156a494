use rusty_crm::customer::Customer;
use rusty_crm::editor::{Editor, EditorAction, EditorMode, Key};

fn record(name: &str, contact: Option<&str>, phone: Option<&str>) -> Customer {
    Customer {
        name: name.to_string(),
        contact_name: contact.map(|s| s.to_string()),
        phone: phone.map(|s| s.to_string()),
    }
}

fn editor_with(items: Vec<Customer>) -> Editor {
    let mut e = Editor::new(true, false, 80, 12);
    e.scroll_buffer.set_customers(items);
    e.init();
    e
}

fn type_text(e: &mut Editor, s: &str) {
    for c in s.chars() {
        e.handle_key(Key::Char(c));
    }
}

#[test]
fn splash_swallows_keys_until_space() {
    let mut e = Editor::new(false, false, 80, 12);
    e.scroll_buffer.set_customers(vec![record("Acme", None, None)]);
    e.init();
    assert_eq!(e.mode, EditorMode::SplashScreen);
    assert_eq!(e.handle_key(Key::Char('x')), EditorAction::Nothing);
    assert_eq!(e.handle_key(Key::Ctrl('q')), EditorAction::Nothing);
    assert_eq!(e.handle_key(Key::Enter), EditorAction::Nothing);
    assert_eq!(e.mode, EditorMode::SplashScreen);
    assert_eq!(e.line_buffer.get_string(), "");
    e.handle_key(Key::Char(' '));
    assert_eq!(e.mode, EditorMode::Normal);
    assert_eq!(e.line_buffer.get_prompt(), "Query: ");
    assert_eq!(e.status_line.get_message(), "Normal Mode");
    assert_eq!(e.line_buffer.get_string(), " ");
}

#[test]
fn typing_filters_the_list() {
    let mut e = editor_with(vec![record("Acme", None, None), record("Bolt", None, None)]);
    assert_eq!(e.status_line.get_results_count(), 2);
    type_text(&mut e, "bo");
    assert_eq!(e.scroll_buffer.get_results_count(), 1);
    assert_eq!(e.status_line.get_results_count(), 1);
    e.handle_key(Key::Backspace);
    e.handle_key(Key::Backspace);
    assert_eq!(e.status_line.get_results_count(), 2);
}

#[test]
fn add_chain_appends_one_record() {
    let mut e = editor_with(vec![record("Acme", None, None)]);
    e.handle_key(Key::Ctrl('a'));
    assert_eq!(e.mode, EditorMode::AddCompanyName);
    assert_eq!(e.line_buffer.get_prompt(), "Company name: ");
    type_text(&mut e, "Bolt");
    e.handle_key(Key::Enter);
    assert_eq!(e.mode, EditorMode::AddContactName);
    assert_eq!(e.scroll_buffer.get_results_count(), 1);
    type_text(&mut e, "Sam");
    e.handle_key(Key::Enter);
    assert_eq!(e.mode, EditorMode::AddPhoneNumber);
    type_text(&mut e, "42");
    e.handle_key(Key::Enter);
    assert_eq!(e.mode, EditorMode::Normal);
    assert_eq!(e.scroll_buffer.get_results_count(), 2);
    assert_eq!(e.scroll_buffer.row_text(1), "Bolt - Sam - 42");
}

#[test]
fn abandoned_add_leaves_no_record() {
    let mut e = editor_with(vec![]);
    e.handle_key(Key::Ctrl('a'));
    type_text(&mut e, "Half");
    e.handle_key(Key::Enter);
    e.handle_key(Key::Esc);
    assert_eq!(e.mode, EditorMode::Normal);
    assert_eq!(e.scroll_buffer.get_results_count(), 0);
}

#[test]
fn edit_chain_replaces_selected_record() {
    let mut e = editor_with(vec![record("Acme", Some("Jane"), Some("1")), record("Bolt", None, None)]);
    e.handle_key(Key::Down);
    e.handle_key(Key::Ctrl('e'));
    assert_eq!(e.mode, EditorMode::EditCompanyName);
    assert_eq!(e.line_buffer.get_string(), "Bolt");
    type_text(&mut e, " Ltd");
    e.handle_key(Key::Enter);
    assert_eq!(e.mode, EditorMode::EditContactName);
    assert_eq!(e.line_buffer.get_string(), "");
    type_text(&mut e, "Sam");
    e.handle_key(Key::Enter);
    type_text(&mut e, "7");
    e.handle_key(Key::Enter);
    assert_eq!(e.mode, EditorMode::Normal);
    assert_eq!(e.scroll_buffer.get_results_count(), 2);
    assert_eq!(e.scroll_buffer.row_text(0), "Acme - Jane - 1");
    assert_eq!(e.scroll_buffer.row_text(1), "Bolt Ltd - Sam - 7");
}

#[test]
fn edit_without_selection_does_nothing() {
    let mut e = editor_with(vec![]);
    e.handle_key(Key::Ctrl('e'));
    assert_eq!(e.mode, EditorMode::Normal);
}

#[test]
fn delete_confirm_and_cancel() {
    let mut e = editor_with(vec![record("Acme", None, None), record("Bolt", None, None)]);
    e.handle_key(Key::Ctrl('d'));
    assert_eq!(e.mode, EditorMode::Delete);
    assert_eq!(e.line_buffer.get_prompt(), "Delete (y/n): ");
    e.handle_key(Key::Char('x'));
    assert_eq!(e.mode, EditorMode::Delete);
    e.handle_key(Key::Char('n'));
    assert_eq!(e.mode, EditorMode::Normal);
    assert_eq!(e.scroll_buffer.get_results_count(), 2);
    e.handle_key(Key::Down);
    e.handle_key(Key::Ctrl('d'));
    e.handle_key(Key::Char('y'));
    assert_eq!(e.mode, EditorMode::Normal);
    assert_eq!(e.scroll_buffer.get_results_count(), 1);
    assert_eq!(e.scroll_buffer.row_text(0), "Acme - (none) - (none)");
}

#[test]
fn actions_left_to_the_caller() {
    let mut e = editor_with(vec![]);
    assert_eq!(e.handle_key(Key::Ctrl('s')), EditorAction::Save);
    assert_eq!(e.handle_key(Key::Ctrl('c')), EditorAction::Call);
    assert_eq!(e.handle_key(Key::Ctrl('q')), EditorAction::SaveAndQuit);
    e.save();
    assert_eq!(e.status_line.get_message(), "Saved");
    let mut sample = Editor::new(true, true, 80, 12);
    sample.init();
    assert_eq!(sample.handle_key(Key::Ctrl('s')), EditorAction::Nothing);
    assert_eq!(sample.handle_key(Key::Ctrl('q')), EditorAction::Quit);
}

#[test]
fn insert_key_toggles_overtype() {
    let mut e = editor_with(vec![]);
    type_text(&mut e, "abc");
    e.handle_key(Key::Home);
    e.handle_key(Key::Insert);
    type_text(&mut e, "X");
    assert_eq!(e.line_buffer.get_string(), "Xbc");
    e.handle_key(Key::End);
    e.handle_key(Key::Left);
    e.handle_key(Key::Delete);
    assert_eq!(e.line_buffer.get_string(), "Xb");
    e.handle_key(Key::Right);
    assert_eq!(e.line_buffer.get_caret(), 2);
}

#[test]
fn call_customer_gives_keys() {
    let e = editor_with(vec![record("A", None, Some("9 1"))]);
    assert!(e.call_customer().unwrap().unwrap().len() == 2);
}
