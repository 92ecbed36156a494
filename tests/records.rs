use rusty_crm::contact::{Contact, ERR_MSG};
use rusty_crm::customer::Customer;
use rusty_crm::phone::{key_values, keypad_key_to_string, line_status_url, send_key_url, KeypadKey, PhoneKey};
use rusty_crm::scroll_buffer::ScrollBuffer;
use rusty_crm::colors::ColorScheme;

fn record(name: &str, contact: Option<&str>, phone: Option<&str>) -> Customer {
    Customer {
        name: name.to_string(),
        contact_name: contact.map(|s| s.to_string()),
        phone: phone.map(|s| s.to_string()),
    }
}

#[test]
fn customer_accessors() {
    let mut c = Customer::new();
    assert_eq!(c.get_company_name(), "");
    assert_eq!(c.get_contact_name(), "");
    assert_eq!(c.get_phone_number(), "");
    c.set_company_name("Acme".to_string());
    c.set_contact_name("Jane".to_string());
    c.set_phone_number("555".to_string());
    assert_eq!(c.get_company_name(), "Acme");
    assert_eq!(c.get_contact_name(), "Jane");
    assert_eq!(c.get_phone_number(), "555");
}

#[test]
fn customer_display_line() {
    assert_eq!(record("Acme", Some("Jane"), Some("555")).to_string(), "Acme - Jane - 555");
    assert_eq!(record("", None, None).to_string(), "(none) - (none) - (none)");
    assert_eq!(record("X", Some(""), None).to_string(), "X -  - (none)");
}

#[test]
fn customer_matches_folded_query() {
    let c = record("Acme Co", Some("Jane"), None);
    assert!(c.matches_folded("acme"));
    assert!(c.matches_folded("jan"));
    assert!(!c.matches_folded("ACME"));
    assert!(c.matches_folded(""));
}

#[test]
fn sample_customer_has_all_fields() {
    let c = Customer::sample();
    assert!(c.contact_name.is_some());
    assert!(c.phone.is_some());
}

#[test]
fn sort_by_name_then_contact() {
    let v = vec![
        record("Bolt", Some("Sam"), None),
        record("", Some("Zoe"), None),
        record("Acme", None, None),
        record("Acme", Some("Ann"), None),
        record("acme", Some("Bob"), None),
        record("Bolt", Some("Sam"), Some("2")),
    ];
    let sorted = Customer::sort_customers(v);
    let lines: Vec<String> = sorted.iter().map(|c| c.to_string()).collect();
    assert_eq!(
        lines,
        vec![
            "Acme - Ann - (none)",
            "Acme - (none) - (none)",
            "Bolt - Sam - (none)",
            "Bolt - Sam - 2",
            "acme - Bob - (none)",
            "(none) - Zoe - (none)",
        ]
    );
}

#[test]
fn sort_empty_and_single() {
    assert!(Customer::sort_customers(Vec::new()).is_empty());
    let one = Customer::sort_customers(vec![record("A", None, None)]);
    assert_eq!(one.len(), 1);
}

#[test]
fn sort_matches_string_order() {
    let names = ["b", "ab", "a", "é", "z", "aa", "Ω", "abc", "B"];
    let v: Vec<Customer> = names.iter().map(|n| record(n, Some("x"), None)).collect();
    let sorted: Vec<String> = Customer::sort_customers(v).into_iter().map(|c| c.name).collect();
    let mut expected: Vec<String> = names.iter().map(|n| n.to_string()).collect();
    expected.sort();
    assert_eq!(sorted, expected);
}

#[test]
fn contact_needs_phone_or_email() {
    assert_eq!(Contact::_new("A".to_string(), None, None).err(), Some(ERR_MSG));
    let mut c = Contact::_new("A".to_string(), Some("1".to_string()), None).ok().unwrap();
    assert_eq!(c.to_string(), "Name: A, Phone: 1, Email: N/A");
    assert_eq!(c._set_phone(None), Err(ERR_MSG));
    assert_eq!(c.to_string(), "Name: A, Phone: 1, Email: N/A");
    assert_eq!(c._set_email(Some("a@b".to_string())), Ok(()));
    assert_eq!(c._set_phone(None), Ok(()));
    assert_eq!(c.to_string(), "Name: A, Phone: N/A, Email: a@b");
    assert_eq!(c._set_email(None), Err(ERR_MSG));
}

#[test]
fn phone_keys_from_number() {
    let sb = ScrollBuffer::new(ColorScheme::new(), 80, 12);
    assert_eq!(
        sb.get_phone_keys("0 19*#"),
        Ok(vec![
            PhoneKey::KeypadKey(KeypadKey::Zero),
            PhoneKey::KeypadKey(KeypadKey::One),
            PhoneKey::KeypadKey(KeypadKey::Nine),
            PhoneKey::KeypadKey(KeypadKey::Star),
            PhoneKey::KeypadKey(KeypadKey::Hash),
        ])
    );
    assert_eq!(sb.get_phone_keys(""), Ok(vec![]));
    assert_eq!(sb.get_phone_keys("12-3x"), Err('-'));
    assert_eq!(sb.get_phone_keys("+61"), Err('+'));
}

#[test]
fn keys_to_dial_selected_record() {
    let mut sb = ScrollBuffer::new(ColorScheme::new(), 80, 12);
    assert_eq!(sb.keys_to_dial(), None);
    sb.set_customers(vec![record("A", None, None), record("B", None, Some("42"))]);
    assert_eq!(sb.keys_to_dial(), None);
    sb.move_down();
    assert_eq!(
        sb.keys_to_dial(),
        Some(Ok(vec![PhoneKey::KeypadKey(KeypadKey::Four), PhoneKey::KeypadKey(KeypadKey::Two)]))
    );
}

#[test]
fn key_values_sent() {
    let keys = vec![
        PhoneKey::KeypadKey(KeypadKey::Seven),
        PhoneKey::Mute,
        PhoneKey::KeypadKey(KeypadKey::Star),
        PhoneKey::Send,
    ];
    assert_eq!(key_values(&keys), vec!["7".to_string(), String::new(), "SEND".to_string()]);
    assert_eq!(keypad_key_to_string(KeypadKey::Zero), "0");
    assert_eq!(keypad_key_to_string(KeypadKey::Hash), "");
}

#[test]
fn phone_urls() {
    assert_eq!(send_key_url("10.0.0.2"), "https://10.0.0.2/cgi-bin/api-send_key");
    assert_eq!(
        line_status_url("10.0.0.2", "pw"),
        "https://10.0.0.2/cgi-bin/api-get_line_status?passcode=pw"
    );
}
