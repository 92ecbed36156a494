use rusty_crm::colors::ColorScheme;
use rusty_crm::customer::Customer;
use rusty_crm::filter::filter_indices;
use rusty_crm::scroll_buffer::ScrollBuffer;
use rusty_crm::text::text_contains;
use rusty_crm::viewport::{thumb_row, window};

fn record(name: &str, contact: Option<&str>, phone: Option<&str>) -> Customer {
    Customer {
        name: name.to_string(),
        contact_name: contact.map(|s| s.to_string()),
        phone: phone.map(|s| s.to_string()),
    }
}

fn three_records() -> Vec<Customer> {
    vec![
        record("Acme Co", Some("Jane"), Some("555 0100")),
        record("Bolt Inc", Some("Sam"), Some("555 0101")),
        record("Cedar LLC", Some("Ann"), Some("555 0102")),
    ]
}

#[test]
fn filter_scenario_three_records() {
    // "Sam" holds an "a", so the second record matches through its contact.
    assert_eq!(filter_indices(&three_records(), "a"), vec![0, 1, 2]);
    assert_eq!(filter_indices(&three_records(), "e"), vec![0, 2]);
}

#[test]
fn filter_ignores_case() {
    assert_eq!(filter_indices(&three_records(), "ACME"), vec![0]);
    assert_eq!(filter_indices(&three_records(), "llc"), vec![2]);
    assert_eq!(filter_indices(&three_records(), "0101"), vec![1]);
}

#[test]
fn filter_empty_query_keeps_all() {
    assert_eq!(filter_indices(&three_records(), ""), vec![0, 1, 2]);
    assert_eq!(filter_indices(&Vec::new(), ""), Vec::<usize>::new());
}

#[test]
fn filter_no_match_and_missing_fields() {
    let items = vec![record("", None, None), record("Zed", None, Some("12"))];
    assert_eq!(filter_indices(&items, "q"), Vec::<usize>::new());
    assert_eq!(filter_indices(&items, "2"), vec![1]);
    assert_eq!(filter_indices(&items, ""), vec![0, 1]);
}

#[test]
fn filter_is_increasing_on_a_larger_collection() {
    let items: Vec<Customer> = (0..40)
        .map(|i| record(&format!("Firm {}", i), None, None))
        .collect();
    let r = filter_indices(&items, "1");
    assert_eq!(r, vec![1, 10, 11, 12, 13, 14, 15, 16, 17, 18, 19, 21, 31]);
    assert!(r.windows(2).all(|w| w[0] < w[1]));
}

#[test]
fn text_contains_cases() {
    assert!(text_contains("hello", "ell"));
    assert!(text_contains("hello", ""));
    assert!(text_contains("", ""));
    assert!(!text_contains("", "a"));
    assert!(!text_contains("hel", "hello"));
    assert!(text_contains("héllo wörld", "ö"));
}

#[test]
fn window_scenario_top_anchored() {
    assert_eq!(window(3, 50, 10), (0, 10));
}

#[test]
fn window_scenario_scrolled() {
    assert_eq!(window(45, 50, 10), (39, 49));
}

#[test]
fn window_pulled_back_at_end() {
    assert_eq!(window(49, 50, 10), (40, 50));
    assert_eq!(window(47, 50, 10), (40, 50));
}

#[test]
fn window_short_list() {
    assert_eq!(window(0, 0, 10), (0, 0));
    assert_eq!(window(4, 5, 10), (0, 5));
    assert_eq!(window(9, 10, 10), (0, 10));
}

#[test]
fn window_contains_selection_everywhere() {
    for len in 0..40usize {
        for rows in 0..12usize {
            let top = if len == 0 { 1 } else { len };
            for pos in 0..top {
                let (start, end) = window(pos, len, rows);
                assert!(start <= pos && start <= end && end <= len);
                assert!(end - start <= rows);
                if len > 0 && rows > 0 {
                    assert!(pos < end);
                }
                if len <= rows {
                    assert_eq!((start, end), (0, len));
                }
            }
        }
    }
}

#[test]
fn thumb_row_ends() {
    for rows in 1..15usize {
        for n in (rows + 1)..40 {
            assert_eq!(thumb_row(0, n, rows), 1);
            assert_eq!(thumb_row(n - 1, n, rows), rows);
        }
    }
}

#[test]
fn thumb_row_values() {
    assert_eq!(thumb_row(25, 51, 11), 6);
    assert_eq!(thumb_row(1, 3, 2), 2);
    assert_eq!(thumb_row(0, 5, 10), 1);
    assert_eq!(thumb_row(10, 101, 10), 2);
    assert_eq!(thumb_row(5, 101, 10), 1);
}

#[test]
fn thumb_row_large_values() {
    let n = usize::MAX;
    assert_eq!(thumb_row(n - 1, n, 1000), 1000);
    assert_eq!(thumb_row(n / 2, n, 3), 2);
}

fn list_of(items: Vec<Customer>) -> ScrollBuffer {
    let mut sb = ScrollBuffer::new(ColorScheme::new(), 80, 12);
    sb.set_customers(items);
    sb
}

#[test]
fn scroll_buffer_geometry() {
    let sb = ScrollBuffer::new(ColorScheme::new(), 80, 12);
    assert_eq!(sb.get_rows(), 10);
    assert_eq!(sb.get_cols(), 80);
    assert_eq!(sb.get_results_count(), 0);
    assert!(sb.get_selected_customer().is_none());
    assert_eq!(sb.scroll_bar(), None);
}

#[test]
fn scroll_buffer_moves_are_clamped() {
    let mut sb = list_of(three_records());
    sb.move_up();
    assert_eq!(sb.get_scroll_pos(), 0);
    sb.move_down();
    sb.move_down();
    sb.move_down();
    assert_eq!(sb.get_scroll_pos(), 2);
    assert_eq!(sb.get_selected_customer().unwrap().name, "Cedar LLC");
    let mut empty = ScrollBuffer::new(ColorScheme::new(), 80, 12);
    empty.move_down();
    assert_eq!(empty.get_scroll_pos(), 0);
}

#[test]
fn scroll_buffer_filter_resets_selection() {
    let mut sb = list_of(three_records());
    sb.move_down();
    sb.set_filter("LLC".to_string());
    assert_eq!(sb.get_scroll_pos(), 0);
    assert_eq!(sb.get_results_count(), 1);
    assert_eq!(sb.row_text(0), "Cedar LLC - Ann - 555 0102");
}

#[test]
fn scroll_buffer_delete_removes_selected_record() {
    let mut sb = list_of(three_records());
    sb.set_filter("llc".to_string());
    sb.delete_customer();
    sb.set_filter(String::new());
    assert_eq!(sb.get_results_count(), 2);
    assert_eq!(sb.row_text(0), "Acme Co - Jane - 555 0100");
    assert_eq!(sb.row_text(1), "Bolt Inc - Sam - 555 0101");
}

#[test]
fn scroll_buffer_update_and_add() {
    let mut sb = list_of(three_records());
    sb.move_down();
    sb.update_customer(record("Bolt Ltd", None, None));
    sb.add_customer(record("Dune", None, None));
    sb.set_filter(String::new());
    assert_eq!(sb.get_results_count(), 4);
    assert_eq!(sb.row_text(1), "Bolt Ltd - (none) - (none)");
    assert_eq!(sb.row_text(3), "Dune - (none) - (none)");
    let mut empty = ScrollBuffer::new(ColorScheme::new(), 80, 12);
    empty.update_customer(record("Only", None, None));
    empty.set_filter(String::new());
    assert_eq!(empty.get_results_count(), 1);
}

#[test]
fn scroll_buffer_scroll_bar() {
    let items: Vec<Customer> = (0..30).map(|i| record(&format!("C{}", i), None, None)).collect();
    let mut sb = list_of(items);
    assert_eq!(sb.scroll_bar(), Some(1));
    for _ in 0..29 {
        sb.move_down();
    }
    assert_eq!(sb.scroll_bar(), Some(10));
    assert_eq!(sb.visible_window(), (20, 30));
}

#[test]
fn sample_data_has_999_records() {
    let mut sb = ScrollBuffer::new(ColorScheme::new(), 80, 12);
    sb.load_sample_data();
    assert_eq!(sb.get_results_count(), 999);
    let c = sb.get_selected_customer().unwrap();
    assert!(c.contact_name.is_some() && c.phone.is_some());
}

#[test]
fn generate_makes_one_fewer() {
    let v = Customer::generate(5);
    assert_eq!(v.len(), 4);
    assert!(v.iter().all(|c| c.contact_name.is_some() && c.phone.is_some()));
    assert_eq!(Customer::generate(0).len(), 0);
    assert_eq!(Customer::generate(1).len(), 0);
}
