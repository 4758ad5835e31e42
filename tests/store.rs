use expense_tracker::codec::{convert_to_csv, expense_from_record, expense_record, get_expenses};
use expense_tracker::expense::{add_expense, add_expense_on, delete, find_expense, Expense, StoreError};
use expense_tracker::report::{expense_line, list_expenses};
use expense_tracker::text::{parse_u16, u16_text};

fn dated(id: u16, description: &str, amount: &str, date: &str) -> Expense<String> {
    Expense {
        id,
        description: description.to_string(),
        amount: amount.to_string(),
        date: date.to_string(),
    }
}

#[test]
fn coffee_then_lunch_scenario() {
    let mut t: Vec<Expense<f32>> = Vec::new();
    add_expense(&mut t, "Coffee".to_string(), 3.5);
    assert_eq!(t.len(), 1);
    assert_eq!(t[0].id, 1);
    assert_eq!(t[0].description, "Coffee");
    assert_eq!(t[0].amount, 3.5);
    assert_eq!(t[0].date.len(), 10);
    add_expense(&mut t, "Lunch".to_string(), 12.0);
    assert_eq!(t.len(), 2);
    assert_eq!(t.iter().map(|e| e.id).collect::<Vec<_>>(), vec![1, 2]);
    let total: f32 = t.iter().map(|e| e.amount).sum();
    assert_eq!(total, 15.5);
    assert_eq!(delete(&mut t, 1), Ok(()));
    assert_eq!(t.len(), 1);
    assert_eq!(t[0].id, 2);
    assert_eq!(t[0].description, "Lunch");
    assert_eq!(delete(&mut t, 1), Err(StoreError::NotFound));
    assert_eq!(t.len(), 1);
    assert_eq!(t[0].id, 2);
}

#[test]
fn adds_number_ids_by_position() {
    let mut t: Vec<Expense<i32>> = Vec::new();
    for k in 0..20 {
        add_expense_on(&mut t, format!("item {}", k), k, "2024-03-01".to_string());
    }
    assert_eq!(t.len(), 20);
    for (k, e) in t.iter().enumerate() {
        assert_eq!(e.id as usize, k + 1);
        assert_eq!(e.amount, k as i32);
        assert_eq!(e.description, format!("item {}", k));
        assert_eq!(e.date, "2024-03-01");
    }
}

#[test]
fn add_after_delete_reuses_an_id() {
    let mut t: Vec<Expense<i32>> = Vec::new();
    add_expense_on(&mut t, "a".to_string(), 1, "d".to_string());
    add_expense_on(&mut t, "b".to_string(), 2, "d".to_string());
    assert_eq!(delete(&mut t, 1), Ok(()));
    add_expense_on(&mut t, "c".to_string(), 3, "d".to_string());
    assert_eq!(t.iter().map(|e| e.id).collect::<Vec<_>>(), vec![2, 2]);
    assert_eq!(find_expense(&t, 2), Some(0));
    assert_eq!(delete(&mut t, 2), Ok(()));
    assert_eq!(t.len(), 1);
    assert_eq!(t[0].description, "c");
}

#[test]
fn delete_keeps_the_others_in_order() {
    let mut t: Vec<Expense<i32>> = Vec::new();
    for k in 0..5 {
        add_expense_on(&mut t, format!("e{}", k), k, "d".to_string());
    }
    assert_eq!(delete(&mut t, 3), Ok(()));
    assert_eq!(t.iter().map(|e| e.id).collect::<Vec<_>>(), vec![1, 2, 4, 5]);
    assert_eq!(t.iter().map(|e| e.amount).collect::<Vec<_>>(), vec![0, 1, 3, 4]);
}

#[test]
fn delete_on_empty_table_is_not_found() {
    let mut t: Vec<Expense<i32>> = Vec::new();
    assert_eq!(delete(&mut t, 1), Err(StoreError::NotFound));
    assert_eq!(find_expense(&t, 1), None);
    assert!(t.is_empty());
}

#[test]
fn new_expense_keeps_its_fields() {
    let e = Expense::new("Taxi".to_string(), 7, 4);
    assert_eq!(e.id, 4);
    assert_eq!(e.description, "Taxi");
    assert_eq!(e.amount, 7);
    let b = e.date.as_bytes();
    assert_eq!(b.len(), 10);
    assert_eq!(b[4], b'-');
    assert_eq!(b[7], b'-');
}

#[test]
fn decimal_text_of_ids() {
    assert_eq!(u16_text(0), "0");
    assert_eq!(u16_text(7), "7");
    assert_eq!(u16_text(10), "10");
    assert_eq!(u16_text(12345), "12345");
    assert_eq!(u16_text(65535), "65535");
}

#[test]
fn reading_ids() {
    assert_eq!(parse_u16("0"), Some(0));
    assert_eq!(parse_u16("42"), Some(42));
    assert_eq!(parse_u16("+42"), Some(42));
    assert_eq!(parse_u16("007"), Some(7));
    assert_eq!(parse_u16("65535"), Some(65535));
    assert_eq!(parse_u16("65536"), None);
    assert_eq!(parse_u16("99999999999999999999"), None);
    assert_eq!(parse_u16(""), None);
    assert_eq!(parse_u16("+"), None);
    assert_eq!(parse_u16("-1"), None);
    assert_eq!(parse_u16(" 1"), None);
    assert_eq!(parse_u16("1a"), None);
    assert_eq!(parse_u16("abc"), None);
    for n in [0u16, 1, 9, 10, 99, 100, 65535] {
        assert_eq!(parse_u16(&u16_text(n)), Some(n));
        assert_eq!(parse_u16(&u16_text(n)), n.to_string().parse::<u16>().ok());
    }
}

#[test]
fn record_fields_of_an_expense() {
    let e = dated(12, "Coffee, large", "3.5", "2024-01-02");
    assert_eq!(expense_record(&e), vec!["12", "Coffee, large", "3.5", "2024-01-02"]);
    let back = expense_from_record(&expense_record(&e)).unwrap();
    assert_eq!(back.id, 12);
    assert_eq!(back.description, "Coffee, large");
    assert_eq!(back.amount, "3.5");
    assert_eq!(back.date, "2024-01-02");
}

#[test]
fn malformed_records_are_refused() {
    let short = vec!["1".to_string(), "x".to_string(), "2.0".to_string()];
    assert!(matches!(expense_from_record(&short), Err(StoreError::Storage)));
    let bad_id = vec!["one".to_string(), "x".to_string(), "2.0".to_string(), "d".to_string()];
    assert!(matches!(expense_from_record(&bad_id), Err(StoreError::Storage)));
}

#[test]
fn csv_text_of_a_table() {
    let t = vec![dated(1, "Coffee", "3.5", "2024-01-01"), dated(2, "Lunch, with tip", "12.0", "2024-01-02")];
    let bytes = convert_to_csv(&t);
    assert_eq!(
        String::from_utf8(bytes).unwrap(),
        "id,description,amount,date\n1,Coffee,3.5,2024-01-01\n2,\"Lunch, with tip\",12.0,2024-01-02\n"
    );
}

#[test]
fn csv_of_empty_table_is_header_only() {
    let t: Vec<Expense<String>> = Vec::new();
    assert_eq!(convert_to_csv(&t), b"id,description,amount,date\n".to_vec());
    assert_eq!(get_expenses(&convert_to_csv(&t)).unwrap().len(), 0);
    assert_eq!(get_expenses(b"").unwrap().len(), 0);
}

#[test]
fn save_load_save_round_trip() {
    let t = vec![
        dated(1, "Coffee", "3.5", "2024-01-01"),
        dated(2, "Lunch, \"big\"", "12.0", "2024-01-02"),
        dated(3, "", "-4.25", "2024-01-03"),
    ];
    let saved = convert_to_csv(&t);
    let loaded = get_expenses(&saved).unwrap();
    assert_eq!(loaded.len(), 3);
    for (a, b) in t.iter().zip(loaded.iter()) {
        assert_eq!(a.id, b.id);
        assert_eq!(a.description, b.description);
        assert_eq!(a.amount, b.amount);
        assert_eq!(a.date, b.date);
    }
    assert_eq!(convert_to_csv(&loaded), saved);
}

#[test]
fn load_reads_rows_in_order() {
    let data = b"id,description,amount,date\n5,Book,9.99,2023-12-31\n2,Tea,1,2024-01-01\n";
    let t = get_expenses(data).unwrap();
    assert_eq!(t.len(), 2);
    assert_eq!(t[0].id, 5);
    assert_eq!(t[0].description, "Book");
    assert_eq!(t[0].amount, "9.99");
    assert_eq!(t[1].id, 2);
    assert_eq!(t[1].date, "2024-01-01");
}

#[test]
fn malformed_file_fails_to_load() {
    let bad_id = b"id,description,amount,date\n1,a,1.0,d\nx,b,2.0,d\n";
    assert!(matches!(get_expenses(bad_id), Err(StoreError::Storage)));
    let broken_row = b"id,description,amount,date\n1,a,1.0,d\n2,b\n";
    assert!(matches!(get_expenses(broken_row), Err(StoreError::Storage)));
    let not_utf8 = b"id,description,amount,date\n1,\xff,1.0,d\n";
    assert!(matches!(get_expenses(not_utf8), Err(StoreError::Storage)));
}

#[test]
fn listing_lines() {
    let e = dated(3, "Coffee", "3.5", "2024-01-01");
    assert_eq!(expense_line(&e), "3: Coffee - $3.5 - 2024-01-01");
    let t = vec![e, dated(4, "Lunch", "12", "2024-01-02")];
    assert_eq!(
        list_expenses(&t),
        vec!["3: Coffee - $3.5 - 2024-01-01", "4: Lunch - $12 - 2024-01-02"]
    );
    let empty: Vec<Expense<String>> = Vec::new();
    assert!(list_expenses(&empty).is_empty());
}
