use crudgen::gen::text::{clone_strings, join, owned, push_decimal, reads, to_bytes};

fn strings(items: &[&str]) -> Vec<String> {
    items.iter().map(|s| s.to_string()).collect()
}

#[test]
fn join_puts_separator_between_neighbours() {
    assert_eq!(join(&strings(&["a", "b", "c"]), ", "), "a, b, c");
    assert_eq!(join(&strings(&["a"]), ", "), "a");
    assert_eq!(join(&strings(&[]), ", "), "");
    assert_eq!(join(&strings(&["", ""]), "-"), "-");
    assert_eq!(join(&strings(&["x", "y"]), ""), "xy");
}

#[test]
fn decimal_numerals() {
    for (n, text) in [
        (0u128, "0"),
        (7, "7"),
        (9, "9"),
        (10, "10"),
        (42, "42"),
        (100, "100"),
        (1234567890, "1234567890"),
        (u64::MAX as u128 + 1, "18446744073709551616"),
    ] {
        let mut out = String::from("n=");
        push_decimal(&mut out, n);
        assert_eq!(out, format!("n={}", text));
    }
}

#[test]
fn bytes_are_utf8() {
    assert_eq!(to_bytes("abc"), vec![97u8, 98, 99]);
    assert_eq!(to_bytes("é"), vec![0xc3u8, 0xa9]);
    assert_eq!(to_bytes(""), Vec::<u8>::new());
}

#[test]
fn small_helpers() {
    assert_eq!(owned("xyz"), "xyz");
    assert!(reads(&"id".to_string(), "id"));
    assert!(!reads(&"id".to_string(), "Id"));
    assert!(!reads(&"id".to_string(), "id "));
    assert_eq!(clone_strings(&strings(&["a", "", "b"])), strings(&["a", "", "b"]));
}
