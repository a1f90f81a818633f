use raygeo::text::{append_decimal, copy_strings, str_eq_ignore_ascii_case, str_equals};

#[test]
fn decimal_numbers() {
    for n in [0u64, 7, 10, 99, 100, 1234567890, u64::MAX] {
        let mut s = String::from("#");
        append_decimal(&mut s, n);
        assert_eq!(s, format!("#{n}"));
    }
}

#[test]
fn string_comparisons() {
    assert!(str_equals("abc", "abc"));
    assert!(!str_equals("abc", "abd"));
    assert!(!str_equals("abc", "ab"));
    assert!(str_eq_ignore_ascii_case("AbC", "aBc"));
    assert!(!str_eq_ignore_ascii_case("\u{e9}", "\u{c9}"));
    assert!(str_equals("", ""));
}

#[test]
fn copies_of_string_vectors() {
    let v = vec!["x".to_string(), "".to_string()];
    assert_eq!(copy_strings(&v), v);
}
