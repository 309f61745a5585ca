use doc_printer::text::{indentation, push_decimal, push_signed_decimal};

#[test]
fn indentation_has_two_spaces_for_each_level() {
    assert_eq!(indentation(0), "");
    assert_eq!(indentation(1), "  ");
    assert_eq!(indentation(2), "    ");
    assert_eq!(indentation(10).len(), 20);
    assert!(indentation(10).chars().all(|c| c == ' '));
}

#[test]
fn indentation_below_zero_is_empty() {
    assert_eq!(indentation(-1), "");
    assert_eq!(indentation(i64::MIN), "");
}

#[test]
fn push_decimal_appends_the_digits() {
    let mut out = String::from("line ");
    push_decimal(&mut out, 0);
    assert_eq!(out, "line 0");
    push_decimal(&mut out, 9);
    push_decimal(&mut out, 10);
    push_decimal(&mut out, 99);
    push_decimal(&mut out, 100);
    assert_eq!(out, "line 091099100");
}

#[test]
fn push_decimal_agrees_with_std_formatting() {
    let values: Vec<u64> = vec![
        0,
        1,
        9,
        10,
        11,
        19,
        20,
        99,
        100,
        101,
        999,
        1000,
        1001,
        65535,
        4294967295,
        4294967296,
        9999999999999999999,
        10000000000000000000,
        u64::MAX - 1,
        u64::MAX,
    ];
    for value in values {
        let mut out = String::new();
        push_decimal(&mut out, value);
        assert_eq!(out, format!("{}", value));
    }
}

#[test]
fn push_signed_decimal_shows_the_sign_of_negative_numbers() {
    let values: Vec<i64> =
        vec![0, 1, -1, 9, -9, 10, -10, 12345, -12345, i64::MAX, i64::MIN, i64::MIN + 1];
    for value in values {
        let mut out = String::from("=");
        push_signed_decimal(&mut out, value);
        assert_eq!(out, format!("={}", value));
    }
}
