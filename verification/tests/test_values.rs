//! Tagged values, their reply dispatch, and the text helpers.

use dds_connector::{
    AnyValue, AnyValueHolder, InvokeResult, ReturnCode, SelectedValue,
};
use dds_connector::text::{contains_sub, find_sub_from, fmt_i64, fmt_u64, str_eq};

fn holder(selected: i32) -> AnyValueHolder {
    AnyValueHolder {
        selected,
        number_bits: (42.0f64).to_bits(),
        boolean: true,
        string_value: Some("test".to_string()),
    }
}

#[test]
fn test_selected_value_conversions() {
    let number = InvokeResult::with_output(0, holder(1)).into_selected_value(None).unwrap();
    match number {
        SelectedValue::Number(bits) => assert_eq!(f64::from_bits(bits), 42.0),
        other => panic!("expected a number, got {:?}", other),
    }

    let boolean = InvokeResult::with_output(0, holder(2)).into_selected_value(None).unwrap();
    assert_eq!(boolean, SelectedValue::Boolean(true));

    let string = InvokeResult::with_output(0, holder(3)).into_selected_value(None).unwrap();
    assert_eq!(string, SelectedValue::String("test".to_string()));
}

#[test]
fn tagged_replies_without_a_usable_value_are_refused() {
    let mut null_string = holder(3);
    null_string.string_value = None;
    let err = InvokeResult::with_output(0, null_string).into_selected_value(None).unwrap_err();
    assert_eq!(err.describe(), "Assertion failed: Returned string value shouldn't be null");

    let unavailable = InvokeResult::with_output(0, holder(0)).into_selected_value(None)
        .unwrap_err();
    assert_eq!(unavailable.describe(), "Assertion failed: Unavailable AnyValue kind");

    let unknown = InvokeResult::with_output(0, holder(7)).into_selected_value(None).unwrap_err();
    assert_eq!(unknown.describe(), "Assertion failed: Unknown AnyValue kind: 7");

    let failed = InvokeResult::with_output(1, holder(1)).into_selected_value(None).unwrap_err();
    assert!(failed.is_native_error_code(ReturnCode::Error));

    let timed_out = InvokeResult::with_output(10, holder(1)).into_selected_value(None)
        .unwrap_err();
    assert!(timed_out.is_timeout());
}

#[test]
fn any_value_selectors_translate_both_ways() {
    assert_eq!(AnyValue::from_native(0), AnyValue::Unavailable);
    assert_eq!(AnyValue::from_native(1), AnyValue::Number);
    assert_eq!(AnyValue::from_native(2), AnyValue::Boolean);
    assert_eq!(AnyValue::from_native(3), AnyValue::String);
    assert_eq!(AnyValue::from_native(9), AnyValue::Unknown(9));
    assert_eq!(AnyValue::Number.as_native(), 1);
    assert_eq!(AnyValue::Unknown(9).as_native(), 9);
}

#[test]
fn decimal_formatting_is_exact() {
    assert_eq!(fmt_u64(0), "0");
    assert_eq!(fmt_u64(7), "7");
    assert_eq!(fmt_u64(10), "10");
    assert_eq!(fmt_u64(1234567890123456789), "1234567890123456789");
    assert_eq!(fmt_u64(u64::MAX), "18446744073709551615");

    assert_eq!(fmt_i64(0), "0");
    assert_eq!(fmt_i64(123), "123");
    assert_eq!(fmt_i64(-1), "-1");
    assert_eq!(fmt_i64(-1234567890), "-1234567890");
    assert_eq!(fmt_i64(i64::MIN), "-9223372036854775808");
    assert_eq!(fmt_i64(i64::MAX), "9223372036854775807");
}

#[test]
fn substring_search_finds_first_occurrences() {
    assert_eq!(find_sub_from("hello world", "world", 0), Some(6));
    assert_eq!(find_sub_from("hello world", "o", 0), Some(4));
    assert_eq!(find_sub_from("hello world", "o", 5), Some(7));
    assert_eq!(find_sub_from("hello world", "o", 8), None);
    assert_eq!(find_sub_from("hello world", "missing", 0), None);
    assert_eq!(find_sub_from("aaa", "aa", 0), Some(0));

    assert!(contains_sub("Cannot find a member in here", "Cannot find a member"));
    assert!(!contains_sub("nothing of note", "Cannot find a member"));
}

#[test]
fn string_equality_compares_characters() {
    assert!(str_eq("", ""));
    assert!(str_eq("abc", "abc"));
    assert!(!str_eq("abc", "abd"));
    assert!(!str_eq("abc", "abcd"));
    assert!(str_eq("naïve", "naïve"));
    assert!(!str_eq("naïve", "naive"));
}
