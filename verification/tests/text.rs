use ezcmd::text::{push_code_debug, push_decimal, push_signed_decimal};

#[test]
fn decimal_is_appended_without_leading_zeros() {
    let mut out = String::from("n=");
    push_decimal(&mut out, 0);
    out.push(',');
    push_decimal(&mut out, 7);
    out.push(',');
    push_decimal(&mut out, 1020);
    out.push(',');
    push_decimal(&mut out, u64::MAX);
    assert_eq!(out, "n=0,7,1020,18446744073709551615");
}

#[test]
fn signed_decimal_puts_the_sign_first() {
    for i in [0, 1, -1, 42, -42, 100, -100, i32::MAX, i32::MIN] {
        let mut out = String::new();
        push_signed_decimal(&mut out, i);
        assert_eq!(out, i.to_string());
    }
}

#[test]
fn code_debug_matches_the_debug_form() {
    for code in [None, Some(0), Some(3), Some(-15), Some(127), Some(i32::MIN)] {
        let mut out = String::from("code ");
        push_code_debug(&mut out, code);
        assert_eq!(out, format!("code {code:?}"));
    }
}
