use sat_session::text::append_decimal;
use sat_session::text::append_signed;

#[test]
fn decimal_text_is_exact() {
    let mut text = String::from("n=");
    append_decimal(&mut text, 0);
    text.push(',');
    append_decimal(&mut text, 9);
    text.push(',');
    append_decimal(&mut text, 10);
    text.push(',');
    append_decimal(&mut text, 18446744073709551615);
    assert_eq!(text, "n=0,9,10,18446744073709551615");
}

#[test]
fn signed_text_is_exact() {
    let mut text = String::new();
    append_signed(&mut text, 0);
    text.push(',');
    append_signed(&mut text, -1);
    text.push(',');
    append_signed(&mut text, 2147483647);
    text.push(',');
    append_signed(&mut text, -2147483648);
    assert_eq!(text, "0,-1,2147483647,-2147483648");
}
