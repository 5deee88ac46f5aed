use fun_html::attr;
use fun_html::decimal::write_decimal;

fn decimal(n: i32) -> String {
    let mut out = String::new();
    write_decimal(n, &mut out);
    out
}

#[test]
fn integers_are_written_in_decimal() {
    assert_eq!(decimal(0), "0");
    assert_eq!(decimal(7), "7");
    assert_eq!(decimal(10), "10");
    assert_eq!(decimal(-1), "-1");
    assert_eq!(decimal(-10), "-10");
    assert_eq!(decimal(1234567890), "1234567890");
    assert_eq!(decimal(i32::MAX), "2147483647");
    assert_eq!(decimal(i32::MIN), "-2147483648");
}

#[test]
fn integers_are_written_as_the_standard_library_writes_them() {
    let mut n: i64 = i32::MIN as i64;
    while n <= i32::MAX as i64 {
        assert_eq!(decimal(n as i32), (n as i32).to_string());
        n += 7_654_321;
    }
    for n in -1000..=1000 {
        assert_eq!(decimal(n), n.to_string());
    }
    for n in [9, 99, 999, 9999, 99_999, 999_999, 100_000, 1_000_000_000] {
        assert_eq!(decimal(n), n.to_string());
        assert_eq!(decimal(-n), (-n).to_string());
    }
}

#[test]
fn integer_attributes_are_written_in_quotes() {
    assert_eq!(attr::width_int(0).to_string(), "width=\"0\"");
    assert_eq!(attr::height_int(-5).to_string(), "height=\"-5\"");
    assert_eq!(attr::cols(i32::MAX).to_string(), "cols=\"2147483647\"");
    assert_eq!(attr::rows(i32::MIN).to_string(), "rows=\"-2147483648\"");
    assert_eq!(attr::minlength_u16(0).to_string(), "minlength=\"0\"");
    assert_eq!(attr::maxlength_u16(u16::MAX).to_string(), "maxlength=\"65535\"");
}
