use screentap::strfmt::{generate_filename, i32_to_string, i64_to_string, u64_to_string};

#[test]
fn numbers_render_in_decimal() {
    assert_eq!(u64_to_string(0), "0");
    assert_eq!(u64_to_string(7), "7");
    assert_eq!(u64_to_string(100034), "100034");
    assert_eq!(u64_to_string(u64::MAX), "18446744073709551615");
}

#[test]
fn signed_numbers_render_with_sign() {
    assert_eq!(i32_to_string(-1), "-1");
    assert_eq!(i32_to_string(0), "0");
    assert_eq!(i32_to_string(2147483647), "2147483647");
    assert_eq!(i32_to_string(-2147483648), "-2147483648");
    assert_eq!(i64_to_string(i64::MIN), "-9223372036854775808");
}

#[test]
fn filename_is_zero_padded() {
    assert_eq!(
        generate_filename(2024, 2, 15, 10, 24, 53, "png"),
        "2024_02_15_10_24_53.png"
    );
    assert_eq!(generate_filename(987, 12, 1, 0, 5, 9, "mp4"), "0987_12_01_00_05_09.mp4");
}
