use void_launcher::number::{string_to_i32, string_to_u32};

#[test]
fn i32_plain_and_signed() {
    assert_eq!(string_to_i32("600".to_string(), "width"), 600);
    assert_eq!(string_to_i32("+42".to_string(), ""), 42);
    assert_eq!(string_to_i32("-17".to_string(), ""), -17);
    assert_eq!(string_to_i32("007".to_string(), ""), 7);
}

#[test]
fn i32_limits() {
    assert_eq!(string_to_i32("2147483647".to_string(), ""), i32::MAX);
    assert_eq!(string_to_i32("-2147483648".to_string(), ""), i32::MIN);
    assert_eq!(string_to_i32("2147483648".to_string(), ""), 0);
    assert_eq!(string_to_i32("99999999999999999999".to_string(), ""), 0);
}

#[test]
fn i32_fallbacks_by_setting() {
    assert_eq!(string_to_i32("tall".to_string(), "height"), 800);
    assert_eq!(string_to_i32("".to_string(), "width"), 600);
    assert_eq!(string_to_i32("12px".to_string(), "icon_size"), 0);
    assert_eq!(string_to_i32("-".to_string(), "height"), 800);
    assert_eq!(string_to_i32("+".to_string(), ""), 0);
    assert_eq!(string_to_i32(" 5".to_string(), ""), 0);
    assert_eq!(string_to_i32("--5".to_string(), ""), 0);
}

#[test]
fn u32_values() {
    assert_eq!(string_to_u32("4".to_string()), 4);
    assert_eq!(string_to_u32("+8".to_string()), 8);
    assert_eq!(string_to_u32("4294967295".to_string()), u32::MAX);
    assert_eq!(string_to_u32("4294967296".to_string()), 0);
    assert_eq!(string_to_u32("-0".to_string()), 0);
    assert_eq!(string_to_u32("-3".to_string()), 0);
    assert_eq!(string_to_u32("auto".to_string()), 0);
}
