use xnixperms::octal::octal_string;
use xnixperms::{file_perms, ExtendedPerms};

#[test]
fn octal_string_of_small_values() {
    assert_eq!(octal_string(0), "0o0");
    assert_eq!(octal_string(1), "0o1");
    assert_eq!(octal_string(7), "0o7");
    assert_eq!(octal_string(8), "0o10");
    assert_eq!(octal_string(63), "0o77");
    assert_eq!(octal_string(64), "0o100");
}

#[test]
fn octal_string_of_permission_values() {
    assert_eq!(octal_string(0o644), "0o644");
    assert_eq!(octal_string(0o755), "0o755");
    assert_eq!(octal_string(0o7777), "0o7777");
    assert_eq!(octal_string(420), "0o644");
}

#[test]
fn octal_string_of_the_largest_value() {
    assert_eq!(octal_string(u32::MAX), "0o37777777777");
    assert_eq!(octal_string(0o10000000000), "0o10000000000");
}

#[test]
fn octal_string_agrees_with_the_formatter() {
    for value in 0..=0o20000u32 {
        assert_eq!(octal_string(value), format!("{:#o}", value));
    }
    for shift in 0..32 {
        let value = 1u32 << shift;
        assert_eq!(octal_string(value), format!("{:#o}", value));
        assert_eq!(octal_string(value - 1), format!("{:#o}", value - 1));
    }
}

#[test]
fn octal_string_parses_back_to_the_permission_bits() {
    for mode in 0..=0o177777u32 {
        let text = mode.to_oct_string();
        assert!(text.starts_with("0o"), "mode {:#o}", mode);
        let digits = &text[2..];
        assert!(!digits.is_empty());
        assert_eq!(u32::from_str_radix(digits, 8), Ok(file_perms(mode)), "mode {:#o}", mode);
        assert!(file_perms(mode) <= 0o7777);
    }
}

#[test]
fn octal_string_round_trip_keeps_high_bits() {
    for mode in [0x0001_0000u32, 0x8000_0644, 0xffff_ffff, 0xdead_beef] {
        let text = mode.to_oct_string();
        assert_eq!(u32::from_str_radix(&text[2..], 8), Ok(mode & !0o170000));
    }
}

#[test]
fn to_oct_string_of_a_regular_file() {
    assert_eq!(0o100644u32.to_oct_string(), String::from("0o644"));
    assert_eq!(0o100000u32.to_oct_string(), String::from("0o0"));
    assert_eq!(0o041777u32.to_oct_string(), String::from("0o1777"));
}
