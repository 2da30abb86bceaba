use pc_monitor::helpers::{avg_vecu32, nvd_r2u64, pop_4u8};

#[test]
fn mean_is_truncated() {
    assert_eq!(avg_vecu32(vec![10, 20, 31]), 20);
    assert_eq!(avg_vecu32(vec![7]), 7);
    assert_eq!(avg_vecu32(vec![0, 1]), 0);
    assert_eq!(avg_vecu32(vec![100, 100, 99]), 99);
}

#[test]
fn mean_of_large_loads_does_not_wrap() {
    assert_eq!(avg_vecu32(vec![u32::MAX, u32::MAX]), u32::MAX);
    assert_eq!(avg_vecu32(vec![u32::MAX, u32::MAX - 2, u32::MAX - 1]), u32::MAX - 1);
}

#[test]
fn label_is_zero_padded() {
    assert_eq!(pop_4u8(b"B"), [b'B', 0, 0, 0]);
    assert_eq!(pop_4u8(b"GB"), [b'G', b'B', 0, 0]);
    assert_eq!(pop_4u8(b""), [0, 0, 0, 0]);
    assert_eq!(pop_4u8(b"abcd"), [b'a', b'b', b'c', b'd']);
}

#[test]
fn label_is_cut_to_four_bytes() {
    assert_eq!(pop_4u8(b"abcdef"), [b'a', b'b', b'c', b'd']);
}

#[test]
fn quoted_reading_gives_its_number() {
    assert_eq!(nvd_r2u64("\"8192 MiB\"".to_string()), Some(8192));
    assert_eq!(nvd_r2u64("\"37 %\"".to_string()), Some(37));
    assert_eq!(nvd_r2u64("\"0 %\"".to_string()), Some(0));
    assert_eq!(nvd_r2u64("\"12\"".to_string()), Some(12));
}

#[test]
fn reading_drops_first_and_last_character_whatever_they_are() {
    assert_eq!(nvd_r2u64("x15 MiBy".to_string()), Some(15));
    assert_eq!(nvd_r2u64("1234".to_string()), Some(23));
    assert_eq!(nvd_r2u64("é7é".to_string()), Some(7));
}

#[test]
fn reading_stops_at_the_first_space() {
    assert_eq!(nvd_r2u64("\"5 6 7\"".to_string()), Some(5));
    assert_eq!(nvd_r2u64("\" 5\"".to_string()), None);
    assert_eq!(nvd_r2u64("\"5  MiB\"".to_string()), Some(5));
}

#[test]
fn reading_ignores_white_space_around_the_number() {
    assert_eq!(nvd_r2u64("\"\t42\n MiB\"".to_string()), Some(42));
    assert_eq!(nvd_r2u64("\"\u{a0}42\u{3000} MiB\"".to_string()), Some(42));
    assert_eq!(nvd_r2u64("\"4\t2 MiB\"".to_string()), None);
}

#[test]
fn reading_accepts_a_plus_sign_and_leading_zeros() {
    assert_eq!(nvd_r2u64("\"+42 MiB\"".to_string()), Some(42));
    assert_eq!(nvd_r2u64("\"007\"".to_string()), Some(7));
    assert_eq!(nvd_r2u64("\"+\"".to_string()), None);
    assert_eq!(nvd_r2u64("\"++1\"".to_string()), None);
    assert_eq!(nvd_r2u64("\"-1\"".to_string()), None);
}

#[test]
fn reading_without_a_number_is_none() {
    assert_eq!(nvd_r2u64("null".to_string()), None);
    assert_eq!(nvd_r2u64("\"N/A\"".to_string()), None);
    assert_eq!(nvd_r2u64("\"\"".to_string()), None);
    assert_eq!(nvd_r2u64("\"".to_string()), None);
    assert_eq!(nvd_r2u64("".to_string()), None);
    assert_eq!(nvd_r2u64("\"12.5 W\"".to_string()), None);
    assert_eq!(nvd_r2u64("\"٣ MiB\"".to_string()), None);
}

#[test]
fn reading_holds_to_64_bits() {
    assert_eq!(nvd_r2u64("\"18446744073709551615 B\"".to_string()), Some(u64::MAX));
    assert_eq!(nvd_r2u64("\"18446744073709551616 B\"".to_string()), None);
    assert_eq!(nvd_r2u64("\"99999999999999999999999 B\"".to_string()), None);
}

#[test]
fn reading_agrees_with_the_standard_parser() {
    let cases = [
        "\"8192 MiB\"", "\"+1\"", "\"-0\"", "\"\"", "\" \"", "\"1e3\"", "\"0x10\"", "\"1_000\"",
        "\"00000000000000000000001\"", "\"18446744073709551615\"", "\"18446744073709551616\"",
        "\"\r\n77\u{2028} %\"", "ab", "a", "\"\u{85}3\u{85}\"",
    ];
    for case in cases {
        let mut chars = case.chars();
        chars.next();
        chars.next_back();
        let expected: Option<u64> =
            chars.as_str().split(' ').next().and_then(|t| t.trim().parse().ok());
        assert_eq!(nvd_r2u64(case.to_string()), expected, "{:?}", case);
    }
}
