use wg_manager::text::{
    concat_str, parse_u32_chars, parse_u64_chars, str_eq, trim_str, u64_to_string,
};

fn c(s: &str) -> Vec<char> {
    s.chars().collect()
}

#[test]
fn trimming_and_joining() {
    assert_eq!(trim_str("  a b \n"), "a b");
    assert_eq!(trim_str("\t\r\n"), "");
    assert_eq!(concat_str("wg", "0"), "wg0");
    assert!(str_eq("abc", "abc"));
    assert!(!str_eq("abc", "abd"));
}

#[test]
fn decimal_numbers() {
    assert_eq!(parse_u64_chars(&c("1700000000")), Some(1_700_000_000));
    assert_eq!(parse_u64_chars(&c("18446744073709551615")), Some(u64::MAX));
    assert_eq!(parse_u64_chars(&c("18446744073709551616")), None);
    assert_eq!(parse_u64_chars(&c("")), None);
    assert_eq!(parse_u64_chars(&c("12a")), None);
    assert_eq!(parse_u64_chars(&c("+7")), Some(7));
    assert_eq!(parse_u32_chars(&c("4294967296")), None);
    assert_eq!(parse_u32_chars(&c("20210914")), Some(20_210_914));
    assert_eq!(u64_to_string(0), "0");
    assert_eq!(u64_to_string(51820), "51820");
}
