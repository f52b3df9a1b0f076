use helix_client::strutil::{join_plus, parse_u64, split_on, str_eq, u64_to_dec};

#[test]
fn decimal_formatting_exact() {
    assert_eq!(u64_to_dec(0), "0");
    assert_eq!(u64_to_dec(7), "7");
    assert_eq!(u64_to_dec(10), "10");
    assert_eq!(u64_to_dec(5555469), "5555469");
    assert_eq!(u64_to_dec(u64::MAX), "18446744073709551615");
}

#[test]
fn decimal_parsing_exact() {
    assert_eq!(parse_u64("0"), Some(0));
    assert_eq!(parse_u64("5555469"), Some(5555469));
    assert_eq!(parse_u64("18446744073709551615"), Some(u64::MAX));
}

#[test]
fn decimal_parsing_rejects() {
    assert_eq!(parse_u64(""), None);
    assert_eq!(parse_u64("12a"), None);
    assert_eq!(parse_u64("-1"), None);
    assert_eq!(parse_u64("1 2"), None);
    assert_eq!(parse_u64("18446744073709551616"), None);
}

#[test]
fn splitting_keeps_all_segments() {
    assert_eq!(split_on("token", '='), vec!["token".to_string()]);
    assert_eq!(split_on("uid=zaekof", '='), vec!["uid".to_string(), "zaekof".to_string()]);
    assert_eq!(
        split_on("a==b", '='),
        vec!["a".to_string(), "".to_string(), "b".to_string()]
    );
    assert_eq!(split_on("", '='), vec!["".to_string()]);
    assert_eq!(split_on("token=", '='), vec!["token".to_string(), "".to_string()]);
    assert_eq!(
        split_on("a,b,c", ','),
        vec!["a".to_string(), "b".to_string(), "c".to_string()]
    );
}

#[test]
fn joining_puts_plus_between() {
    assert_eq!(join_plus(&vec![]), "");
    assert_eq!(join_plus(&vec!["a".to_string()]), "a");
    assert_eq!(join_plus(&vec!["a".to_string(), "b".to_string()]), "a+b");
    assert_eq!(
        join_plus(&vec!["x".to_string(), "y".to_string(), "z".to_string()]),
        "x+y+z"
    );
}

#[test]
fn formatted_numerals_read_back() {
    for n in [0u64, 1, 9, 10, 99, 5555469, u64::MAX] {
        assert_eq!(parse_u64(&u64_to_dec(n)), Some(n));
    }
}

#[test]
fn string_equality_by_characters() {
    assert!(str_eq("", ""));
    assert!(str_eq("abc", "abc"));
    assert!(!str_eq("abc", "abd"));
    assert!(!str_eq("abc", "ab"));
}
