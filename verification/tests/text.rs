use ar_proxy::text::{
    chars_of, push_decimal, push_digits, split_text, strip_prefix, strip_suffix,
};

fn decimal(n: i64) -> String {
    let mut out = String::from("n=");
    push_decimal(&mut out, n);
    out
}

#[test]
fn decimal_notation() {
    assert_eq!(decimal(0), "n=0");
    assert_eq!(decimal(7), "n=7");
    assert_eq!(decimal(10), "n=10");
    assert_eq!(decimal(404), "n=404");
    assert_eq!(decimal(-1), "n=-1");
    assert_eq!(decimal(-120), "n=-120");
    assert_eq!(decimal(i64::MAX), "n=9223372036854775807");
    assert_eq!(decimal(i64::MIN), "n=-9223372036854775808");
    let mut out = String::new();
    push_digits(&mut out, u64::MAX);
    assert_eq!(out, "18446744073709551615");
}

#[test]
fn decimal_notation_agrees_with_the_standard_library() {
    let mut n: i64 = -2000;
    while n <= 2000 {
        assert_eq!(decimal(n), format!("n={}", n));
        n += 1;
    }
}

fn pieces(s: &str, sep: char) -> Vec<String> {
    split_text(s, sep)
}

#[test]
fn text_is_cut_at_every_separator() {
    assert_eq!(pieces("a,b,c", ','), vec!["a", "b", "c"]);
    assert_eq!(pieces("abc", ','), vec!["abc"]);
    assert_eq!(pieces("", ','), vec![""]);
    assert_eq!(pieces(",", ','), vec!["", ""]);
    assert_eq!(pieces("a,,b,", ','), vec!["a", "", "b", ""]);
    assert_eq!(pieces(",a", ','), vec!["", "a"]);
    assert_eq!(pieces("ä:ö", ':'), vec!["ä", "ö"]);
}

#[test]
fn cutting_agrees_with_the_standard_library() {
    for s in ["", "a", ":", "a:b", "::", "a::b:", ":a:", "no separator", "x:y:z:w"] {
        let expected: Vec<String> = s.split(':').map(|p| p.to_string()).collect();
        assert_eq!(pieces(s, ':'), expected);
    }
}

#[test]
fn beginning_is_taken_off() {
    assert_eq!(strip_prefix("Basic abc", "Basic "), Some("abc".to_string()));
    assert_eq!(strip_prefix("Basic ", "Basic "), Some(String::new()));
    assert_eq!(strip_prefix("Basic", "Basic "), None);
    assert_eq!(strip_prefix("basic abc", "Basic "), None);
    assert_eq!(strip_prefix("abc", ""), Some("abc".to_string()));
    assert_eq!(strip_prefix("", ""), Some(String::new()));
    assert_eq!(strip_prefix("", "x"), None);
    assert_eq!(strip_prefix("xBasic abc", "Basic "), None);
}

#[test]
fn ending_is_taken_off_once() {
    assert_eq!(strip_suffix("host/", "/"), Some("host".to_string()));
    assert_eq!(strip_suffix("host//", "/"), Some("host/".to_string()));
    assert_eq!(strip_suffix("host", "/"), None);
    assert_eq!(strip_suffix("/", "/"), Some(String::new()));
    assert_eq!(strip_suffix("", "/"), None);
    assert_eq!(strip_suffix("/host", "/"), None);
}

#[test]
fn characters_are_counted_one_by_one() {
    let chars = chars_of("héllo:wörld");
    assert_eq!(chars.len(), 11);
    assert_eq!(chars[1], 'é');
    assert_eq!(chars[5], ':');
    assert_eq!(chars[7], 'ö');
    assert!(chars_of("").is_empty());
}
