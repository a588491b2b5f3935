use git_host::text::{
    ascii_lower_exec, chars_of, i64_to_string, parse_i64_exec, split_exec, str_contains,
    trim_end_exec, trim_start_exec,
};

fn v(s: &str) -> Vec<char> {
    s.chars().collect()
}

#[test]
fn decimal_round_trip() {
    for n in [0i64, 7, -7, 42, i64::MAX, i64::MIN, 1_000_000, -1] {
        let s = i64_to_string(n);
        assert_eq!(s, n.to_string());
        assert_eq!(parse_i64_exec(&v(&s)), Some(n));
    }
}

#[test]
fn parse_i64_matches_std() {
    for s in ["", "+", "-", "+-1", "12a", "007", "-0", "+5", "9223372036854775807",
        "9223372036854775808", "-9223372036854775808", "-9223372036854775809", " 1", "1 "] {
        assert_eq!(parse_i64_exec(&v(s)), s.parse::<i64>().ok(), "input {s:?}");
    }
}

#[test]
fn contains_and_trims() {
    assert!(str_contains("abc", ""));
    assert!(str_contains("abc", "bc"));
    assert!(!str_contains("abc", "cb"));
    assert!(!str_contains("", "a"));
    assert_eq!(trim_start_exec(&v("https://https://x"), &v("https://")), v("x"));
    assert_eq!(trim_end_exec(&v("x///"), &v("/")), v("x"));
    assert_eq!(trim_end_exec(&v("r.git.git"), &v(".git")), v("r"));
    assert_eq!(trim_end_exec(&v("abc"), &v("")), v("abc"));
}

#[test]
fn split_like_std() {
    for s in ["", "a", ":", "a:b", "a::b:", "git@h:o/r.git"] {
        let ours: Vec<String> = split_exec(&v(s), ':').iter().map(|p| p.iter().collect()).collect();
        let std: Vec<String> = s.split(':').map(|p| p.to_string()).collect();
        assert_eq!(ours, std);
    }
}

#[test]
fn ascii_lowercase_like_std() {
    let s = "HeLLo WÖRLD 403 FORBIDDEN";
    let ours: String = ascii_lower_exec(&chars_of(s)).into_iter().collect();
    assert_eq!(ours, s.to_ascii_lowercase());
}
