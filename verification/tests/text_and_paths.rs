use http_server::paths::join;
use http_server::text::{
    chars_of, decimal_text, parse_u16, replace_all, split_lines, starts_with, strip_prefix,
};

#[test]
fn chars_are_kept_in_order() {
    assert_eq!(chars_of("aé€"), vec!['a', 'é', '€']);
    assert!(chars_of("").is_empty());
}

#[test]
fn replacing_is_that_of_the_standard_library() {
    let cases = vec![
        ("", "a", "b"),
        ("aaa", "aa", "b"),
        ("aaaa", "aa", "a"),
        ("{a}{a} {b}", "{a}", "{b}"),
        ("xéyéz", "é", "--"),
        ("abc", "abcd", "!"),
        ("no match", "zz", "!"),
        ("{{domain}}", "{domain}", ""),
    ];
    for (s, pat, with) in cases {
        assert_eq!(replace_all(s, pat, with), s.replace(pat, with));
    }
    assert_eq!(replace_all("aaaaa", "aa", "b"), "bba");
}

#[test]
fn text_without_the_pattern_is_not_changed() {
    assert_eq!(replace_all("{domai} n}", "{domain}", "x"), "{domai} n}");
}

#[test]
fn prefixes_are_found_and_stripped() {
    assert!(starts_with("notAfter=x", "notAfter="));
    assert!(starts_with("x", ""));
    assert!(!starts_with("no", "not"));
    assert!(!starts_with("Notx", "not"));
    assert_eq!(strip_prefix("notAfter=é", "notAfter="), Some("é"));
    assert_eq!(strip_prefix("notAfter", "notAfter="), None);
}

#[test]
fn lines_are_those_of_the_standard_library() {
    let cases = vec![
        "", "\n", "\r\n", "a", "a\n", "a\r\n", "a\nb", "a\r\nb\r\n", "a\r", "a\rb\nc", "a\r\r\n",
        "\n\n", "a\n\nb", "\r", "é\r\n€",
    ];
    for s in cases {
        let expected: Vec<String> = s.lines().map(|l| l.to_string()).collect();
        assert_eq!(split_lines(s), expected);
    }
    assert_eq!(split_lines("a\r\n\r\nb"), vec!["a", "", "b"]);
}

#[test]
fn ports_are_read_as_the_standard_library_reads_them() {
    let cases = vec![
        "443", "0", "65535", "65536", "99999999999999999999", "", "+", "-", "+443", "-1", "-0",
        "++1", "000443", "4 43", " 443", "443 ", "4_43", "0x1f", "443a", "٤", "65536x",
    ];
    for s in cases {
        assert_eq!(parse_u16(s), s.parse::<u16>().ok());
    }
    assert_eq!(parse_u16("+0080"), Some(80));
}

#[test]
fn numbers_are_written_in_decimal() {
    for n in [0u64, 1, 9, 10, 11, 99, 100, 443, 8080, 65535, 1234567890, u64::MAX] {
        assert_eq!(decimal_text(n), n.to_string());
    }
}

#[test]
fn paths_are_joined_as_the_standard_library_joins_them() {
    let cases = vec![
        ("certs/", "cert.pem"),
        ("certs", "cert.pem"),
        ("", "cert.pem"),
        ("/", "a"),
        ("certs", ""),
        ("certs/", ""),
        ("", ""),
        ("certs", "/etc/passwd"),
        ("a/b", "c/d"),
        ("a", "../b"),
        ("é", "€"),
    ];
    for (base, part) in cases {
        let expected = std::path::Path::new(base).join(part);
        assert_eq!(join(base, part), expected.to_str().unwrap());
    }
    assert_eq!(join("certs", "cert.pem"), "certs/cert.pem");
    assert_eq!(join("certs/", "cert.pem"), "certs/cert.pem");
}
