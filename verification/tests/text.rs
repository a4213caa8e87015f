use dns_changer::text::{contains, lines, split};

const SAMPLES: [&str; 16] = [
    "",
    "\n",
    "a",
    "a\n",
    "a\r\n",
    "a\r",
    "a\n\r",
    "a\r\nb\n\nc",
    "\r\n\r\n",
    "x\r\r\ny",
    "conn1:eth0\nconn2:\nconn3:wlan0",
    "naïve:ø\r\n✅:done\n",
    ":",
    "::",
    "a:b:c",
    "\n\n\n",
];

#[test]
fn split_keeps_empty_pieces() {
    assert_eq!(split("a::b:", ':'), vec!["a", "", "b", ""]);
    assert_eq!(split("", ':'), vec![""]);
    assert_eq!(split(":", ':'), vec!["", ""]);
    assert_eq!(split("conn1:eth0", ':'), vec!["conn1", "eth0"]);
    assert_eq!(split("no separator", ':'), vec!["no separator"]);
}

#[test]
fn split_matches_the_standard_library() {
    for text in SAMPLES {
        for separator in [':', '\n', 'a', '✅'] {
            let expected: Vec<String> = text.split(separator).map(|piece| piece.to_string()).collect();
            assert_eq!(split(text, separator), expected, "{:?} at {:?}", text, separator);
        }
    }
}

#[test]
fn split_counts_characters_not_bytes() {
    assert_eq!(split("a✅:zé:ø", ':'), vec!["a✅", "zé", "ø"]);
    assert_eq!(split("a✅zé", '✅'), vec!["a", "zé"]);
}

#[test]
fn lines_lose_one_carriage_return_before_the_line_feed() {
    assert_eq!(lines("abc\r\n"), vec!["abc"]);
    assert_eq!(lines("abc\r\r\n"), vec!["abc\r"]);
    assert_eq!(lines("\rabc\n"), vec!["\rabc"]);
    assert_eq!(lines("\r\n"), vec![""]);
}

#[test]
fn lines_of_plain_text() {
    assert_eq!(lines("one\ntwo\r\nthree"), vec!["one", "two", "three"]);
    assert_eq!(lines("one\n"), vec!["one"]);
    assert_eq!(lines("one\n\n"), vec!["one", ""]);
    assert_eq!(lines(""), Vec::<String>::new());
    assert_eq!(lines("\n"), vec![""]);
}

#[test]
fn lines_keep_a_carriage_return_that_no_line_feed_follows() {
    assert_eq!(lines("one\r"), vec!["one\r"]);
    assert_eq!(lines("one\rtwo\n"), vec!["one\rtwo"]);
    assert_eq!(lines("one\n\r"), vec!["one", "\r"]);
}

#[test]
fn lines_match_the_standard_library() {
    for text in SAMPLES {
        let expected: Vec<String> = text.lines().map(|line| line.to_string()).collect();
        assert_eq!(lines(text), expected, "{:?}", text);
    }
}

#[test]
fn contains_finds_substrings() {
    assert!(contains("ipv4.dns-search: --", "ipv4.dns"));
    assert!(contains("    ipv4.dns", "ipv4.dns"));
    assert!(!contains("ipv6.dns: --", "ipv4.dns"));
    assert!(!contains("ipv4.dn", "ipv4.dns"));
    assert!(!contains("", "ipv4.dns"));
    assert!(contains("abc", ""));
    assert!(contains("", ""));
    assert!(contains("aab", "ab"));
}

#[test]
fn contains_matches_the_standard_library() {
    for text in SAMPLES {
        for pattern in ["", "a", ":", "\r\n", "conn", "wlan0", "✅", "ø\r", "b:c", "a:b:c:d"] {
            assert_eq!(contains(text, pattern), text.contains(pattern), "{:?} in {:?}", pattern, text);
        }
    }
}
