use mpv_handler::text::{
    from_chars, joined, keep_numeric, line_bounds, parse_word, spells, to_chars, trim_bounds,
};

fn trim(s: &str) -> String {
    let v = to_chars(s);
    let (a, b) = trim_bounds(&v, 0, v.len());
    from_chars(&v, a, b)
}

fn lines_of(s: &str) -> Vec<String> {
    let v = to_chars(s);
    line_bounds(&v, 0, v.len()).into_iter().map(|(a, b)| from_chars(&v, a, b)).collect()
}

fn word(s: &str) -> Option<usize> {
    let v = to_chars(s);
    parse_word(&v, 0, v.len())
}

#[test]
fn chars_round_trip() {
    let v = to_chars("héllo");
    assert_eq!(v, vec!['h', 'é', 'l', 'l', 'o']);
    assert_eq!(from_chars(&v, 1, 4), "éll");
    assert_eq!(from_chars(&v, 2, 2), "");
}

#[test]
fn joined_appends() {
    assert_eq!(joined("ab", "cd"), "abcd");
    assert_eq!(joined("", ""), "");
}

#[test]
fn spells_compares_a_stretch() {
    let v = to_chars("key=value");
    assert!(spells(&v, 0, 3, "key"));
    assert!(spells(&v, 4, 9, "value"));
    assert!(!spells(&v, 0, 4, "key"));
    assert!(spells(&v, 3, 3, ""));
}

#[test]
fn trim_matches_std() {
    for s in ["", " ", "  a  ", "\t\na b\r\n", "abc", "\u{3000}x\u{a0}", " \u{85} "] {
        assert_eq!(trim(s), s.trim());
    }
}

#[test]
fn trim_bounds_stay_in_range() {
    let v = to_chars("ab  cd  ef");
    assert_eq!(trim_bounds(&v, 2, 8), (4, 6));
    assert_eq!(trim_bounds(&v, 2, 4), (4, 4));
}

#[test]
fn lines_match_std() {
    for s in [
        "",
        "\n",
        "a",
        "a\n",
        "a\nb",
        "a\r\nb\r\n",
        "a\rb",
        "a\r",
        "\r\n",
        "\n\n",
        "a\n\nb\n",
        "x\r\r\ny",
    ] {
        let expected: Vec<String> = s.lines().map(|l| l.to_string()).collect();
        assert_eq!(lines_of(s), expected, "{:?}", s);
    }
}

#[test]
fn keep_numeric_filters() {
    assert_eq!(keep_numeric("720p"), "720");
    assert_eq!(keep_numeric("p"), "");
    assert_eq!(keep_numeric("4k60"), "460");
    assert_eq!(keep_numeric("٣x½"), "٣½");
}

#[test]
fn parse_word_reads_decimal() {
    assert_eq!(word("0"), Some(0));
    assert_eq!(word("7"), Some(7));
    assert_eq!(word("+12"), Some(12));
    assert_eq!(word("007"), Some(7));
    assert_eq!(word(""), None);
    assert_eq!(word("+"), None);
    assert_eq!(word("-1"), None);
    assert_eq!(word("1 "), None);
    assert_eq!(word("1_0"), None);
    assert_eq!(word("٣"), None);
    assert_eq!(word("12a"), None);
}

#[test]
fn parse_word_matches_std_at_the_limit() {
    let max = usize::MAX.to_string();
    assert_eq!(word(&max), Some(usize::MAX));
    let over = format!("{}0", max);
    assert_eq!(word(&over), None);
    assert_eq!(over.parse::<usize>().ok(), None);
    let mut next: Vec<char> = max.chars().collect();
    let last = next.len() - 1;
    next[last] = char::from_digit(next[last].to_digit(10).unwrap() + 1, 10).unwrap();
    let next: String = next.into_iter().collect();
    assert_eq!(word(&next), next.parse::<usize>().ok());
}

#[test]
fn white_space_is_the_stated_set() {
    let stated = |n: u32| {
        (0x0009..=0x000D).contains(&n)
            || n == 0x0020
            || n == 0x0085
            || n == 0x00A0
            || n == 0x1680
            || (0x2000..=0x200A).contains(&n)
            || n == 0x2028
            || n == 0x2029
            || n == 0x202F
            || n == 0x205F
            || n == 0x3000
    };
    let mut count = 0;
    for n in 0..=0x10FFFFu32 {
        if let Some(c) = char::from_u32(n) {
            assert_eq!(c.is_whitespace(), stated(n), "U+{:04X}", n);
            let v = vec!['a', c, 'b', c];
            let kept = trim_bounds(&v, 1, 4);
            assert_eq!(kept, if stated(n) { (2, 3) } else { (1, 4) }, "U+{:04X}", n);
            if stated(n) {
                count += 1;
            }
        }
    }
    assert_eq!(count, 25);
}
