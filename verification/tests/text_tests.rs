use word_finder::text::{char_then, decimal_string, lines, padded};

#[test]
fn decimal_of_zero() {
    assert_eq!(decimal_string(0), "0");
}

#[test]
fn decimal_of_numbers() {
    assert_eq!(decimal_string(7), "7");
    assert_eq!(decimal_string(10), "10");
    assert_eq!(decimal_string(12345), "12345");
    assert_eq!(decimal_string(u64::MAX), "18446744073709551615");
}

#[test]
fn decimal_matches_to_string() {
    for n in [0u64, 1, 9, 10, 99, 100, 250, 65535, 1_000_000_007] {
        let s = decimal_string(n);
        assert_eq!(s, n.to_string());
        // reading the digits back gives the number
        assert_eq!(s.parse::<u64>().unwrap(), n);
    }
}

#[test]
fn padded_short_text() {
    assert_eq!(padded("ab", 5), "ab   ");
    assert_eq!(padded("", 3), "   ");
}

#[test]
fn padded_long_text_stays() {
    assert_eq!(padded("abcdef", 3), "abcdef");
    assert_eq!(padded("abc", 3), "abc");
}

#[test]
fn padded_counts_characters_not_bytes() {
    let s = padded("é", 3);
    assert_eq!(s, "é  ");
    assert_eq!(s, format!("{:3}", "é"));
}

#[test]
fn char_then_text() {
    assert_eq!(char_then('a', ": b"), "a: b");
}

fn std_lines(text: &str) -> Vec<String> {
    text.lines().map(|l| l.to_string()).collect()
}

#[test]
fn lines_basic() {
    assert_eq!(lines("a\nb\r\nc"), vec!["a", "b", "c"]);
    assert_eq!(lines("a\n"), vec!["a"]);
    assert_eq!(lines(""), Vec::<String>::new());
    assert_eq!(lines("\n"), vec![""]);
    assert_eq!(lines("\n\nx"), vec!["", "", "x"]);
}

#[test]
fn lines_carriage_returns() {
    assert_eq!(lines("a\r\r\n"), vec!["a\r"]);
    assert_eq!(lines("a\rb\n"), vec!["a\rb"]);
    assert_eq!(lines("a\r\nb\r\n"), vec!["a", "b"]);
}

#[test]
fn lines_agree_with_str_lines() {
    for text in [
        "", "\n", "abc", "abc\n", "a\nb\nc\n", "a\r\nb", "\r\n\r\n", "x\n\ny", "éa\nüb\n",
        "a\r\r\nb",
    ] {
        assert_eq!(lines(text), std_lines(text), "text {:?}", text);
    }
}

#[test]
fn lines_written_and_read_back() {
    let words = vec!["apple", "", "banana", "cherry pie"];
    let mut text = String::new();
    for w in &words {
        text.push_str(w);
        text.push('\n');
    }
    assert_eq!(lines(&text), words);
}

#[test]
fn lines_hold_no_newline() {
    for l in lines("a\nb\r\n\nc\rd\ne") {
        assert!(!l.contains('\n'));
    }
}
