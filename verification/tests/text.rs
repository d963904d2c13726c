use git_acm::text::{chars_of, contains_text, joined, strip_wrapping, text_le};

#[test]
fn chars_of_keeps_every_character_in_order() {
    assert_eq!(chars_of(""), Vec::<char>::new());
    assert_eq!(chars_of("abc"), vec!['a', 'b', 'c']);
    assert_eq!(chars_of("a\u{e9}\u{1F600}z"), vec!['a', '\u{e9}', '\u{1F600}', 'z']);
}

#[test]
fn joined_appends() {
    assert_eq!(joined("ab".to_string(), "cd"), "abcd");
    assert_eq!(joined(String::new(), "cd"), "cd");
    assert_eq!(joined("ab".to_string(), ""), "ab");
}

#[test]
fn strip_wrapping_removes_quotes_and_line_feeds_at_both_ends() {
    assert_eq!(strip_wrapping("\"a\""), "a");
    assert_eq!(strip_wrapping("\n\n\"a b\"\n"), "a b");
    assert_eq!(strip_wrapping("\"\"\"x\"\"\""), "x");
    assert_eq!(strip_wrapping("a\"b\nc"), "a\"b\nc");
    assert_eq!(strip_wrapping("\"a"), "a");
    assert_eq!(strip_wrapping("a\n"), "a");
}

#[test]
fn strip_wrapping_leaves_other_characters_alone() {
    assert_eq!(strip_wrapping(" \"a\" "), " \"a\" ");
    assert_eq!(strip_wrapping("'a'"), "'a'");
    assert_eq!(strip_wrapping("\r\na\r\n"), "\r\na\r");
    assert_eq!(strip_wrapping("\"\u{e9}t\u{e9}\""), "\u{e9}t\u{e9}");
}

#[test]
fn strip_wrapping_of_only_wrapping_is_empty() {
    assert_eq!(strip_wrapping(""), "");
    assert_eq!(strip_wrapping("\""), "");
    assert_eq!(strip_wrapping("\n"), "");
    assert_eq!(strip_wrapping("\"\n\"\n"), "");
}

#[test]
fn contains_text_finds_parts() {
    assert!(contains_text("openai/gpt-4-turbo", "gpt-4"));
    assert!(contains_text("gpt-4", "gpt-4"));
    assert!(contains_text("xgpt-4", "gpt-4"));
    assert!(contains_text("gpt-4x", "gpt-4"));
    assert!(contains_text("aaab", "aab"));
    assert!(contains_text("abc", ""));
    assert!(contains_text("", ""));
}

#[test]
fn contains_text_rejects_what_is_not_there() {
    assert!(!contains_text("openai/gpt-3.5", "gpt-4"));
    assert!(!contains_text("gpt-", "gpt-4"));
    assert!(!contains_text("", "a"));
    assert!(!contains_text("ab", "abc"));
    assert!(!contains_text("GPT-4", "gpt-4"));
    assert!(!contains_text("g-p-t-4", "gpt-4"));
}

fn le(a: &str, b: &str) -> bool {
    text_le(&chars_of(a), &chars_of(b))
}

#[test]
fn text_le_orders_as_strings_are_ordered() {
    let words = ["", "a", "A", "ab", "abc", "abd", "b", "Z", "z", "\u{e9}", "e", "~", "a b", "a-b", "10", "9"];
    for a in words {
        for b in words {
            assert_eq!(le(a, b), a <= b, "{:?} <= {:?}", a, b);
        }
    }
}

#[test]
fn text_le_puts_a_prefix_first() {
    assert!(le("", "a"));
    assert!(!le("a", ""));
    assert!(le("gem", "gemini"));
    assert!(!le("gemini", "gem"));
    assert!(le("same", "same"));
}

fn samples() -> Vec<String> {
    let alphabet = ['"', '\n', 'a', ' ', '\u{e9}'];
    let mut all = vec![String::new()];
    let mut last = vec![String::new()];
    for _ in 0..5 {
        let mut next = Vec::new();
        for s in &last {
            for c in alphabet {
                let mut t = s.clone();
                t.push(c);
                next.push(t);
            }
        }
        all.extend(next.iter().cloned());
        last = next;
    }
    all
}

#[test]
fn strip_wrapping_agrees_with_trim_matches() {
    for s in samples() {
        assert_eq!(strip_wrapping(&s), s.trim_matches(|c| c == '"' || c == '\n'), "{:?}", s);
    }
}

#[test]
fn contains_text_agrees_with_str_contains() {
    let texts: Vec<String> = samples().into_iter().filter(|s| s.chars().count() <= 3).collect();
    for hay in samples().iter().filter(|s| s.chars().count() == 5).step_by(7) {
        for needle in &texts {
            assert_eq!(contains_text(hay, needle), hay.contains(needle.as_str()), "{:?} {:?}", hay, needle);
        }
    }
}
