use workspace_labels::text::{chars_of, join, split, str_eq, substring};

#[test]
fn chars_of_a_string() {
    assert_eq!(chars_of("aé🔥"), vec!['a', 'é', '🔥']);
    assert!(chars_of("").is_empty());
}

#[test]
fn str_eq_compares_the_characters() {
    assert!(str_eq("", ""));
    assert!(str_eq("añb", "añb"));
    assert!(!str_eq("ab", "abc"));
    assert!(!str_eq("abd", "abc"));
}

#[test]
fn join_puts_the_separator_between_neighbours() {
    let tokens = vec!["a".to_string(), String::new(), "bc".to_string()];
    assert_eq!(join(&tokens, ", "), "a, , bc");
    assert_eq!(join(&tokens[..1].to_vec(), ", "), "a");
    assert_eq!(join(&Vec::new(), ", "), "");
}

#[test]
fn substring_counts_characters() {
    assert_eq!(substring("aé🔥b", 1, 3), "é🔥");
    assert_eq!(substring("abc", 3, 3), "");
}

#[test]
fn split_agrees_with_std() {
    for text in ["", "a", "\0", "a\0", "\0a", "a\0b\0", "\0\0", "é\0🔥\0\0x"] {
        let expected: Vec<String> = text.split('\0').map(|s| s.to_string()).collect();
        assert_eq!(split(text, '\0'), expected);
    }
}
