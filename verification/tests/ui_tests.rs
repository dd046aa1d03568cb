use auto_commit_rs::ui::strip_tree_chars;

#[test]
fn test_strip_tree_chars_branch() {
    let input = "  ├── Provider              groq";
    let result = strip_tree_chars(input);
    assert_eq!(result, "Provider groq");
}

#[test]
fn test_strip_tree_chars_last_branch() {
    let input = "  └── API Key               ****";
    let result = strip_tree_chars(input);
    assert_eq!(result, "API Key ****");
}

#[test]
fn test_strip_tree_chars_nested() {
    let input = "  │   ├── Locale              en";
    let result = strip_tree_chars(input);
    assert_eq!(result, "Locale en");
}

#[test]
fn test_strip_tree_chars_arrow() {
    let input = "▼ Basic";
    let result = strip_tree_chars(input);
    assert_eq!(result, "Basic");
}

#[test]
fn test_strip_tree_chars_no_change() {
    let input = "Save & Exit";
    let result = strip_tree_chars(input);
    assert_eq!(result, "Save & Exit");
}

#[test]
fn test_strip_tree_chars_empty_after_strip() {
    assert_eq!(strip_tree_chars("├──"), "");
    assert_eq!(strip_tree_chars("   "), "");
    assert_eq!(strip_tree_chars(""), "");
}
