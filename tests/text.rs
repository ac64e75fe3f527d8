use engram_accel::text::tokenize;

#[test]
fn tokenize_hello_world() {
    assert_eq!(tokenize("Hello, World_2!"), vec!["hello".to_string(), "world_2".to_string()]);
}

#[test]
fn tokenize_empty() {
    assert!(tokenize("").is_empty());
}

#[test]
fn tokenize_only_separators() {
    assert!(tokenize("  ,.;!? -- ").is_empty());
}

#[test]
fn tokenize_lowercases_unicode() {
    assert_eq!(tokenize("ÄBC Déf"), vec!["äbc".to_string(), "déf".to_string()]);
}

#[test]
fn tokenize_keeps_digits_and_underscores() {
    assert_eq!(
        tokenize("__init__ v2.0 x_y"),
        vec!["__init__".to_string(), "v2".to_string(), "0".to_string(), "x_y".to_string()]
    );
}

#[test]
fn tokenize_trailing_word() {
    assert_eq!(tokenize("-Memory"), vec!["memory".to_string()]);
}
