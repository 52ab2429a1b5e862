use hanamark::theme::builtin_theme_names;

#[test]
fn test_builtin_theme_count() {
    assert_eq!(builtin_theme_names().len(), 10);
}

#[test]
fn test_builtin_theme_names_contains_all() {
    let themes = builtin_theme_names();
    let expected = [
        "sakura", "himawari", "ajisai", "momiji", "ume",
        "tsubaki", "tanpopo", "fuji", "nadeshiko", "asagao",
    ];
    for name in &expected {
        assert!(themes.contains(&name.to_string()), "テーマ '{name}' が見つからない");
    }
}

#[test]
fn test_builtin_theme_names_no_duplicates() {
    let themes = builtin_theme_names();
    let mut deduped = themes.clone();
    deduped.dedup();
    assert_eq!(themes.len(), deduped.len());
}
