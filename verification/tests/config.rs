use hanamark::config::{apply_config_update, push_recent_file, AppConfig, MAX_RECENT_FILES};

#[test]
fn test_push_first_entry() {
    let mut recent: Vec<String> = vec![];
    push_recent_file(&mut recent, "/a.md");
    assert_eq!(recent, vec!["/a.md"]);
}

#[test]
fn test_push_inserts_at_front() {
    let mut recent = vec!["/a.md".to_string()];
    push_recent_file(&mut recent, "/b.md");
    assert_eq!(recent[0], "/b.md");
    assert_eq!(recent[1], "/a.md");
}

#[test]
fn test_push_deduplicates() {
    let mut recent = vec!["/a.md".to_string(), "/b.md".to_string()];
    push_recent_file(&mut recent, "/b.md");
    assert_eq!(recent, vec!["/b.md", "/a.md"]);
}

#[test]
fn test_push_duplicate_already_at_front() {
    let mut recent = vec!["/a.md".to_string(), "/b.md".to_string()];
    push_recent_file(&mut recent, "/a.md");
    assert_eq!(recent, vec!["/a.md", "/b.md"]);
}

#[test]
fn test_push_enforces_max_limit() {
    let mut recent: Vec<String> = (0..MAX_RECENT_FILES).map(|i| format!("/{i}.md")).collect();
    push_recent_file(&mut recent, "/new.md");
    assert_eq!(recent.len(), MAX_RECENT_FILES);
    assert_eq!(recent[0], "/new.md");
    assert!(!recent.contains(&format!("/{}.md", MAX_RECENT_FILES - 1)));
}

#[test]
fn test_apply_config_update_records_theme_and_file() {
    let mut config = AppConfig::default();
    apply_config_update(
        &mut config,
        Some("sakura".to_string()),
        Some("/docs/note.md".to_string()),
    );
    assert_eq!(config.last_theme, Some("sakura".to_string()));
    assert_eq!(config.last_file, Some("/docs/note.md".to_string()));
    assert_eq!(config.recent_files, vec!["/docs/note.md"]);
}

#[test]
fn test_apply_config_update_absent_parts_change_nothing() {
    let mut config = AppConfig::default();
    config.last_theme = Some("ume".to_string());
    config.last_file = Some("/a.md".to_string());
    config.recent_files = vec!["/a.md".to_string()];
    apply_config_update(&mut config, None, None);
    assert_eq!(config.last_theme, Some("ume".to_string()));
    assert_eq!(config.last_file, Some("/a.md".to_string()));
    assert_eq!(config.recent_files, vec!["/a.md"]);
}
