use oxide_dock::apps::normalize_running_paths;

#[test]
fn normalize_folds_and_dedupes() {
    let paths: Vec<String> = vec![
        "C:\\Apps\\Tool.EXE".to_string(),
        "c:\\apps\\tool.exe".to_string(),
        "C:\\Other\\Thing.exe".to_string(),
    ];
    let normalized = normalize_running_paths(&paths);
    assert_eq!(normalized.len(), 2);
    assert!(normalized.contains(&"c:\\apps\\tool.exe".to_string()));
    assert!(normalized.contains(&"c:\\other\\thing.exe".to_string()));
}

#[test]
fn normalize_empty() {
    let normalized = normalize_running_paths(&Vec::new());
    assert!(normalized.is_empty());
}

#[test]
fn normalize_keeps_distinct_paths() {
    let paths: Vec<String> = vec!["a".to_string(), "b".to_string(), "a".to_string()];
    let normalized = normalize_running_paths(&paths);
    assert_eq!(normalized, vec!["a".to_string(), "b".to_string()]);
}
