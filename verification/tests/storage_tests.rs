use reading_app_web::storage::{
    collect_results, needs_object_store, ARTICLES_STORE, DB_NAME, DB_VERSION, DEFAULT_SETTINGS_ID,
    PRIMARY_KEY, SETTINGS_STORE,
};

#[test]
fn database_layout() {
    assert_eq!(DB_NAME, "ReadingApp");
    assert_eq!(DB_VERSION, 1);
    assert_eq!(ARTICLES_STORE, "articles");
    assert_eq!(SETTINGS_STORE, "settings");
    assert_eq!(PRIMARY_KEY, "id");
    assert_eq!(DEFAULT_SETTINGS_ID, "default");
}

#[test]
fn object_store_created_only_when_missing() {
    let existing = vec!["articles".to_string()];
    assert!(!needs_object_store(&existing, "articles"));
    assert!(needs_object_store(&existing, "settings"));
    assert!(needs_object_store(&Vec::new(), "articles"));
}

#[test]
fn collect_results_gathers_all_values() {
    let entries: Vec<Result<u32, String>> = vec![Ok(1), Ok(2), Ok(3)];
    assert_eq!(collect_results(entries, "label"), Ok(vec![1, 2, 3]));
    let empty: Vec<Result<u32, String>> = Vec::new();
    assert_eq!(collect_results(empty, "label"), Ok(Vec::new()));
}

#[test]
fn collect_results_reports_first_error() {
    let entries: Vec<Result<u32, String>> =
        vec![Ok(1), Err("bad entry".to_string()), Err("second".to_string())];
    assert_eq!(
        collect_results(entries, "failed to decode article list entries"),
        Err("failed to decode article list entries: bad entry".to_string())
    );
}
