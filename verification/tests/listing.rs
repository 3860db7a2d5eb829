use chat_relay::models::{get_models, model_names, LocalModel};

fn model(name: &str, modified_at: &str, size: u64) -> LocalModel {
    LocalModel { name: name.to_string(), modified_at: modified_at.to_string(), size }
}

#[test]
fn listing_preserves_daemon_order() {
    let daemon = vec![
        model("llama3", "2024-04-18T10:00:00Z", 4_700_000_000),
        model("mistral", "2024-03-01T09:30:00Z", 4_100_000_000),
    ];
    let result = get_models(Ok(daemon)).unwrap();
    assert_eq!(result, vec!["llama3".to_string(), "mistral".to_string()]);
}

#[test]
fn listing_yields_one_name_per_record() {
    let daemon = vec![
        model("a", "t1", 1),
        model("b", "t2", 2),
        model("c", "t3", 3),
    ];
    let names = model_names(&daemon);
    assert_eq!(names.len(), 3);
    assert_eq!(names, vec!["a", "b", "c"]);
}

#[test]
fn listing_of_no_models_is_empty() {
    let result = get_models(Ok(Vec::new())).unwrap();
    assert!(result.is_empty());
}

#[test]
fn listing_failure_carries_context() {
    let result = get_models(Err("connection refused".to_string()));
    assert_eq!(
        result.unwrap_err(),
        "Failed to list models: connection refused"
    );
}
