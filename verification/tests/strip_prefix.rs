use publisher_model_rewrite::strip_publisher_prefix;

#[test]
fn strips_standard_publisher_path() {
    assert_eq!(
        strip_publisher_prefix("publishers/llm-internal/models/facebook/opt-125m"),
        Some("facebook/opt-125m")
    );
}

#[test]
fn strips_single_segment_model() {
    assert_eq!(
        strip_publisher_prefix("publishers/corp/models/gpt-4o"),
        Some("gpt-4o")
    );
}

#[test]
fn strips_deeply_nested_model() {
    assert_eq!(
        strip_publisher_prefix("publishers/ns/models/org/sub/model-v2"),
        Some("org/sub/model-v2")
    );
}

#[test]
fn ignores_non_publisher_model() {
    assert_eq!(strip_publisher_prefix("gpt-4o"), None);
}

#[test]
fn ignores_model_without_models_separator() {
    assert_eq!(strip_publisher_prefix("publishers/ns/gpt-4o"), None);
}

#[test]
fn ignores_empty_suffix_after_models() {
    assert_eq!(strip_publisher_prefix("publishers/ns/models/"), None);
}

#[test]
fn ignores_empty_string() {
    assert_eq!(strip_publisher_prefix(""), None);
}

#[test]
fn ignores_publishers_prefix_only() {
    assert_eq!(strip_publisher_prefix("publishers/"), None);
}

#[test]
fn splits_at_first_models_separator() {
    assert_eq!(
        strip_publisher_prefix("publishers/a/models/b/models/c"),
        Some("b/models/c")
    );
}

#[test]
fn namespace_ending_in_models_is_stripped_whole() {
    assert_eq!(
        strip_publisher_prefix("publishers/llm-models/models/facebook/opt-125m"),
        Some("facebook/opt-125m")
    );
    assert_eq!(strip_publisher_prefix("publishers/mymodels/x"), None);
}

#[test]
fn separator_needs_its_leading_slash() {
    assert_eq!(strip_publisher_prefix("publishers/models/x"), None);
    assert_eq!(strip_publisher_prefix("publishers//models/x"), Some("x"));
}

#[test]
fn prefix_must_start_the_name() {
    assert_eq!(strip_publisher_prefix("xpublishers/ns/models/m"), None);
    assert_eq!(strip_publisher_prefix("Publishers/ns/models/m"), None);
    assert_eq!(strip_publisher_prefix("publisher/ns/models/m"), None);
}

#[test]
fn keeps_non_ascii_names_whole() {
    assert_eq!(
        strip_publisher_prefix("publishers/équipe/models/模型-ü"),
        Some("模型-ü")
    );
}

#[test]
fn round_trip_of_built_paths() {
    for namespace in ["llm-internal", "corp", "a", "", "llm-models", "models"] {
        for name in ["m", "facebook/opt-125m", "org/sub/model-v2", "models/x"] {
            let path = format!("publishers/{namespace}/models/{name}");
            assert_eq!(strip_publisher_prefix(&path), Some(name));
        }
    }
}

#[test]
fn stripped_name_reassembles_to_input() {
    for path in [
        "publishers/llm-internal/models/facebook/opt-125m",
        "publishers/a/models/b/models/c",
        "publishers/llm-models/models/x",
    ] {
        let name = strip_publisher_prefix(path).unwrap();
        assert!(!name.is_empty());
        assert!(path.starts_with("publishers/"));
        assert!(path.ends_with(&format!("/models/{name}")));
    }
}
