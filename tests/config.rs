use tmx::config::Config;

#[test]
fn test_config_default() {
    let cfg = Config::default();
    assert!(cfg.tags.is_empty());
    assert!(cfg.groups.is_empty());
}

#[test]
fn test_add_tag_to_session() {
    let mut config = Config::default();
    config.add_tag("work", "important");
    assert_eq!(config.get_tags("work"), vec!["important"]);

    config.add_tag("work", "important");
    assert_eq!(config.get_tags("work"), vec!["important"]);

    config.add_tag("work", "dev");
    assert_eq!(config.get_tags("work"), vec!["important", "dev"]);
}

#[test]
fn test_remove_tag() {
    let mut config = Config::default();
    config.add_tag("work", "important");
    config.add_tag("work", "dev");

    config.remove_tag("work", "important");
    assert_eq!(config.get_tags("work"), vec!["dev"]);

    config.remove_tag("work", "dev");
    assert!(config.get_tags("work").is_empty());
    assert!(!config.tags.contains_key("work"));

    config.remove_tag("nonexistent", "tag");
}

#[test]
fn test_filter_by_tag() {
    let mut config = Config::default();
    config.add_tag("work", "important");
    config.add_tag("personal", "important");
    config.add_tag("dev", "coding");

    let important = config.sessions_with_tag("important");
    assert_eq!(important.len(), 2);
    assert!(important.contains(&"work".to_string()));
    assert!(important.contains(&"personal".to_string()));

    let coding = config.sessions_with_tag("coding");
    assert_eq!(coding.len(), 1);
    assert!(coding.contains(&"dev".to_string()));

    let none = config.sessions_with_tag("nonexistent");
    assert!(none.is_empty());
}

#[test]
fn tags_keep_insertion_order_across_sessions() {
    let mut config = Config::default();
    config.add_tag("b", "t");
    config.add_tag("a", "t");
    config.add_tag("c", "u");
    assert_eq!(config.sessions_with_tag("t"), vec!["b", "a"]);
    assert_eq!(config.tags.len(), 3);
    config.remove_tag("b", "t");
    assert_eq!(config.sessions_with_tag("t"), vec!["a"]);
    assert_eq!(config.tags.len(), 2);
    assert!(config.get_tags("missing").is_empty());
}
