use clamber_core::config::config_path_candidates;
use clamber_core::{ConfigBuilder, ConfigFormat, ConfigManager, ConfigValue};

#[test]
fn test_resolve_format() {
    // An explicit format wins over the extension.
    assert_eq!(
        ConfigFormat::resolve("config.yaml", Some(ConfigFormat::Json)),
        Some(ConfigFormat::Json)
    );
    // Without one, the extension decides.
    assert_eq!(
        ConfigFormat::resolve("config.yaml", None),
        Some(ConfigFormat::Yaml)
    );
    assert_eq!(ConfigFormat::resolve("config.conf", None), None);
}

#[test]
fn test_config_path_candidates() {
    let candidates = config_path_candidates("myapp");
    assert_eq!(
        candidates,
        vec![
            "myapp.yaml",
            "myapp.yml",
            "myapp.toml",
            "myapp.json",
            "config/myapp.yaml",
            "config/myapp.yml",
            "config/myapp.toml",
            "config/myapp.json",
        ]
    );
}

#[test]
fn test_config_format_from_extension() {
    assert_eq!(
        ConfigFormat::from_extension("config.yaml"),
        Some(ConfigFormat::Yaml)
    );
    assert_eq!(
        ConfigFormat::from_extension("config.yml"),
        Some(ConfigFormat::Yaml)
    );
    assert_eq!(
        ConfigFormat::from_extension("config.toml"),
        Some(ConfigFormat::Toml)
    );
    assert_eq!(
        ConfigFormat::from_extension("config.json"),
        Some(ConfigFormat::Json)
    );
    assert_eq!(ConfigFormat::from_extension("config.txt"), None);
}

#[test]
fn test_from_extension_edge_cases() {
    // A directory prefix does not hide the extension.
    assert_eq!(
        ConfigFormat::from_extension("etc/app/config.json"),
        Some(ConfigFormat::Json)
    );
    // A dot in a directory name is not an extension.
    assert_eq!(ConfigFormat::from_extension("dir.d/config"), None);
    // A leading dot marks a hidden file, not an extension.
    assert_eq!(ConfigFormat::from_extension(".yaml"), None);
    assert_eq!(ConfigFormat::from_extension("conf/.yaml"), None);
    // A hidden file can still have an extension of its own.
    assert_eq!(
        ConfigFormat::from_extension(".config.yml"),
        Some(ConfigFormat::Yaml)
    );
    // Empty extension, empty path, case sensitivity.
    assert_eq!(ConfigFormat::from_extension("config."), None);
    assert_eq!(ConfigFormat::from_extension(""), None);
    assert_eq!(ConfigFormat::from_extension("config.YAML"), None);
}

#[test]
fn test_builder_records_sources_and_settings() {
    let builder = ConfigManager::builder()
        .add_yaml_file("base.yaml")
        .add_toml_file("override.toml")
        .add_json_file("extra.json")
        .add_file("guess_me.conf", None)
        .with_env_prefix("APP")
        .with_env_separator("::")
        .ignore_missing_files(true);

    let files = builder.files();
    assert_eq!(files.len(), 4);
    assert_eq!(files[0].0, "base.yaml");
    assert_eq!(files[0].1, Some(ConfigFormat::Yaml));
    assert_eq!(files[1].0, "override.toml");
    assert_eq!(files[1].1, Some(ConfigFormat::Toml));
    assert_eq!(files[2].0, "extra.json");
    assert_eq!(files[2].1, Some(ConfigFormat::Json));
    assert_eq!(files[3].0, "guess_me.conf");
    assert_eq!(files[3].1, None);

    assert_eq!(builder.env_prefix().as_deref(), Some("APP"));
    assert_eq!(builder.env_separator(), "::");
    assert!(builder.ignore_missing());
}

#[test]
fn test_builder_defaults() {
    let builder = ConfigBuilder::new();
    assert!(builder.files().is_empty());
    assert!(builder.env_prefix().is_none());
    assert_eq!(builder.env_separator(), "__");
    assert!(!builder.ignore_missing());
    assert!(builder.defaults().is_empty());
}

#[test]
fn test_with_default_inserts_and_replaces() {
    let builder = ConfigBuilder::new()
        .with_default("name", ConfigValue::Str("default-app".to_string()))
        .unwrap()
        .with_default("port", ConfigValue::Int(9000))
        .unwrap()
        .with_default("debug", ConfigValue::Bool(false))
        .unwrap();

    let defaults = builder.defaults();
    assert_eq!(defaults.len(), 3);
    assert_eq!(defaults[0].0, "name");
    assert_eq!(
        defaults[0].1,
        ConfigValue::Str("default-app".to_string())
    );
    assert_eq!(defaults[1].1, ConfigValue::Int(9000));
    assert_eq!(defaults[2].1, ConfigValue::Bool(false));

    // Recording a key a second time replaces the value in place.
    let builder = builder
        .with_default("port", ConfigValue::Int(3306))
        .unwrap();
    let defaults = builder.defaults();
    assert_eq!(defaults.len(), 3);
    assert_eq!(defaults[1].0, "port");
    assert_eq!(defaults[1].1, ConfigValue::Int(3306));
}
