use allog::config::{parse_config, read_config, Config, ConfigAllocator, ConfigError, CONFIG};
use vstd::hash_map::StringHashMap;

#[test]
fn load() {
    let res = parse_config(
        r#"
            allocator = "malloc"

            [targets]
            malloc = "malloc"
            calloc = "calloc"
            memalign = "memalign"
            realloc = "realloc"
            reallocarray = "reallocarray"
            free = "free"
        "#,
    );
    if let Err(ref err) = res {
        println!("[config::load] test error: {}", err.message());
    }
    assert!(res.is_ok());
}

#[test]
fn load_keeps_what_the_text_says() {
    let config = parse_config(
        "allocator = \"malloc\"\nignored = 3\n\n[targets]\nmalloc = \"je_malloc\"\nfree = \"\"\n",
    )
    .unwrap();
    assert_eq!(config.allocator, ConfigAllocator::Malloc);
    assert_eq!(config.get_target("malloc"), "je_malloc");
    assert_eq!(config.get_target("free"), "");
    assert_eq!(config.get_target("calloc"), "calloc");
    assert_eq!(config.targets.len(), 2);
}

#[test]
fn load_noop_family() {
    let config = parse_config("allocator = \"noop\"\n[targets]\n").unwrap();
    assert_eq!(config.allocator, ConfigAllocator::Noop);
    assert_eq!(config.targets.len(), 0);
}

#[test]
fn target_without_entry_falls_back_to_its_name() {
    let config = Config { allocator: ConfigAllocator::Malloc, targets: StringHashMap::new() };
    assert_eq!(config.get_target("malloc"), "malloc");
    assert_eq!(config.get_target("anything"), "anything");
    assert!(!config.is_disabled("malloc"));
}

#[test]
fn target_with_empty_entry_is_disabled() {
    let mut targets = StringHashMap::new();
    targets.insert("free".to_string(), String::new());
    targets.insert("malloc".to_string(), "my_malloc".to_string());
    let config = Config { allocator: ConfigAllocator::Malloc, targets };
    assert!(config.is_disabled("free"));
    assert!(!config.is_disabled("malloc"));
    assert!(!config.is_disabled("realloc"));
    assert_eq!(config.get_target("malloc"), "my_malloc");
}

#[test]
fn family_names_are_lower_case() {
    assert_eq!(ConfigAllocator::from_name("malloc"), Some(ConfigAllocator::Malloc));
    assert_eq!(ConfigAllocator::from_name("noop"), Some(ConfigAllocator::Noop));
    assert_eq!(ConfigAllocator::from_name("Malloc"), None);
    assert_eq!(ConfigAllocator::from_name(""), None);
}

#[test]
fn text_that_is_not_toml_is_a_syntax_error() {
    match parse_config("allocator = ") {
        Err(ConfigError::Syntax(words)) => assert!(!words.is_empty()),
        other => panic!("unexpected outcome: {:?}", other.map(|_| ())),
    }
}

#[test]
fn missing_allocator_is_reported() {
    let outcome = parse_config("[targets]\nmalloc = \"malloc\"\n");
    assert_eq!(outcome.err(), Some(ConfigError::MissingAllocator));
}

#[test]
fn invalid_allocator_is_reported() {
    assert_eq!(
        parse_config("allocator = 3\n[targets]\n").err(),
        Some(ConfigError::InvalidAllocator)
    );
    assert_eq!(
        parse_config("allocator = \"talloc\"\n[targets]\n").err(),
        Some(ConfigError::InvalidAllocator)
    );
}

#[test]
fn missing_targets_is_reported() {
    assert_eq!(parse_config("allocator = \"malloc\"\n").err(), Some(ConfigError::MissingTargets));
}

#[test]
fn invalid_targets_is_reported() {
    assert_eq!(
        parse_config("allocator = \"malloc\"\ntargets = \"all\"\n").err(),
        Some(ConfigError::InvalidTargets)
    );
    assert_eq!(
        parse_config("allocator = \"malloc\"\n[targets]\nmalloc = 1\n").err(),
        Some(ConfigError::InvalidTargets)
    );
}

#[test]
fn error_messages_are_fixed() {
    assert_eq!(ConfigError::MissingAllocator.message(), "missing field `allocator`");
    assert_eq!(
        ConfigError::InvalidAllocator.message(),
        "`allocator` must be \"malloc\" or \"noop\""
    );
    assert_eq!(ConfigError::MissingTargets.message(), "missing field `targets`");
    assert_eq!(ConfigError::InvalidTargets.message(), "`targets` must be a table of strings");
    assert_eq!(ConfigError::Syntax("the parser's words".to_string()).message(), "the parser's words");
}

#[test]
fn from_table_reads_a_table_built_by_hand() {
    let mut targets = toml::Table::new();
    targets.insert("free".to_string(), toml::Value::String("cfree".to_string()));
    let mut table = toml::Table::new();
    table.insert("allocator".to_string(), toml::Value::String("noop".to_string()));
    table.insert("targets".to_string(), toml::Value::Table(targets));
    let config = Config::from_table(&table).unwrap();
    assert_eq!(config.allocator, ConfigAllocator::Noop);
    assert_eq!(config.get_target("free"), "cfree");
    assert_eq!(config.get_target("malloc"), "malloc");
}

#[test]
fn read_config_reports_a_file_that_cannot_be_read() {
    let outcome = read_config("allog.toml", Err("No such file or directory".to_string()));
    assert_eq!(
        outcome.err(),
        Some("Error loading allog.toml: file read error: No such file or directory".to_string())
    );
}

#[test]
fn read_config_reports_a_document_without_configuration() {
    let outcome = read_config("my.toml", Ok("allocator = \"malloc\"\n".to_string()));
    assert_eq!(
        outcome.err(),
        Some("Error loading my.toml: toml error: missing field `targets`".to_string())
    );
    let outcome = read_config("my.toml", Ok("= 1".to_string()));
    assert!(outcome.err().unwrap().starts_with("Error loading my.toml: toml error: "));
}

#[test]
fn read_config_reads_a_configuration() {
    let config =
        read_config(CONFIG, Ok("allocator = \"malloc\"\n[targets]\nfree = \"\"\n".to_string()))
            .unwrap();
    assert_eq!(CONFIG, "allog.toml");
    assert!(config.is_disabled("free"));
}
