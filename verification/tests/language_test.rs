use piranha::models::default_configs::{default_language, GO, JAVA, KOTLIN, PYTHON, SWIFT, TSX, TYPESCRIPT};
use piranha::models::language::{supported_language_for, PiranhaLanguage, SupportedLanguage};

fn comment_nodes_of(config: &PiranhaLanguage) -> Vec<&str> {
    config.comment_nodes().iter().map(|s| s.as_str()).collect()
}

#[test]
fn test_from_java() {
    let config = PiranhaLanguage::from(JAVA);
    assert_eq!(config.name(), "java");
    assert_eq!(*config.supported_language(), SupportedLanguage::Java);
    assert_eq!(comment_nodes_of(&config), vec!["line_comment", "block_comment"]);
}

#[test]
fn test_from_go() {
    let config = PiranhaLanguage::from(GO);
    assert_eq!(config.name(), "go");
    assert_eq!(*config.supported_language(), SupportedLanguage::Go);
    assert_eq!(comment_nodes_of(&config), vec!["comment"]);
}

#[test]
fn test_from_kotlin() {
    let config = PiranhaLanguage::from(KOTLIN);
    assert_eq!(config.name(), "kt");
    assert_eq!(*config.supported_language(), SupportedLanguage::Kotlin);
    assert_eq!(comment_nodes_of(&config), vec!["comment"]);
}

#[test]
fn test_from_python() {
    let config = PiranhaLanguage::from(PYTHON);
    assert_eq!(config.name(), "py");
    assert_eq!(*config.supported_language(), SupportedLanguage::Python);
    assert!(config.comment_nodes().is_empty());
}

#[test]
fn test_from_swift() {
    let config = PiranhaLanguage::from(SWIFT);
    assert_eq!(config.name(), "swift");
    assert_eq!(*config.supported_language(), SupportedLanguage::Swift);
    assert_eq!(comment_nodes_of(&config), vec!["comment", "multiline_comment"]);
}

#[test]
fn test_from_typescript() {
    let config = PiranhaLanguage::from(TYPESCRIPT);
    assert_eq!(config.name(), "ts");
    assert_eq!(*config.supported_language(), SupportedLanguage::Ts);
    assert!(config.comment_nodes().is_empty());
}

#[test]
fn test_from_tsx() {
    let config = PiranhaLanguage::from(TSX);
    assert_eq!(config.name(), "tsx");
    assert_eq!(*config.supported_language(), SupportedLanguage::Tsx);
    assert!(config.comment_nodes().is_empty());
}

#[test]
fn test_supported_language_for_known_names() {
    assert_eq!(supported_language_for("java"), Some(SupportedLanguage::Java));
    assert_eq!(supported_language_for("kt"), Some(SupportedLanguage::Kotlin));
    assert_eq!(supported_language_for("go"), Some(SupportedLanguage::Go));
    assert_eq!(supported_language_for("py"), Some(SupportedLanguage::Python));
    assert_eq!(supported_language_for("swift"), Some(SupportedLanguage::Swift));
    assert_eq!(supported_language_for("ts"), Some(SupportedLanguage::Ts));
    assert_eq!(supported_language_for("tsx"), Some(SupportedLanguage::Tsx));
}

#[test]
fn test_supported_language_for_unknown_names() {
    assert_eq!(supported_language_for("rust"), None);
    assert_eq!(supported_language_for("Java"), None);
    assert_eq!(supported_language_for("kotlin"), None);
    assert_eq!(supported_language_for("python"), None);
    assert_eq!(supported_language_for("typescript"), None);
    assert_eq!(supported_language_for(""), None);
    assert_eq!(supported_language_for("java "), None);
}

#[test]
fn test_is_comment_java() {
    let config = PiranhaLanguage::from(JAVA);
    assert!(config.is_comment("line_comment".to_string()));
    assert!(config.is_comment("block_comment".to_string()));
    assert!(!config.is_comment("comment".to_string()));
    assert!(!config.is_comment("method_invocation".to_string()));
}

#[test]
fn test_is_comment_swift_and_go() {
    let swift = PiranhaLanguage::from(SWIFT);
    assert!(swift.is_comment("comment".to_string()));
    assert!(swift.is_comment("multiline_comment".to_string()));
    assert!(!swift.is_comment("line_comment".to_string()));
    let go = PiranhaLanguage::from(GO);
    assert!(go.is_comment("comment".to_string()));
    assert!(!go.is_comment("multiline_comment".to_string()));
}

#[test]
fn test_is_comment_without_comment_kinds() {
    for name in [PYTHON, TYPESCRIPT, TSX] {
        let config = PiranhaLanguage::from(name);
        assert!(!config.is_comment("comment".to_string()));
        assert!(!config.is_comment("".to_string()));
    }
}

#[test]
fn test_default_configuration() {
    let config = PiranhaLanguage::default();
    assert_eq!(config.name(), "java");
    assert_eq!(*config.supported_language(), SupportedLanguage::Java);
    assert_eq!(default_language(), "java");
    assert_eq!(SupportedLanguage::default(), SupportedLanguage::Java);
    assert_eq!(*config.supported_language(), SupportedLanguage::default());
    assert_eq!(config, PiranhaLanguage::from(JAVA));
}

#[test]
fn test_clone_keeps_configuration() {
    let config = PiranhaLanguage::from(SWIFT);
    let copy = config.clone();
    assert_eq!(copy, config);
    assert_eq!(copy.name(), "swift");
    assert_eq!(copy.language(), config.language());
}

#[test]
fn test_names_round_trip() {
    for name in [JAVA, KOTLIN, GO, PYTHON, SWIFT, TYPESCRIPT, TSX] {
        let language = supported_language_for(name).unwrap();
        let config = PiranhaLanguage::from(name);
        assert_eq!(*config.supported_language(), language);
        assert_eq!(config.name(), name);
    }
}

#[test]
fn test_configurations_differ_by_name() {
    let names = [JAVA, KOTLIN, GO, PYTHON, SWIFT, TYPESCRIPT, TSX];
    for a in names {
        for b in names {
            let same = PiranhaLanguage::from(a) == PiranhaLanguage::from(b);
            assert_eq!(same, a == b);
        }
    }
}
