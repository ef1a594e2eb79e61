use lol::config::{Config, LanguageConfig};

#[test]
fn test_config_default() {
    let config = Config::default();
    assert_eq!(config.parallel_jobs, num_cpus::get());
    assert!(!config.ignore_patterns.is_empty());
    assert!(config.get_language_config("c").is_some());
}

#[test]
fn test_ignore_patterns() {
    let config = Config::default();

    assert!(config.should_ignore_file("file.o"));
    assert!(config.should_ignore_file("build/file.cpp"));
    assert!(!config.should_ignore_file("main.c"));
}

#[test]
fn test_include_patterns() {
    let mut config = Config::default();
    config.include_patterns = vec!["*.c".to_string(), "*.cpp".to_string()];

    assert!(config.should_ignore_file("file.py"));
    assert!(!config.should_ignore_file("main.c"));
    assert!(!config.should_ignore_file("helper.cpp"));
}

#[test]
fn test_pattern_matching() {
    assert!(Config::matches_pattern("file.o", "*.o"));
    assert!(Config::matches_pattern("src/main.c", "*.c"));
    assert!(Config::matches_pattern("build/", "build/"));
    assert!(!Config::matches_pattern("main.c", "*.o"));
}

#[test]
fn test_pattern_without_star_is_substring() {
    assert!(Config::matches_pattern("deep/node_modules/x.js", "node_modules/"));
    assert!(!Config::matches_pattern("src/main.c", "node_modules/"));
}

#[test]
fn test_invalid_glob_falls_back_to_substring() {
    // "*(" translates to the regex "^.*($", which does not compile, so the
    // pattern matches as a plain substring instead.
    assert!(Config::matches_pattern("x*(y", "*("));
    assert!(!Config::matches_pattern("plain.c", "*("));
}

#[test]
fn test_default_flag_strings() {
    let config = Config::default();
    assert_eq!(config.get_compiler_flags("c").unwrap(), "-Wall -Wextra -std=c99");
    assert_eq!(config.get_compiler_flags("cpp").unwrap(), "-Wall -Wextra -std=c++17");
    assert_eq!(config.get_compiler_flags("rust").unwrap(), "--release");
    assert!(config.get_compiler_flags("java").is_none());
}

#[test]
fn test_set_compiler_flags_overwrites() {
    let mut config = Config::default();
    config.set_compiler_flags("c", "-O3".to_string());
    assert_eq!(config.get_compiler_flags("c").unwrap(), "-O3");
    config.set_compiler_flags("zig", "-fast".to_string());
    assert_eq!(config.get_compiler_flags("zig").unwrap(), "-fast");
    // other entries keep their values
    assert_eq!(config.get_compiler_flags("rust").unwrap(), "--release");
}

#[test]
fn test_add_remove_ignore_pattern() {
    let mut config = Config::default();
    let before = config.ignore_patterns.len();
    config.add_ignore_pattern("*.tmp".to_string());
    assert_eq!(config.ignore_patterns.len(), before + 1);
    // adding again is a no-op
    config.add_ignore_pattern("*.tmp".to_string());
    assert_eq!(config.ignore_patterns.len(), before + 1);
    config.remove_ignore_pattern("*.tmp");
    assert_eq!(config.ignore_patterns.len(), before);
    assert!(!config.ignore_patterns.iter().any(|p| p == "*.tmp"));
}

#[test]
fn test_add_remove_include_pattern() {
    let mut config = Config::default();
    assert!(config.include_patterns.is_empty());
    config.add_include_pattern("*.c".to_string());
    config.add_include_pattern("*.c".to_string());
    assert_eq!(config.include_patterns.len(), 1);
    config.remove_include_pattern("*.c");
    assert!(config.include_patterns.is_empty());
}

#[test]
fn test_language_enabled() {
    let mut config = Config::default();
    // unknown languages default to enabled
    assert!(config.is_language_enabled("zig"));
    let off = LanguageConfig {
        enabled: false,
        compiler_path: None,
        compiler_flags: Vec::new(),
        output_format: None,
    };
    config.set_language_config("zig", off);
    assert!(!config.is_language_enabled("zig"));
    assert!(config.is_language_enabled("c"));
}

#[test]
fn test_language_config_default() {
    let lc = LanguageConfig::default();
    assert!(lc.enabled);
    assert!(lc.compiler_path.is_none());
    assert!(lc.compiler_flags.is_empty());
    assert!(lc.output_format.is_none());
}
