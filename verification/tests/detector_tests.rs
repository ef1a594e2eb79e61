use lol::args::Args;
use lol::file_detector::FileDetector;
use lol::language_support::{Language, LanguageSupport};

fn args_with(all: bool) -> Args {
    Args {
        project_path: ".".to_string(),
        c: false,
        cpp: false,
        python: false,
        java: false,
        rust: false,
        go: false,
        js: false,
        ts: false,
        all,
        verbose: false,
        jobs: 1,
        cflags: None,
        cxxflags: None,
        name: None,
    }
}

fn group<'a>(
    groups: &'a [(Language, Vec<String>)],
    lang: &Language,
) -> Option<&'a Vec<String>> {
    groups.iter().find(|(l, _)| l == lang).map(|(_, fs)| fs)
}

#[test]
fn test_is_hidden_file() {
    let detector = FileDetector::new();

    assert!(detector.is_hidden_file(".gitignore"));
    assert!(detector.is_hidden_file(".config"));
    assert!(!detector.is_hidden_file("main.c"));
    assert!(!detector.is_hidden_file("README.md"));
}

#[test]
fn test_hidden_file_with_directory() {
    let detector = FileDetector::new();
    assert!(detector.is_hidden_file("src/.hidden"));
    assert!(!detector.is_hidden_file(".dir/main.c"));
}

#[test]
fn test_classify_all_languages() {
    let detector = FileDetector::new();
    let paths = vec![
        "main.c".to_string(),
        "helper.cpp".to_string(),
        "script.py".to_string(),
        ".hidden".to_string(),
    ];
    let groups = detector.classify_files(&paths, &args_with(true));

    assert_eq!(group(&groups, &Language::C), Some(&vec!["main.c".to_string()]));
    assert_eq!(group(&groups, &Language::Cpp), Some(&vec!["helper.cpp".to_string()]));
    assert_eq!(group(&groups, &Language::Python), Some(&vec!["script.py".to_string()]));
    assert!(group(&groups, &Language::Java).is_none());
    assert!(!groups.iter().any(|(_, fs)| fs.iter().any(|f| f == ".hidden")));
}

#[test]
fn test_classify_sorts_and_deduplicates() {
    let detector = FileDetector::new();
    let paths = vec![
        "b.c".to_string(),
        "a.c".to_string(),
        "a.c".to_string(),
        "c.h".to_string(),
    ];
    let groups = detector.classify_files(&paths, &args_with(true));
    assert_eq!(
        group(&groups, &Language::C),
        Some(&vec!["a.c".to_string(), "b.c".to_string(), "c.h".to_string()])
    );
}

#[test]
fn test_classify_is_case_insensitive() {
    let detector = FileDetector::new();
    let paths = vec!["MAIN.C".to_string(), "Lib.RS".to_string()];
    let groups = detector.classify_files(&paths, &args_with(true));
    assert_eq!(group(&groups, &Language::C), Some(&vec!["MAIN.C".to_string()]));
    assert_eq!(group(&groups, &Language::Rust), Some(&vec!["Lib.RS".to_string()]));
}

#[test]
fn test_classify_skips_unrecognized_extensions() {
    let detector = FileDetector::new();
    let paths = vec![
        "notes.txt".to_string(),
        "README.md".to_string(),
        "Makefile".to_string(),
    ];
    let groups = detector.classify_files(&paths, &args_with(true));
    assert!(groups.is_empty());
}

#[test]
fn test_classify_with_specific_language_flags() {
    let detector = FileDetector::new();
    let mut args = args_with(false);
    args.c = true;
    let paths = vec![
        "main.c".to_string(),
        "script.py".to_string(),
        "app.swift".to_string(),
    ];
    let groups = detector.classify_files(&paths, &args);
    assert_eq!(group(&groups, &Language::C), Some(&vec!["main.c".to_string()]));
    assert!(group(&groups, &Language::Python).is_none());
    // other languages are skipped once any specific flag is set
    assert!(group(&groups, &Language::Swift).is_none());
}

#[test]
fn test_classify_without_flags_takes_everything() {
    let detector = FileDetector::new();
    let paths = vec!["main.go".to_string(), "app.swift".to_string()];
    let groups = detector.classify_files(&paths, &args_with(false));
    assert!(group(&groups, &Language::Go).is_some());
    assert!(group(&groups, &Language::Swift).is_some());
}

#[test]
fn test_should_compile_language_rules() {
    let detector = FileDetector::new();
    let mut args = args_with(false);
    assert!(detector.should_compile_language(&Language::Java, &args));
    args.cpp = true;
    assert!(detector.should_compile_language(&Language::Cpp, &args));
    assert!(!detector.should_compile_language(&Language::Java, &args));
    args.all = true;
    assert!(detector.should_compile_language(&Language::Java, &args));
}

#[test]
fn test_language_lookup() {
    let support = LanguageSupport::new();
    assert_eq!(support.get_language_by_extension("cpp"), Some(Language::Cpp));
    assert_eq!(support.get_language_by_extension("h++"), Some(Language::Cpp));
    assert_eq!(support.get_language_by_extension("rs"), Some(Language::Rust));
    assert_eq!(support.get_language_by_extension("kts"), Some(Language::Kotlin));
    assert_eq!(support.get_language_by_extension("txt"), None);
}

#[test]
fn test_supported_extensions_table() {
    let support = LanguageSupport::new();
    let exts = support.get_supported_extensions();
    assert_eq!(exts.len(), 39);
    assert!(exts.iter().any(|e| e == "rs"));
    assert!(exts.iter().any(|e| e == "c++"));
    let langs = support.get_available_languages();
    assert_eq!(langs.len(), 39);
    assert!(langs.iter().any(|l| *l == Language::OCaml));
}

#[test]
fn test_language_metadata() {
    assert_eq!(Language::C.name(), "C");
    assert_eq!(Language::FSharp.name(), "F#");
    assert_eq!(Language::Cpp.extensions(), vec!["cpp", "cc", "cxx", "c++", "hpp", "hxx", "h++"]);
    assert!(Language::Rust.is_compiled());
    assert!(!Language::Python.is_compiled());
    assert!(Language::Go.needs_compiler_check());
    assert!(!Language::JavaScript.needs_compiler_check());
    let (exe, probe) = Language::Haskell.get_compiler_command();
    assert_eq!(exe, "ghc");
    assert_eq!(probe, vec!["--version"]);
    let (exe, probe) = Language::Python.get_compiler_command();
    assert_eq!(exe, "");
    assert!(probe.is_empty());
}
