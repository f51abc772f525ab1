use code_runner::command::decimal;
use code_runner::lang::{parse_lang, time_limit_valid, Lang, Status};
use code_runner::workspace::source_name;

#[test]
fn extensions_cover_the_closed_set() {
    assert_eq!(Lang::C.get_extension(), "c");
    assert_eq!(Lang::Cpp.get_extension(), "cpp");
    assert_eq!(Lang::Go.get_extension(), "go");
    assert_eq!(Lang::Rust.get_extension(), "rs");
    assert_eq!(Lang::Python2.get_extension(), "py");
    assert_eq!(Lang::Python3.get_extension(), "py");
}

#[test]
fn tags_parse_back_to_their_language() {
    assert_eq!(parse_lang("C"), Some(Lang::C));
    assert_eq!(parse_lang("C++"), Some(Lang::Cpp));
    assert_eq!(parse_lang("Go"), Some(Lang::Go));
    assert_eq!(parse_lang("Rust"), Some(Lang::Rust));
    assert_eq!(parse_lang("Python2"), Some(Lang::Python2));
    assert_eq!(parse_lang("Python3"), Some(Lang::Python3));
}

#[test]
fn unknown_tags_are_rejected_before_any_work() {
    assert_eq!(parse_lang("Java"), None);
    assert_eq!(parse_lang("python3"), None);
    assert_eq!(parse_lang(""), None);
    assert_eq!(parse_lang("C++ "), None);
}

#[test]
fn time_limit_bounds_are_inclusive() {
    assert!(!time_limit_valid(0));
    assert!(time_limit_valid(1));
    assert!(time_limit_valid(5));
    assert!(time_limit_valid(10));
    assert!(!time_limit_valid(11));
    assert!(!time_limit_valid(255));
}

#[test]
fn status_tags_match_their_reported_names() {
    assert_eq!(Status::CompilerTimeError.name(), "CompileTimeError");
    assert_eq!(Status::RuntimeError.name(), "RuntimeError");
    assert_eq!(Status::Success.name(), "Ok");
}

#[test]
fn decimal_renders_exact_digits() {
    assert_eq!(decimal(0), "0");
    assert_eq!(decimal(5), "5");
    assert_eq!(decimal(10), "10");
    assert_eq!(decimal(42), "42");
    assert_eq!(decimal(100), "100");
    assert_eq!(decimal(255), "255");
}

#[test]
fn source_names_join_token_and_extension() {
    assert_eq!(source_name(&"abc".to_string(), &Lang::C), "abc.c");
    assert_eq!(source_name(&"abc".to_string(), &Lang::Rust), "abc.rs");
    assert_eq!(source_name(&String::new(), &Lang::Python3), ".py");
}
