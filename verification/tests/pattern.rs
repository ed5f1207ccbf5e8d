use regex::Regex;
use std::path::PathBuf;
use transifex_yaml::pattern::{
    build_expression, captured_group, create_filter_pattern, filter_expression, match_file_names,
    CompileError, FilterPattern,
};

fn names(list: &[&str]) -> Vec<Option<String>> {
    list.iter().map(|name| Some(name.to_string())).collect()
}

fn pair(code: &str, name: &str) -> (String, String) {
    (code.to_string(), name.to_string())
}

#[test]
fn test_pathbuf() {
    let path = PathBuf::from("/example/sample_<lang>.ts");
    assert_eq!(path.file_name().and_then(|name| name.to_str()), Some("sample_<lang>.ts"));
    let pattern = create_filter_pattern(path.to_str().unwrap()).unwrap();
    let matched = pattern.language_code("/example/sample_zh_CN.ts");
    assert_eq!(matched, Some("zh_CN".to_string()));
}

#[test]
fn build_expression_anchors_and_captures() {
    assert_eq!(build_expression("foo_", ".ts"), r"^foo_([a-z_A-Z]{2,6})\.ts$");
    assert_eq!(build_expression("", ""), "^([a-z_A-Z]{2,6})$");
}

#[test]
fn build_expression_escapes_every_meta_character() {
    assert_eq!(
        build_expression(r"\.+*?()|[]{}^$#&-~", ""),
        r"^\\\.\+\*\?\(\)\|\[\]\{\}\^\$\#\&\-\~([a-z_A-Z]{2,6})$"
    );
    assert_eq!(build_expression("", "a/b c%d!e"), "^([a-z_A-Z]{2,6})a/b c%d!e$");
}

#[test]
fn filter_expression_of_a_template() {
    assert_eq!(
        filter_expression("sample_<lang>.ts"),
        Some(r"^sample_([a-z_A-Z]{2,6})\.ts$".to_string())
    );
    assert_eq!(filter_expression("<lang>"), Some("^([a-z_A-Z]{2,6})$".to_string()));
}

#[test]
fn filter_expression_needs_one_placeholder() {
    assert_eq!(filter_expression("sample.ts"), None);
    assert_eq!(filter_expression(""), None);
    assert_eq!(filter_expression("<lang>_<lang>.ts"), None);
}

#[test]
fn create_filter_pattern_fails_without_placeholder() {
    for template in ["foo.ts", "", "foo_<lan>.ts", "foo_<Lang>.ts", "foo_< lang>.ts"] {
        assert!(matches!(create_filter_pattern(template), Err(CompileError::MalformedTemplate)));
    }
}

#[test]
fn create_filter_pattern_fails_with_two_placeholders() {
    for template in ["<lang>/foo_<lang>.ts", "<lang><lang>", "a<lang>b<lang>c<lang>d"] {
        assert!(matches!(create_filter_pattern(template), Err(CompileError::MalformedTemplate)));
    }
}

#[test]
fn create_filter_pattern_hands_on_what_the_engine_rejects() {
    let template = format!("{}<lang>.ts", "a".repeat(1_000_000));
    match create_filter_pattern(template.as_str()) {
        Err(CompileError::Rejected(said)) => {
            assert!(matches!(said, regex::Error::CompiledTooBig(_)))
        }
        other => panic!("unexpected: {:?}", other.map(|made| made.as_str().len())),
    }
}

#[test]
fn create_filter_pattern_keeps_its_expression() {
    let pattern = create_filter_pattern("foo_<lang>.ts").unwrap();
    assert_eq!(pattern.as_str(), r"^foo_([a-z_A-Z]{2,6})\.ts$");
}

#[test]
fn pattern_accepts_language_codes() {
    let pattern = create_filter_pattern("foo_<lang>.ts").unwrap();
    assert_eq!(pattern.language_code("foo_en.ts"), Some("en".to_string()));
    assert_eq!(pattern.language_code("foo_en_US.ts"), Some("en_US".to_string()));
    assert_eq!(pattern.language_code("foo_zh_CN.ts"), Some("zh_CN".to_string()));
    assert_eq!(pattern.language_code("foo_ast.ts"), Some("ast".to_string()));
    assert_eq!(pattern.language_code("foo_abcdef.ts"), Some("abcdef".to_string()));
    assert_eq!(pattern.language_code("foo_FR.ts"), Some("FR".to_string()));
}

#[test]
fn pattern_rejects_codes_of_wrong_length() {
    let pattern = create_filter_pattern("foo_<lang>.ts").unwrap();
    assert_eq!(pattern.language_code("foo_.ts"), None);
    assert_eq!(pattern.language_code("foo_e.ts"), None);
    assert_eq!(pattern.language_code("foo_abcdefg.ts"), None);
    assert_eq!(pattern.language_code("foo_zh_Hans.ts"), None);
}

#[test]
fn pattern_rejects_digits_and_symbols() {
    let pattern = create_filter_pattern("foo_<lang>.ts").unwrap();
    assert_eq!(pattern.language_code("foo_e1.ts"), None);
    assert_eq!(pattern.language_code("foo_en-US.ts"), None);
    assert_eq!(pattern.language_code("foo_en US.ts"), None);
    assert_eq!(pattern.language_code("foo_12.ts"), None);
    assert_eq!(pattern.language_code("foo_ñu.ts"), None);
}

#[test]
fn pattern_is_anchored_at_both_ends() {
    let pattern = create_filter_pattern("foo_<lang>.ts").unwrap();
    assert_eq!(pattern.language_code("xfoo_en.ts"), None);
    assert_eq!(pattern.language_code("foo_en.tsx"), None);
    assert_eq!(pattern.language_code("foo_en.ts\n"), None);
    assert_eq!(pattern.language_code("dir/foo_en.ts"), None);
    assert_eq!(pattern.language_code("readme.md"), None);
    assert_eq!(pattern.language_code(""), None);
}

#[test]
fn pattern_takes_the_template_literally() {
    let pattern = create_filter_pattern("a.b+c_<lang>.ts").unwrap();
    assert_eq!(pattern.as_str(), r"^a\.b\+c_([a-z_A-Z]{2,6})\.ts$");
    assert_eq!(pattern.language_code("a.b+c_en.ts"), Some("en".to_string()));
    assert_eq!(pattern.language_code("aXb+c_en.ts"), None);
    assert_eq!(pattern.language_code("a.bbc_en.ts"), None);
    assert_eq!(pattern.language_code("a.b+c_enXts"), None);
}

#[test]
fn pattern_with_bare_placeholder() {
    let pattern = create_filter_pattern("<lang>").unwrap();
    assert_eq!(pattern.language_code("de"), Some("de".to_string()));
    assert_eq!(pattern.language_code("d"), None);
    assert_eq!(pattern.language_code("de.po"), None);
}

#[test]
fn captured_group_picks_by_index() {
    let groups = Some(vec![Some("foo_en.ts".to_string()), Some("en".to_string()), None]);
    assert_eq!(captured_group(groups.clone(), 0), Some("foo_en.ts".to_string()));
    assert_eq!(captured_group(groups.clone(), 1), Some("en".to_string()));
    assert_eq!(captured_group(groups.clone(), 2), None);
    assert_eq!(captured_group(groups, 3), None);
}

#[test]
fn captured_group_of_no_match_is_nothing() {
    assert_eq!(captured_group(None, 0), None);
    assert_eq!(captured_group(None, 1), None);
    assert_eq!(captured_group(Some(Vec::new()), 0), None);
}

#[test]
fn from_compiled_follows_the_engine() {
    let made = FilterPattern::from_compiled(Regex::new("^x([a-z]{2})$")).unwrap();
    assert_eq!(made.as_str(), "^x([a-z]{2})$");
    assert_eq!(made.language_code("xde"), Some("de".to_string()));
    let said = Regex::new("x(").unwrap_err();
    match FilterPattern::from_compiled(Regex::new("x(")) {
        Err(CompileError::Rejected(error)) => assert_eq!(error, said),
        other => panic!("unexpected: {:?}", other),
    }
}

#[test]
fn language_code_is_nothing_without_a_first_group() {
    let made = FilterPattern::from_compiled(Regex::new("^abc$")).unwrap();
    assert_eq!(made.language_code("abc"), None);
    let other = FilterPattern::from_compiled(Regex::new("^a(b)?c$")).unwrap();
    assert_eq!(other.language_code("ac"), None);
    assert_eq!(other.language_code("abc"), Some("b".to_string()));
}

#[test]
fn match_file_names_in_empty_directory() {
    let pattern = create_filter_pattern("foo_<lang>.ts").unwrap();
    assert_eq!(match_file_names(&pattern, &Vec::new()), Vec::<(String, String)>::new());
}

#[test]
fn match_file_names_without_any_match() {
    let pattern = create_filter_pattern("foo_<lang>.ts").unwrap();
    let entries = names(&["readme.md", "foo.ts", "foo_.ts", "bar_en.ts"]);
    assert_eq!(match_file_names(&pattern, &entries), Vec::<(String, String)>::new());
}

#[test]
fn match_file_names_keeps_matching_entries_in_order() {
    let pattern = create_filter_pattern("foo_<lang>.ts").unwrap();
    let entries = names(&[
        "foo_zh_CN.ts",
        "readme.md",
        "foo_en.ts",
        "foo.ts",
        "foo_de.ts",
        "foo_e1.ts",
        "foo_abcdefg.ts",
    ]);
    assert_eq!(
        match_file_names(&pattern, &entries),
        vec![
            pair("zh_CN", "foo_zh_CN.ts"),
            pair("en", "foo_en.ts"),
            pair("de", "foo_de.ts"),
        ]
    );
}

#[test]
fn match_file_names_passes_over_unreadable_names() {
    let pattern = create_filter_pattern("foo_<lang>.ts").unwrap();
    let entries = vec![None, Some("foo_en.ts".to_string()), None, Some("foo_fr.ts".to_string())];
    assert_eq!(
        match_file_names(&pattern, &entries),
        vec![pair("en", "foo_en.ts"), pair("fr", "foo_fr.ts")]
    );
    assert_eq!(match_file_names(&pattern, &vec![None, None]), Vec::<(String, String)>::new());
}

#[test]
fn match_file_names_keeps_repeated_names() {
    let pattern = create_filter_pattern("foo_<lang>.ts").unwrap();
    let entries = names(&["foo_en.ts", "foo_en.ts"]);
    assert_eq!(
        match_file_names(&pattern, &entries),
        vec![pair("en", "foo_en.ts"), pair("en", "foo_en.ts")]
    );
}
