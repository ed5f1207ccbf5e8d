use std::path::Path;
use transifex_yaml::path::{
    find_file_name_start, find_trimmed_end, skipped_before, split_path, trim_path,
};

fn path_chars(text: &str) -> Vec<char> {
    text.chars().collect()
}

fn parts(directory: &str, file_name: Option<&str>) -> (String, Option<String>) {
    (directory.to_string(), file_name.map(str::to_string))
}

/// Target patterns with a component of their own, or absolute.
const PATTERNS: [&str; 40] = [
    "app/foo_<lang>.ts",
    "foo_<lang>.ts",
    "app/",
    "app//",
    "app/.",
    "app/./",
    "app/<lang>/",
    "app_<lang>/",
    "foo_<lang>.ts/",
    "foo_<lang>.ts/.//",
    "a/b/../c",
    "app/..",
    "app/../",
    "app/.././",
    "..",
    "../",
    "../foo_<lang>.ts",
    "a/./b/./c.ts",
    "a//b///c.ts",
    "a/b/.//./c.ts",
    "/abs/foo.ts",
    "/foo.ts",
    "//foo.ts",
    "/./foo.ts",
    "/a/./",
    "/",
    "//",
    "/.",
    "/./",
    "/..",
    "./foo.ts",
    "./a/foo.ts",
    "a/.b",
    "a/b.",
    "a/..b",
    "a/...",
    ".hidden",
    "a/.hidden/",
    "...",
    "翻訳/ファイル_<lang>.ts/",
];

#[test]
fn file_name_is_that_of_the_path_below_the_project_root() {
    let root = Path::new("/srv/project");
    for pattern in PATTERNS {
        let joined = root.join(pattern);
        let expected = joined.file_name().and_then(|name| name.to_str());
        let (_, file_name) = split_path(pattern);
        assert_eq!(file_name.as_deref(), expected, "pattern {:?}", pattern);
    }
}

#[test]
fn directory_is_the_parent_of_the_path_below_the_project_root() {
    let root = Path::new("/srv/project");
    for pattern in PATTERNS {
        let joined = root.join(pattern);
        let (directory, file_name) = split_path(pattern);
        if file_name.is_none() {
            continue;
        }
        let expected = joined.parent().unwrap();
        let listed = root.join(directory.as_str());
        assert_eq!(listed.as_path(), expected, "pattern {:?}", pattern);
        if !directory.is_empty() {
            assert_eq!(listed.to_str(), expected.to_str(), "pattern {:?}", pattern);
        }
    }
}

#[test]
fn found_files_get_the_paths_of_the_listing() {
    let root = Path::new("/srv/project");
    for pattern in PATTERNS {
        let (directory, file_name) = split_path(pattern);
        if file_name.is_none() {
            continue;
        }
        let expected = root.join(pattern).parent().unwrap().join("foo_en.ts");
        let given = root.join(directory.as_str()).join("foo_en.ts");
        assert_eq!(given.to_str(), expected.to_str(), "pattern {:?}", pattern);
    }
}

#[test]
fn pattern_without_a_component_of_its_own_has_an_empty_file_name() {
    for pattern in ["", ".", "./", ".//.", "././"] {
        assert_eq!(split_path(pattern), parts("", Some("")), "pattern {:?}", pattern);
    }
}

#[test]
fn split_path_gives_directory_and_file_name() {
    assert_eq!(split_path("app/foo_<lang>.ts"), parts("app", Some("foo_<lang>.ts")));
    assert_eq!(split_path("app/i18n/foo_<lang>.ts"), parts("app/i18n", Some("foo_<lang>.ts")));
    assert_eq!(split_path("foo_<lang>.ts"), parts("", Some("foo_<lang>.ts")));
    assert_eq!(split_path("/foo.ts"), parts("/", Some("foo.ts")));
    assert_eq!(split_path("/a/foo.ts"), parts("/a", Some("foo.ts")));
    assert_eq!(split_path("日本/語.ts"), parts("日本", Some("語.ts")));
}

#[test]
fn split_path_passes_over_final_slash_and_dot() {
    assert_eq!(split_path("a/b/"), parts("a", Some("b")));
    assert_eq!(split_path("a/b/."), parts("a", Some("b")));
    assert_eq!(split_path("a/b/.//"), parts("a", Some("b")));
    assert_eq!(split_path("a//./b"), parts("a", Some("b")));
    assert_eq!(split_path("a/./b/c"), parts("a/./b", Some("c")));
    assert_eq!(split_path("po/<lang>.po/"), parts("po", Some("<lang>.po")));
}

#[test]
fn split_path_finds_no_file_name_above_or_at_the_root() {
    assert_eq!(split_path("app/..").1, None);
    assert_eq!(split_path("..").1, None);
    assert_eq!(split_path("a/b/../").1, None);
    assert_eq!(split_path("/").1, None);
    assert_eq!(split_path("//.").1, None);
    assert_eq!(split_path("/..").1, None);
}

#[test]
fn split_path_keeps_dots_that_belong_to_a_name() {
    assert_eq!(split_path("a/..b"), parts("a", Some("..b")));
    assert_eq!(split_path("a/b."), parts("a", Some("b.")));
    assert_eq!(split_path("a/..."), parts("a", Some("...")));
    assert_eq!(split_path(".ts"), parts("", Some(".ts")));
    assert_eq!(split_path("../x"), parts("..", Some("x")));
}

#[test]
fn trim_path_leaves_aside_what_is_passed_over() {
    assert_eq!(trim_path("a/b"), "a/b");
    assert_eq!(trim_path("a/b/"), "a/b");
    assert_eq!(trim_path("a/b///"), "a/b");
    assert_eq!(trim_path("a/b/."), "a/b");
    assert_eq!(trim_path("a/b/./."), "a/b");
    assert_eq!(trim_path("a/b/.."), "a/b/..");
    assert_eq!(trim_path("a/b."), "a/b.");
    assert_eq!(trim_path("."), "");
    assert_eq!(trim_path("/"), "");
    assert_eq!(trim_path("/./"), "");
    assert_eq!(trim_path(""), "");
    assert_eq!(trim_path(".."), "..");
}

#[test]
fn find_trimmed_end_counts_characters() {
    assert_eq!(find_trimmed_end(&path_chars("語/語/./")), 3);
    assert_eq!(find_trimmed_end(&path_chars("")), 0);
    assert_eq!(find_trimmed_end(&path_chars("abc")), 3);
}

#[test]
fn skipped_before_tells_slash_and_dot_component() {
    let text = path_chars("a/./b.");
    assert!(!skipped_before(&text, 0));
    assert!(!skipped_before(&text, 1));
    assert!(skipped_before(&text, 2));
    assert!(skipped_before(&text, 3));
    assert!(skipped_before(&text, 4));
    assert!(!skipped_before(&text, 5));
    assert!(!skipped_before(&text, 6));
    assert!(!skipped_before(&text, 7));
    assert!(skipped_before(&path_chars("."), 1));
    assert!(!skipped_before(&path_chars(".."), 2));
}

#[test]
fn find_file_name_start_is_after_the_last_slash() {
    assert_eq!(find_file_name_start(&path_chars("")), 0);
    assert_eq!(find_file_name_start(&path_chars("foo.ts")), 0);
    assert_eq!(find_file_name_start(&path_chars("app/foo.ts")), 4);
    assert_eq!(find_file_name_start(&path_chars("a/b/c")), 4);
    assert_eq!(find_file_name_start(&path_chars("a/b/")), 4);
    assert_eq!(find_file_name_start(&path_chars("/")), 1);
}
