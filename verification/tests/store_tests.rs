use workspacers::add_workspace::{check_name, initial_path, read_new_workspace};
use workspacers::config::{get_config_file, AppConfig};
use workspacers::json::{get_data_dir, get_json_dir, get_json_file, read_workspaces, APP_NAME};
use workspacers::operations::add_workspace;
use workspacers::text::{
    add_separator, chars_of, join_path, same_text, starts_with, strip, trim, Strip,
};
use workspacers::workspace::{Error, Field, StoreError, Workspace};

fn spot(name: &str, path: &str) -> Workspace {
    Workspace { name: name.to_string(), path: path.to_string(), shortcut: None }
}

fn local() -> Option<String> {
    Some("/home/u/.local/share".to_string())
}

#[test]
fn the_explicit_directory_wins() {
    assert_eq!(get_json_dir(Some("/tmp/ws".to_string()), &local()), Ok("/tmp/ws".to_string()));
    assert_eq!(get_json_dir(Some("/tmp/ws".to_string()), &None), Ok("/tmp/ws".to_string()));
}

#[test]
fn the_default_directory_is_under_the_data_directory() {
    assert_eq!(APP_NAME, "workspacers");
    assert_eq!(get_json_dir(None, &local()), Ok("/home/u/.local/share/workspacers".to_string()));
    assert_eq!(get_data_dir(&local(), "other"), Ok("/home/u/.local/share/other".to_string()));
}

#[test]
fn without_a_data_directory_there_is_no_default() {
    assert_eq!(get_json_dir(None, &None), Err(StoreError::NoDataDir));
    assert_eq!(get_data_dir(&None, "workspacers"), Err(StoreError::NoDataDir));
    assert_eq!(get_config_file(None, &None, "workspacers"), Err(StoreError::NoDataDir));
}

#[test]
fn the_file_of_a_list_is_its_name_with_an_extension() {
    assert_eq!(get_json_file("/data/ws", "workspacers"), "/data/ws/workspacers.json");
    assert_eq!(get_json_file("/data/ws/", "work"), "/data/ws/work.json");
    assert_eq!(get_json_file("", "work"), "work.json");
}

#[test]
fn the_config_file_is_explicit_or_under_the_data_directory() {
    assert_eq!(
        get_config_file(Some("/etc/w.toml".to_string()), &local(), "workspacers"),
        Ok("/etc/w.toml".to_string())
    );
    assert_eq!(
        get_config_file(None, &local(), "workspacers"),
        Ok("/home/u/.local/share/workspacers/workspacers.toml".to_string())
    );
}

#[test]
fn the_default_config_sets_no_directory() {
    assert_eq!(AppConfig::default(), AppConfig { json_path: "".to_string() });
}

#[test]
fn a_file_that_cannot_be_read_is_an_empty_collection() {
    assert_eq!(read_workspaces(None), Vec::new());
    assert_eq!(read_workspaces(Some(vec![spot("A", "/x")])), vec![spot("A", "/x")]);
}

#[test]
fn add_after_a_missing_file_gives_the_one_record() {
    let mut list = read_workspaces(None);
    assert_eq!(add_workspace(&mut list, spot("A", "/x")), Ok(()));
    let reloaded = read_workspaces(Some(list));
    assert_eq!(reloaded, vec![spot("A", "/x")]);
}

#[test]
fn join_path_follows_the_rules_of_path_extension() {
    assert_eq!(join_path("/a", "b"), "/a/b");
    assert_eq!(join_path("/a/", "b"), "/a/b");
    assert_eq!(join_path("/a", "/b"), "/b");
    assert_eq!(join_path("", "b"), "b");
    assert_eq!(join_path("/a", ""), "/a/");
    assert_eq!(join_path("/", "b"), "/b");
}

#[test]
fn add_separator_ends_a_path_with_one_separator() {
    assert_eq!(add_separator("/home/u".to_string()), "/home/u/");
    assert_eq!(add_separator("/home/u/".to_string()), "/home/u/");
    assert_eq!(add_separator("".to_string()), "/");
}

#[test]
fn the_path_prompt_starts_in_the_current_directory() {
    assert_eq!(initial_path("/home/u/code".to_string()), "/home/u/code/");
    assert_eq!(initial_path("/home/u/code/".to_string()), "/home/u/code/");
    assert_eq!(initial_path("/".to_string()), "/");
    assert_eq!(initial_path("".to_string()), "/");
}

#[test]
fn a_name_must_be_new_and_not_empty() {
    let list = vec![spot("A", "/x")];
    assert_eq!(check_name(&list, &"B".to_string()), Ok(()));
    assert_eq!(check_name(&list, &"".to_string()), Err(Error::EmptyField { field: Field::Name }));
    assert_eq!(
        check_name(&list, &"A".to_string()),
        Err(Error::DuplicateField { field: Field::Name })
    );
}

#[test]
fn a_new_workspace_has_its_path_expanded() {
    let list = vec![spot("A", "/x")];
    let home = Some("/home/u".to_string());
    assert_eq!(
        read_new_workspace(&list, "B".to_string(), "~/b".to_string(), None, &home),
        Ok(spot("B", "/home/u/b"))
    );
    assert_eq!(
        read_new_workspace(&list, "B".to_string(), "\"/b\"".to_string(), Some("b".to_string()), &home),
        Ok(Workspace {
            name: "B".to_string(),
            path: "/b".to_string(),
            shortcut: Some("b".to_string())
        })
    );
}

#[test]
fn a_new_workspace_is_checked_field_by_field() {
    let list = vec![Workspace {
        name: "A".to_string(),
        path: "/home/u/x".to_string(),
        shortcut: Some("a".to_string()),
    }];
    let home = Some("/home/u".to_string());
    let try_it = |name: &str, path: &str, shortcut: Option<&str>| {
        read_new_workspace(
            &list,
            name.to_string(),
            path.to_string(),
            shortcut.map(|s| s.to_string()),
            &home,
        )
    };
    assert_eq!(try_it("", "", Some("")), Err(Error::EmptyField { field: Field::Name }));
    assert_eq!(try_it("A", "", None), Err(Error::DuplicateField { field: Field::Name }));
    assert_eq!(try_it("B", "", Some("a")), Err(Error::EmptyField { field: Field::Path }));
    assert_eq!(try_it("B", "\"\"", None), Err(Error::EmptyField { field: Field::Path }));
    assert_eq!(try_it("B", "~/x", Some("")), Err(Error::DuplicateField { field: Field::Path }));
    assert_eq!(try_it("B", "/y", Some("")), Err(Error::EmptyField { field: Field::Shortcut }));
    assert_eq!(try_it("B", "/y", Some("a")), Err(Error::DuplicateField { field: Field::Shortcut }));
    assert!(try_it("B", "/y", Some("b")).is_ok());
}

#[test]
fn add_returns_the_longer_list_and_keeps_the_given_one() {
    let list = vec![spot("A", "/x")];
    let out = workspacers::add_workspace::add(&list, "B".to_string(), "/y".to_string(), None, &None);
    assert_eq!(out, Ok(vec![spot("A", "/x"), spot("B", "/y")]));
    assert_eq!(list, vec![spot("A", "/x")]);
    let out = workspacers::add_workspace::add(&list, "A".to_string(), "/y".to_string(), None, &None);
    assert_eq!(out, Err(Error::DuplicateField { field: Field::Name }));
}

#[test]
fn trim_takes_unicode_whitespace_off_both_ends() {
    assert_eq!(trim("  a b  "), "a b");
    assert_eq!(trim("\t\r\n\u{0B}\u{0C}a\u{85}\u{A0}\u{1680}"), "a");
    assert_eq!(trim("\u{2000}\u{200A}\u{2028}\u{2029}\u{202F}\u{205F}\u{3000}a"), "a");
    assert_eq!(trim("\u{200B}a"), "\u{200B}a");
    assert_eq!(trim("\u{1C}a"), "\u{1C}a");
    assert_eq!(trim("   "), "");
    assert_eq!(trim(""), "");
}

#[test]
fn trim_agrees_with_the_standard_library() {
    for code in 0u32..0x3100 {
        if let Some(c) = char::from_u32(code) {
            let s = format!("{}x{}", c, c);
            assert_eq!(trim(&s), s.trim());
        }
    }
}

#[test]
fn strip_takes_one_character_off_both_ends() {
    assert_eq!(strip("\"\"a\"b\"", Strip::Char('"')), "a\"b");
    assert_eq!(strip("'a'", Strip::Char('"')), "'a'");
    assert_eq!(strip("\"\"\"", Strip::Char('"')), "");
}

#[test]
fn text_helpers_compare_by_characters() {
    assert_eq!(chars_of("aé"), vec!['a', 'é']);
    assert!(same_text("abc", "abc"));
    assert!(!same_text("abc", "abd"));
    assert!(starts_with("abc", "ab"));
    assert!(starts_with("abc", ""));
    assert!(starts_with("abc", "abc"));
    assert!(!starts_with("abc", "abcd"));
    assert!(!starts_with("abc", "b"));
}
