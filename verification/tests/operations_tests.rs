use workspacers::operations::{
    add_workspace, delete_workspace, locate, move_workspace, name_taken, path_taken,
    replace_workspace, shortcut_taken,
};
use workspacers::workspace::{Error, Field, Workspace};

fn rec(name: &str, path: &str) -> Workspace {
    Workspace { name: name.to_string(), path: path.to_string(), shortcut: None }
}

fn keyed(name: &str, path: &str, shortcut: &str) -> Workspace {
    Workspace {
        name: name.to_string(),
        path: path.to_string(),
        shortcut: Some(shortcut.to_string()),
    }
}

fn abc() -> Vec<Workspace> {
    vec![rec("A", "/x"), rec("B", "/y"), rec("C", "/z")]
}

#[test]
fn add_appends_at_the_end() {
    let mut list = abc();
    assert_eq!(add_workspace(&mut list, rec("D", "/w")), Ok(()));
    assert_eq!(list.len(), 4);
    assert_eq!(list[3], rec("D", "/w"));
    assert_eq!(list[..3], abc()[..]);
}

#[test]
fn add_to_an_empty_collection_succeeds() {
    let mut list = Vec::new();
    assert_eq!(add_workspace(&mut list, rec("A", "/x")), Ok(()));
    assert_eq!(list, vec![rec("A", "/x")]);
}

#[test]
fn add_with_a_duplicate_name_fails_and_changes_nothing() {
    let mut list = abc();
    assert_eq!(
        add_workspace(&mut list, rec("B", "/other")),
        Err(Error::DuplicateField { field: Field::Name })
    );
    assert_eq!(list, abc());
}

#[test]
fn add_with_a_duplicate_path_fails_and_changes_nothing() {
    let mut list = abc();
    assert_eq!(
        add_workspace(&mut list, rec("D", "/z")),
        Err(Error::DuplicateField { field: Field::Path })
    );
    assert_eq!(list, abc());
}

#[test]
fn add_with_a_duplicate_shortcut_fails_and_changes_nothing() {
    let mut list = vec![keyed("A", "/x", "a"), keyed("B", "/y", "b")];
    assert_eq!(
        add_workspace(&mut list, keyed("C", "/z", "b")),
        Err(Error::DuplicateField { field: Field::Shortcut })
    );
    assert_eq!(list, vec![keyed("A", "/x", "a"), keyed("B", "/y", "b")]);
}

#[test]
fn add_names_the_first_field_that_collides() {
    let mut list = vec![keyed("A", "/x", "a")];
    assert_eq!(
        add_workspace(&mut list, keyed("A", "/x", "a")),
        Err(Error::DuplicateField { field: Field::Name })
    );
    assert_eq!(
        add_workspace(&mut list, keyed("B", "/x", "a")),
        Err(Error::DuplicateField { field: Field::Path })
    );
}

#[test]
fn add_without_a_shortcut_never_collides_on_it() {
    let mut list = vec![rec("A", "/x")];
    assert_eq!(add_workspace(&mut list, rec("B", "/y")), Ok(()));
    assert_eq!(add_workspace(&mut list, keyed("C", "/z", "c")), Ok(()));
    assert_eq!(add_workspace(&mut list, rec("D", "/w")), Ok(()));
    assert_eq!(list.len(), 4);
}

#[test]
fn taken_tests_look_at_every_record() {
    let list = vec![keyed("A", "/x", "a"), rec("B", "/y")];
    assert!(name_taken(&list, &"B".to_string()));
    assert!(!name_taken(&list, &"b".to_string()));
    assert!(path_taken(&list, &"/x".to_string()));
    assert!(!path_taken(&list, &"/x/".to_string()));
    assert!(shortcut_taken(&list, &"a".to_string()));
    assert!(!shortcut_taken(&list, &"b".to_string()));
}

#[test]
fn locate_goes_by_name_and_path_without_a_shortcut() {
    let list = abc();
    assert_eq!(locate(&list, &rec("B", "/y")), Some(1));
    assert_eq!(locate(&list, &rec("B", "/x")), None);
    assert_eq!(locate(&list, &rec("D", "/y")), None);
}

#[test]
fn locate_goes_by_the_shortcut_where_the_key_has_one() {
    let list = vec![keyed("A", "/x", "a"), keyed("B", "/y", "b"), rec("C", "/z")];
    assert_eq!(locate(&list, &keyed("renamed", "/moved", "b")), Some(1));
    assert_eq!(locate(&list, &keyed("C", "/z", "c")), None);
    assert_eq!(locate(&list, &rec("A", "/x")), Some(0));
}

#[test]
fn delete_removes_the_one_record() {
    let mut list = abc();
    assert_eq!(delete_workspace(&mut list, &rec("B", "/y")), Ok(()));
    assert_eq!(list, vec![rec("A", "/x"), rec("C", "/z")]);
}

#[test]
fn delete_twice_fails_the_second_time() {
    let mut list = abc();
    assert_eq!(delete_workspace(&mut list, &rec("A", "/x")), Ok(()));
    assert_eq!(delete_workspace(&mut list, &rec("A", "/x")), Err(Error::NotFound));
    assert_eq!(list, vec![rec("B", "/y"), rec("C", "/z")]);
}

#[test]
fn delete_of_an_unknown_record_changes_nothing() {
    let mut list = abc();
    assert_eq!(delete_workspace(&mut list, &rec("A", "/y")), Err(Error::NotFound));
    assert_eq!(list, abc());
    let mut none: Vec<Workspace> = Vec::new();
    assert_eq!(delete_workspace(&mut none, &rec("A", "/x")), Err(Error::NotFound));
}

#[test]
fn move_up_swaps_with_the_record_before() {
    let mut list = abc();
    assert_eq!(move_workspace(&mut list, &rec("B", "/y"), true), Ok(0));
    assert_eq!(list, vec![rec("B", "/y"), rec("A", "/x"), rec("C", "/z")]);
}

#[test]
fn move_up_from_the_first_place_wraps_to_the_last() {
    let mut list = abc();
    assert_eq!(move_workspace(&mut list, &rec("A", "/x"), true), Ok(2));
    assert_eq!(list, vec![rec("B", "/y"), rec("C", "/z"), rec("A", "/x")]);
}

#[test]
fn move_down_from_the_last_place_wraps_to_the_first() {
    let mut list = abc();
    assert_eq!(move_workspace(&mut list, &rec("C", "/z"), false), Ok(0));
    assert_eq!(list, vec![rec("C", "/z"), rec("A", "/x"), rec("B", "/y")]);
}

#[test]
fn move_down_swaps_with_the_record_after() {
    let mut list = abc();
    assert_eq!(move_workspace(&mut list, &rec("A", "/x"), false), Ok(1));
    assert_eq!(list, vec![rec("B", "/y"), rec("A", "/x"), rec("C", "/z")]);
}

#[test]
fn move_wraps_for_every_size() {
    for n in 2..8usize {
        let list: Vec<Workspace> =
            (0..n).map(|i| rec(&format!("n{}", i), &format!("/p{}", i))).collect();
        let mut up = list.clone();
        assert_eq!(move_workspace(&mut up, &list[0], true), Ok(n - 1));
        assert_eq!(up[n - 1], list[0]);
        assert_eq!(up[..n - 1], list[1..]);
        let mut down = list.clone();
        assert_eq!(move_workspace(&mut down, &list[n - 1], false), Ok(0));
        assert_eq!(down[0], list[n - 1]);
        assert_eq!(down[1..], list[..n - 1]);
    }
}

#[test]
fn move_in_a_collection_of_two() {
    let mut list = vec![rec("A", "/x"), rec("B", "/y")];
    assert_eq!(move_workspace(&mut list, &rec("A", "/x"), true), Ok(1));
    assert_eq!(list, vec![rec("B", "/y"), rec("A", "/x")]);
    assert_eq!(move_workspace(&mut list, &rec("A", "/x"), false), Ok(0));
    assert_eq!(list, vec![rec("A", "/x"), rec("B", "/y")]);
}

#[test]
fn move_needs_two_records() {
    let mut one = vec![rec("A", "/x")];
    assert_eq!(move_workspace(&mut one, &rec("A", "/x"), true), Err(Error::InsufficientSize));
    assert_eq!(move_workspace(&mut one, &rec("A", "/x"), false), Err(Error::InsufficientSize));
    assert_eq!(one, vec![rec("A", "/x")]);
}

#[test]
fn move_of_an_unknown_record_is_not_found() {
    let mut one = vec![rec("A", "/x")];
    assert_eq!(move_workspace(&mut one, &rec("B", "/y"), true), Err(Error::NotFound));
    let mut none: Vec<Workspace> = Vec::new();
    assert_eq!(move_workspace(&mut none, &rec("A", "/x"), true), Err(Error::NotFound));
    let mut list = abc();
    assert_eq!(move_workspace(&mut list, &rec("D", "/w"), false), Err(Error::NotFound));
    assert_eq!(list, abc());
}

#[test]
fn replace_overwrites_in_place() {
    let mut list = abc();
    assert_eq!(
        replace_workspace(&mut list, &rec("B", "/y"), "Bee".to_string(), "/why".to_string()),
        Ok(())
    );
    assert_eq!(list, vec![rec("A", "/x"), rec("Bee", "/why"), rec("C", "/z")]);
}

#[test]
fn replace_keeps_the_shortcut() {
    let mut list = vec![keyed("A", "/x", "a"), keyed("B", "/y", "b")];
    assert_eq!(
        replace_workspace(&mut list, &keyed("", "", "b"), "Bee".to_string(), "/why".to_string()),
        Ok(())
    );
    assert_eq!(list, vec![keyed("A", "/x", "a"), keyed("Bee", "/why", "b")]);
}

#[test]
fn replace_of_an_unknown_record_changes_nothing() {
    let mut list = abc();
    assert_eq!(
        replace_workspace(&mut list, &rec("D", "/w"), "E".to_string(), "/v".to_string()),
        Err(Error::NotFound)
    );
    assert_eq!(list, abc());
}
