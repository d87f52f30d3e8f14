use dirbrowse::pathstr::{descend, parent};

#[test]
fn descend_appends_child_name() {
    assert_eq!(descend("/home/u", "sub"), "/home/u/sub");
}

#[test]
fn descend_trims_trailing_separators_first() {
    assert_eq!(descend("/home/u/", "sub"), "/home/u/sub");
    assert_eq!(descend("/home/u///", "sub"), "/home/u/sub");
}

#[test]
fn descend_from_root() {
    assert_eq!(descend("/", "etc"), "/etc");
}

#[test]
fn parent_of_nested_path() {
    assert_eq!(parent("/home/u"), Some("/home".to_string()));
    assert_eq!(parent("/home/u/"), Some("/home".to_string()));
}

#[test]
fn parent_of_top_level_is_root() {
    assert_eq!(parent("/home"), Some("/".to_string()));
}

#[test]
fn root_has_no_parent() {
    assert_eq!(parent("/"), None);
    assert_eq!(parent("///"), None);
    assert_eq!(parent(""), None);
}

#[test]
fn bare_name_has_no_parent() {
    assert_eq!(parent("name"), None);
}

#[test]
fn parent_of_relative_path() {
    assert_eq!(parent("a/b"), Some("a".to_string()));
}
