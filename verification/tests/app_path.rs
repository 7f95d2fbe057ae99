use app_shell::app_path::get_app_path;
use app_shell::app_path::parent_dir;

#[test]
fn unknown_exe_falls_back_to_dot() {
    assert_eq!(get_app_path(None), ".");
}

#[test]
fn absolute_path_yields_parent() {
    assert_eq!(get_app_path(Some("/usr/local/bin/app")), "/usr/local/bin");
}

#[test]
fn child_of_root_yields_root() {
    assert_eq!(get_app_path(Some("/app")), "/");
}

#[test]
fn bare_name_falls_back_to_dot() {
    assert_eq!(get_app_path(Some("app")), ".");
}

#[test]
fn root_falls_back_to_dot() {
    assert_eq!(get_app_path(Some("/")), ".");
}

#[test]
fn empty_path_falls_back_to_dot() {
    assert_eq!(get_app_path(Some("")), ".");
}

#[test]
fn separators_only_fall_back_to_dot() {
    assert_eq!(get_app_path(Some("///")), ".");
}

#[test]
fn trailing_separators_are_ignored() {
    assert_eq!(get_app_path(Some("/usr/bin///")), "/usr");
}

#[test]
fn repeated_separators_collapse() {
    assert_eq!(get_app_path(Some("/usr//bin")), "/usr");
}

#[test]
fn relative_path_yields_parent() {
    assert_eq!(get_app_path(Some("dir/sub/app")), "dir/sub");
}

#[test]
fn app_path_is_never_empty() {
    let inputs = [
        None,
        Some(""),
        Some("/"),
        Some("///"),
        Some("app"),
        Some("/app"),
        Some("/usr/local/bin/app"),
        Some("dir/app"),
    ];
    for exe in inputs {
        assert!(!get_app_path(exe).is_empty());
    }
}

#[test]
fn parent_dir_of_nested_path() {
    assert_eq!(parent_dir("/usr/local/bin/app").as_deref(), Some("/usr/local/bin"));
}

#[test]
fn parent_dir_of_root_child_is_root() {
    assert_eq!(parent_dir("//app").as_deref(), Some("/"));
}

#[test]
fn parent_dir_of_bare_name_is_none() {
    assert_eq!(parent_dir("app"), None);
    assert_eq!(parent_dir("app//"), None);
}

#[test]
fn parent_dir_of_root_is_none() {
    assert_eq!(parent_dir("/"), None);
    assert_eq!(parent_dir(""), None);
}
