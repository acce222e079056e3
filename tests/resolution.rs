use mini_shell::resolve::{find_command_in_path, join_path, search_list};

#[test]
fn join_path_forms() {
    assert_eq!(join_path("/bin", "foo"), "/bin/foo");
    assert_eq!(join_path("/bin/", "foo"), "/bin/foo");
    assert_eq!(join_path("", "foo"), "foo");
    assert_eq!(join_path("/bin", "/usr/bin/foo"), "/usr/bin/foo");
}

#[test]
fn search_list_in_order() {
    assert_eq!(search_list("/usr/bin:/bin"), vec!["/usr/bin", "/bin"]);
}

#[test]
fn find_first_existing_directory() {
    let found = find_command_in_path("etc", "/no/such/dir/a:/:/no/such/dir/b");
    assert_eq!(found, Some("/etc".to_string()));
}

#[test]
fn find_prefers_earlier_directory() {
    let found = find_command_in_path("etc", "/:/");
    assert_eq!(found, Some("/etc".to_string()));
}

#[test]
fn find_nothing_when_absent() {
    let found = find_command_in_path("no_such_command_anywhere", "/no/such/dir:/");
    assert_eq!(found, None);
    assert_eq!(find_command_in_path("x", "/no/such/dir"), None);
}
