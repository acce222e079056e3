use mini_shell::command::{builtin_of, split_args, split_command, Builtin};
use mini_shell::text::{same_text, split_fields};

#[test]
fn split_fields_keeps_empty_fields() {
    assert_eq!(split_fields("a::b:", ':'), vec!["a", "", "b", ""]);
    assert_eq!(split_fields("", ':'), vec![""]);
    assert_eq!(split_fields("/usr/bin:/bin", ':'), vec!["/usr/bin", "/bin"]);
}

#[test]
fn same_text_compares_characters() {
    assert!(same_text("cd", "cd"));
    assert!(!same_text("cd", "cdx"));
    assert!(!same_text("pwd", "pwf"));
    assert!(same_text("", ""));
}

#[test]
fn builtin_table() {
    assert_eq!(builtin_of("exit"), Some(Builtin::Exit));
    assert_eq!(builtin_of("echo"), Some(Builtin::Echo));
    assert_eq!(builtin_of("type"), Some(Builtin::Type));
    assert_eq!(builtin_of("pwd"), Some(Builtin::Pwd));
    assert_eq!(builtin_of("cd"), Some(Builtin::Cd));
    assert_eq!(builtin_of("ls"), None);
    assert_eq!(builtin_of("Exit"), None);
}

#[test]
fn split_command_at_first_space() {
    let inv = split_command("echo hello  world").unwrap();
    assert_eq!(inv.name, "echo");
    assert_eq!(inv.rest, Some("hello  world".to_string()));
    let inv = split_command("pwd").unwrap();
    assert_eq!(inv.name, "pwd");
    assert_eq!(inv.rest, None);
    let inv = split_command("ls ").unwrap();
    assert_eq!(inv.rest, Some(String::new()));
}

#[test]
fn split_command_empty_line() {
    assert!(split_command("").is_none());
    assert!(split_command(" ls").is_none());
}

#[test]
fn split_args_on_single_spaces() {
    assert_eq!(split_args(Some("-l -a")), vec!["-l", "-a"]);
    assert_eq!(split_args(Some("a  b")), vec!["a", "", "b"]);
    assert!(split_args(None).is_empty());
    assert!(split_args(Some("")).is_empty());
}
