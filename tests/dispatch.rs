use mini_shell::shell::{
    cd_command, cd_decision, echo_command, external_action, process_command, relay_output,
    run_ext_command, type_command, type_report, Action, Stream,
};

fn out(s: &str) -> Action {
    Action::Write(Stream::Stdout, s.to_string())
}

fn err(s: &str) -> Action {
    Action::Write(Stream::Stderr, s.to_string())
}

fn no_home() -> Result<String, String> {
    Err("environment variable not found".to_string())
}

#[test]
fn echo_writes_text_and_newline() {
    assert_eq!(echo_command(Some("x")), "x\n");
    assert_eq!(echo_command(None), "\n");
    assert_eq!(process_command("echo x", "", &no_home()), out("x\n"));
    assert_eq!(process_command("echo", "", &no_home()), out("\n"));
    assert_eq!(process_command("echo a  b", "", &no_home()), out("a  b\n"));
}

#[test]
fn type_reports_builtins_whatever_the_search_list() {
    for b in ["exit", "echo", "type", "pwd", "cd"] {
        let expected = out(&format!("{} is a shell builtin\n", b));
        assert_eq!(type_command(Some(b), "/usr/bin:/bin"), expected);
        assert_eq!(type_command(Some(b), ""), expected);
        assert_eq!(type_report(Some(b), Some("/bin/x".to_string())), expected);
    }
}

#[test]
fn type_without_argument() {
    assert_eq!(type_command(None, "/bin"), err("please specify your command\n"));
}

#[test]
fn type_report_for_resolved_and_unresolved() {
    assert_eq!(type_report(Some("foo"), Some("/bin/foo".to_string())), out("foo is /bin/foo\n"));
    assert_eq!(type_report(Some("foo"), None), out("foo: not found\n"));
}

#[test]
fn type_and_run_of_missing_command_report_not_found() {
    let path = "/no/such/dir:/";
    let name = "no_such_command_anywhere";
    let expected = out("no_such_command_anywhere: not found\n");
    assert_eq!(type_command(Some(name), path), expected);
    assert_eq!(run_ext_command(name, Some("a b"), path), expected);
    assert_eq!(process_command("no_such_command_anywhere a b", path, &no_home()), expected);
}

#[test]
fn type_reports_first_existing_path() {
    assert_eq!(type_command(Some("etc"), "/no/such/dir:/"), out("etc is /etc\n"));
}

#[test]
fn run_found_command_asks_for_spawn_by_name() {
    let a = run_ext_command("etc", Some("-l  x"), "/no/such/dir:/");
    assert_eq!(
        a,
        Action::Spawn("etc".to_string(), vec!["-l".to_string(), String::new(), "x".to_string()])
    );
    assert_eq!(
        external_action("foo", Some("a b"), Some("/bin/foo".to_string())),
        Action::Spawn("foo".to_string(), vec!["a".to_string(), "b".to_string()])
    );
    assert_eq!(
        external_action("foo", None, Some("/bin/foo".to_string())),
        Action::Spawn("foo".to_string(), vec![])
    );
    assert_eq!(external_action("foo", None, None), out("foo: not found\n"));
}

#[test]
fn exit_halts_whatever_follows() {
    assert_eq!(process_command("exit", "", &no_home()), Action::Exit);
    assert_eq!(process_command("exit 3", "", &no_home()), Action::Exit);
    assert_eq!(process_command("exit now please", "/bin", &no_home()), Action::Exit);
}

#[test]
fn pwd_twice_gives_same_reply() {
    let a = process_command("pwd", "/bin", &no_home());
    let b = process_command("pwd", "/bin", &no_home());
    assert_eq!(a, Action::ShowCwd);
    assert_eq!(a, b);
}

#[test]
fn empty_line_does_nothing() {
    assert_eq!(process_command("", "/bin", &no_home()), Action::Nothing);
}

#[test]
fn cd_home() {
    let home: Result<String, String> = Ok("/home/u".to_string());
    assert_eq!(cd_command(Some("~"), &home), Action::ChangeDir("/home/u".to_string()));
    assert_eq!(cd_decision(Some("~"), &home, false, false), Action::ChangeDir("/home/u".to_string()));
    assert_eq!(process_command("cd ~", "", &home), Action::ChangeDir("/home/u".to_string()));
    assert_eq!(
        cd_command(Some("~"), &no_home()),
        err("cannot determine home directory: environment variable not found\n")
    );
}

#[test]
fn cd_to_existing_directory() {
    assert_eq!(cd_command(Some("/"), &no_home()), Action::ChangeDir("/".to_string()));
    assert_eq!(cd_decision(Some("/a"), &no_home(), true, true), Action::ChangeDir("/a".to_string()));
}

#[test]
fn cd_to_missing_path() {
    assert_eq!(
        cd_command(Some("/no/such/dir"), &no_home()),
        err("cd: /no/such/dir: No such file or directory\n")
    );
    assert_eq!(
        process_command("cd /no/such/dir", "", &no_home()),
        err("cd: /no/such/dir: No such file or directory\n")
    );
}

#[test]
fn cd_to_non_directory() {
    assert_eq!(cd_decision(Some("f"), &no_home(), true, false), err("f is not a directory\n"));
}

#[test]
fn cd_without_argument() {
    assert_eq!(cd_command(None, &no_home()), err("please specify the path you need to navigate\n"));
}

#[test]
fn relay_picks_stream_by_status() {
    assert_eq!(relay_output(true, vec![1, 2], vec![3]), (Stream::Stdout, vec![1, 2]));
    assert_eq!(relay_output(false, vec![1, 2], vec![3]), (Stream::Stderr, vec![3]));
}
