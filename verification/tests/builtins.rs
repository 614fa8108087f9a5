use shell_dispatch::builtins::{
    handle_cd_command, handle_echo_command, handle_pwd_command, handle_type_command,
    handle_unknown_command, handle_unknown_command_for_type, substitute_home_for_home_path,
};
use shell_dispatch::command::ReceivedCommand;
use shell_dispatch::files::{FileStatus, FileTable};
use shell_dispatch::outcome::{Effect, Outcome};

fn command(name: &str, arguments: &[&str]) -> ReceivedCommand {
    ReceivedCommand::new(name.to_string(), arguments.iter().map(|word| word.to_string()).collect())
}

fn files_with(facts: &[(&str, FileStatus)]) -> FileTable {
    let mut files = FileTable::new();
    for (path, status) in facts {
        files.record(path.to_string(), *status);
    }
    files
}

fn said(text: &str) -> Outcome {
    Outcome { output: text.to_string(), effect: Effect::Nothing }
}

#[test]
fn echo_joins_arguments_with_single_spaces() {
    assert_eq!(handle_echo_command(command("echo", &["hello", "world"])), "hello world\n");
    assert_eq!(handle_echo_command(command("echo", &["a", "b", "c", "d"])), "a b c d\n");
}

#[test]
fn echo_without_arguments_prints_an_empty_line() {
    assert_eq!(handle_echo_command(command("echo", &[])), "\n");
}

#[test]
fn echo_keeps_spaces_inside_an_argument() {
    assert_eq!(handle_echo_command(command("echo", &["a  b", "c"])), "a  b c\n");
}

#[test]
fn echo_output_is_the_join_of_any_tokens() {
    let lists: [&[&str]; 5] = [&[], &["x"], &["x", "y"], &["one", "two", "three"], &["-n", "--", "!"]];
    for tokens in lists {
        let expected = format!("{}\n", tokens.join(" "));
        assert_eq!(handle_echo_command(command("echo", tokens)), expected);
    }
}

#[test]
fn pwd_prints_the_working_directory() {
    assert_eq!(handle_pwd_command(Some(&"/home/user".to_string())), "/home/user\n");
    assert_eq!(handle_pwd_command(Some(&"/".to_string())), "/\n");
}

#[test]
fn pwd_without_working_directory_prints_a_diagnostic() {
    assert_eq!(handle_pwd_command(None), "pwd: the working directory is not known\n");
}

#[test]
fn type_reports_builtins() {
    let files = FileTable::new();
    for name in ["exit", "echo", "type", "pwd", "cd"] {
        let output = handle_type_command(command("type", &[name]), None, &files);
        assert_eq!(output, format!("{} is a shell builtin\n", name));
    }
}

#[test]
fn type_prefers_the_builtin_over_a_program_of_the_same_name() {
    let files = files_with(&[("/bin/echo", FileStatus::File { mode: 0o755 })]);
    let output = handle_type_command(command("type", &["echo"]), Some(&"/bin".to_string()), &files);
    assert_eq!(output, "echo is a shell builtin\n");
}

#[test]
fn type_reports_the_resolved_path() {
    let files = files_with(&[("/usr/bin/ls", FileStatus::File { mode: 0o755 })]);
    let path = "/usr/local/bin:/usr/bin".to_string();
    let output = handle_type_command(command("type", &["ls"]), Some(&path), &files);
    assert_eq!(output, "ls is /usr/bin/ls\n");
}

#[test]
fn type_reports_not_found() {
    let path = "/usr/bin".to_string();
    let output = handle_type_command(command("type", &["lsdfkj"]), Some(&path), &FileTable::new());
    assert_eq!(output, "lsdfkj: not found\n");
}

#[test]
fn type_reports_not_found_for_a_file_without_execute_bit() {
    let files = files_with(&[("/a/tool", FileStatus::File { mode: 0o644 })]);
    let output = handle_type_command(command("type", &["tool"]), Some(&"/a".to_string()), &files);
    assert_eq!(output, "tool: not found\n");
}

#[test]
fn type_reports_not_found_without_a_search_path() {
    let files = files_with(&[("/a/tool", FileStatus::File { mode: 0o755 })]);
    let output = handle_type_command(command("type", &["tool"]), None, &files);
    assert_eq!(output, "tool: not found\n");
}

#[test]
fn type_looks_at_its_first_argument() {
    let files = FileTable::new();
    let output = handle_type_command(command("type", &["cd", "nothing"]), None, &files);
    assert_eq!(output, "cd is a shell builtin\n");
}

#[test]
fn type_of_unknown_name_goes_by_the_search() {
    let files = files_with(&[
        ("/a/tool", FileStatus::File { mode: 0o755 }),
        ("/b/tool", FileStatus::File { mode: 0o755 }),
    ]);
    let path = "/a:/b".to_string();
    let output = handle_unknown_command_for_type(command("type", &["tool"]), Some(&path), &files);
    assert_eq!(output, "tool is /a/tool\n");
    let output = handle_unknown_command_for_type(command("type", &["other"]), Some(&path), &files);
    assert_eq!(output, "other: not found\n");
}

#[test]
fn leading_tilde_becomes_the_home_directory() {
    let home = "/home/user".to_string();
    assert_eq!(
        substitute_home_for_home_path("~".to_string(), Some(&home)),
        Some("/home/user".to_string())
    );
    assert_eq!(
        substitute_home_for_home_path("~/work/src".to_string(), Some(&home)),
        Some("/home/user/work/src".to_string())
    );
}

#[test]
fn path_without_leading_tilde_stands_for_itself() {
    let home = "/home/user".to_string();
    for path in ["/tmp", "relative/dir", "", "a~", "/tmp/~", "./~/x"] {
        assert_eq!(
            substitute_home_for_home_path(path.to_string(), Some(&home)),
            Some(path.to_string())
        );
        assert_eq!(substitute_home_for_home_path(path.to_string(), None), Some(path.to_string()));
    }
}

#[test]
fn tilde_without_home_cannot_be_expanded() {
    assert_eq!(substitute_home_for_home_path("~".to_string(), None), None);
    assert_eq!(substitute_home_for_home_path("~/x".to_string(), None), None);
}

#[test]
fn tilde_after_a_wide_character_is_left_alone() {
    let home = "/home/ü".to_string();
    assert_eq!(
        substitute_home_for_home_path("~/é".to_string(), Some(&home)),
        Some("/home/ü/é".to_string())
    );
    assert_eq!(
        substitute_home_for_home_path("é~".to_string(), Some(&home)),
        Some("é~".to_string())
    );
}

#[test]
fn cd_to_a_directory_changes_directory_silently() {
    let files = files_with(&[("/tmp", FileStatus::Directory)]);
    let outcome = handle_cd_command(command("cd", &["/tmp"]), None, &files);
    assert_eq!(
        outcome,
        Outcome { output: String::new(), effect: Effect::ChangeDirectory("/tmp".to_string()) }
    );
}

#[test]
fn cd_to_a_missing_path_complains() {
    let outcome = handle_cd_command(command("cd", &["/does/not/exist"]), None, &FileTable::new());
    assert_eq!(outcome, said("cd: /does/not/exist: No such file or directory\n"));
}

#[test]
fn cd_to_a_file_complains() {
    let files = files_with(&[("/etc/passwd", FileStatus::File { mode: 0o644 })]);
    let outcome = handle_cd_command(command("cd", &["/etc/passwd"]), None, &files);
    assert_eq!(outcome, said("cd: /etc/passwd: No such file or directory\n"));
}

#[test]
fn cd_expands_the_home_directory() {
    let home = "/home/user".to_string();
    let files = files_with(&[
        ("/home/user", FileStatus::Directory),
        ("/home/user/work", FileStatus::Directory),
    ]);
    let outcome = handle_cd_command(command("cd", &["~"]), Some(&home), &files);
    assert_eq!(outcome.effect, Effect::ChangeDirectory("/home/user".to_string()));
    assert_eq!(outcome.output, "");
    let outcome = handle_cd_command(command("cd", &["~/work"]), Some(&home), &files);
    assert_eq!(outcome.effect, Effect::ChangeDirectory("/home/user/work".to_string()));
}

#[test]
fn cd_complains_about_the_expanded_path() {
    let home = "/home/user".to_string();
    let outcome = handle_cd_command(command("cd", &["~/nowhere"]), Some(&home), &FileTable::new());
    assert_eq!(outcome, said("cd: /home/user/nowhere: No such file or directory\n"));
}

#[test]
fn cd_with_tilde_and_no_home_complains_about_the_argument() {
    let files = files_with(&[("~", FileStatus::Directory)]);
    let outcome = handle_cd_command(command("cd", &["~"]), None, &files);
    assert_eq!(outcome, said("cd: ~: No such file or directory\n"));
}

#[test]
fn cd_accepts_a_relative_directory() {
    let files = files_with(&[("src", FileStatus::Directory)]);
    let outcome = handle_cd_command(command("cd", &["src"]), None, &files);
    assert_eq!(outcome.effect, Effect::ChangeDirectory("src".to_string()));
}

#[test]
fn unknown_command_that_resolves_is_run_under_its_typed_name() {
    let files = files_with(&[("/usr/bin/ls", FileStatus::File { mode: 0o755 })]);
    let path = "/bin:/usr/bin".to_string();
    let outcome = handle_unknown_command(command("ls", &["-l", "/tmp"]), Some(&path), &files);
    assert_eq!(
        outcome,
        Outcome {
            output: String::new(),
            effect: Effect::Run {
                program: "ls".to_string(),
                arguments: vec!["-l".to_string(), "/tmp".to_string()],
            },
        }
    );
}

#[test]
fn unknown_command_that_does_not_resolve_is_not_found() {
    let path = "/bin:/usr/bin".to_string();
    let outcome = handle_unknown_command(command("lsdfkj", &["x"]), Some(&path), &FileTable::new());
    assert_eq!(outcome, said("lsdfkj: command not found\n"));
}

#[test]
fn unknown_command_without_execute_bit_is_not_found() {
    let files = files_with(&[("/bin/tool", FileStatus::File { mode: 0o644 })]);
    let outcome = handle_unknown_command(command("tool", &[]), Some(&"/bin".to_string()), &files);
    assert_eq!(outcome, said("tool: command not found\n"));
}

#[test]
fn unknown_command_given_as_a_path_is_run_without_a_search_path() {
    let files = files_with(&[("./run.sh", FileStatus::File { mode: 0o750 })]);
    let outcome = handle_unknown_command(command("./run.sh", &["now"]), None, &files);
    assert_eq!(
        outcome.effect,
        Effect::Run { program: "./run.sh".to_string(), arguments: vec!["now".to_string()] }
    );
}
