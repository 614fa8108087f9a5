use shell_dispatch::command::ShellAvailableCommands;
use shell_dispatch::parse::{get_the_structured_command, SyntaxError};

fn words_of(line: &str) -> Vec<String> {
    let command = get_the_structured_command(&line.to_string()).unwrap().unwrap();
    let mut words = vec![command.raw_command().clone()];
    words.extend(command.arguments().iter().cloned());
    words
}

fn arguments_of(line: &str) -> Vec<String> {
    let command = get_the_structured_command(&line.to_string()).unwrap().unwrap();
    command.arguments().clone()
}

#[test]
fn clean_line_splits_like_whitespace() {
    for line in ["echo hello world", "ls -l /tmp", "a", "type echo", "x y z w v u", "cd /does/not/exist"] {
        let expected: Vec<String> = line.split_whitespace().map(|word| word.to_string()).collect();
        assert_eq!(words_of(line), expected, "{}", line);
        let by_spaces: Vec<String> = line.split(' ').map(|word| word.to_string()).collect();
        assert_eq!(words_of(line), by_spaces, "{}", line);
    }
}

#[test]
fn single_quotes_keep_inner_spaces() {
    assert_eq!(arguments_of("echo 'a  b'"), vec!["a  b".to_string()]);
}

#[test]
fn single_quotes_take_everything_literally() {
    assert_eq!(arguments_of(r#"echo 'a \n "b" $c'"#), vec![r#"a \n "b" $c"#.to_string()]);
}

#[test]
fn double_quotes_allow_escaped_quote_and_backslash() {
    assert_eq!(arguments_of(r#"echo "a \"b\" c""#), vec![r#"a "b" c"#.to_string()]);
    assert_eq!(arguments_of(r#"echo "a\\b""#), vec![r#"a\b"#.to_string()]);
    assert_eq!(arguments_of(r#"echo "it's""#), vec!["it's".to_string()]);
}

#[test]
fn backslash_escapes_outside_quotes() {
    assert_eq!(arguments_of(r#"echo a\ b"#), vec!["a b".to_string()]);
    assert_eq!(arguments_of(r#"echo \'x\'"#), vec!["'x'".to_string()]);
}

#[test]
fn adjacent_segments_form_one_word() {
    assert_eq!(arguments_of(r#"echo a'b c'"d e"f"#), vec!["ab cd ef".to_string()]);
    assert_eq!(arguments_of("echo 'hello''world'"), vec!["helloworld".to_string()]);
}

#[test]
fn unquoted_whitespace_separates_and_is_dropped() {
    assert_eq!(
        words_of("  echo \t  hello    world  \n"),
        vec!["echo".to_string(), "hello".to_string(), "world".to_string()]
    );
}

#[test]
fn empty_quotes_are_an_empty_word() {
    assert_eq!(arguments_of("echo '' b"), vec!["".to_string(), "b".to_string()]);
}

#[test]
fn empty_line_has_no_command() {
    assert!(get_the_structured_command(&"".to_string()).unwrap().is_none());
}

#[test]
fn blank_line_has_no_command() {
    for line in [" ", "\n", "   \t \n", "\t\t"] {
        assert!(get_the_structured_command(&line.to_string()).unwrap().is_none(), "{:?}", line);
    }
}

#[test]
fn unterminated_single_quote_is_an_error() {
    let parsed = get_the_structured_command(&"echo 'abc".to_string());
    assert_eq!(parsed.err(), Some(SyntaxError::MissingClosingQuote));
}

#[test]
fn unterminated_double_quote_is_an_error() {
    let parsed = get_the_structured_command(&"echo \"abc\n".to_string());
    assert_eq!(parsed.err(), Some(SyntaxError::MissingClosingQuote));
}

#[test]
fn syntax_error_has_a_message() {
    assert_eq!(SyntaxError::MissingClosingQuote.message(), "syntax error: missing closing quote");
}

#[test]
fn first_word_is_classified_and_kept_verbatim() {
    let command = get_the_structured_command(&"./bin/tool --flag value\n".to_string())
        .unwrap()
        .unwrap();
    assert_eq!(command.command(), ShellAvailableCommands::UnknownCommand);
    assert_eq!(command.raw_command(), "./bin/tool");
    assert_eq!(command.arguments(), &vec!["--flag".to_string(), "value".to_string()]);
}

#[test]
fn quoted_builtin_name_is_the_builtin() {
    let command = get_the_structured_command(&"'echo' x".to_string()).unwrap().unwrap();
    assert_eq!(command.command(), ShellAvailableCommands::Echo);
    assert_eq!(command.raw_command(), "echo");
}

#[test]
fn name_is_not_among_the_arguments() {
    let command = get_the_structured_command(&"echo one two".to_string()).unwrap().unwrap();
    assert_eq!(command.arguments().len(), 2);
    assert!(!command.arguments().contains(&"echo".to_string()));
}
