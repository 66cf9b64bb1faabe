use ezcmd::{CommandLine, EasyCommand, EasyCommandInvocation};

fn words_of(cmd: &EasyCommand) -> Vec<String> {
    let line = cmd.command_line();
    let mut words = vec![line.get_program().to_string()];
    let mut i = 0;
    while let Some(arg) = line.get_arg(i) {
        words.push(arg.to_string());
        i += 1;
    }
    words
}

#[test]
fn plain_words_are_joined_with_single_spaces() {
    let cmd = EasyCommand::simple("echo", &["a", "b", "c"]);
    assert_eq!(cmd.shell_words(), "echo a b c");
    assert_eq!(cmd.to_string(), "`echo a b c`");
}

#[test]
fn program_alone_is_rendered_as_itself() {
    let cmd = EasyCommand::new("true");
    assert_eq!(cmd.shell_words(), "true");
    assert_eq!(cmd.to_string(), "`true`");
}

#[test]
fn constructors_render_alike() {
    let plain = EasyCommand::new("git");
    let customized = EasyCommand::new_with("git", |line| line);
    let simple = EasyCommand::simple("git", &[]);
    assert_eq!(plain.shell_words(), customized.shell_words());
    assert_eq!(plain.shell_words(), simple.shell_words());
    assert_eq!(plain.to_string(), customized.to_string());
    assert_eq!(plain.to_string(), simple.to_string());
}

#[test]
fn customization_adds_arguments_in_order() {
    let cmd = EasyCommand::new_with("git", |mut line: CommandLine| {
        line.arg("commit");
        line.args(&["-m", "first try"]);
        line
    });
    assert_eq!(words_of(&cmd), ["git", "commit", "-m", "first try"]);
    assert_eq!(cmd.shell_words(), "git commit -m 'first try'");
    let simple = EasyCommand::simple("git", &["commit", "-m", "first try"]);
    assert_eq!(simple.shell_words(), cmd.shell_words());
}

#[test]
fn command_line_getters_give_back_what_was_added() {
    let mut line = CommandLine::new("cc");
    assert_eq!(line.args_len(), 0);
    assert_eq!(line.get_arg(0), None);
    line.arg("-c");
    line.args(&["a.c", "-o", "a.out"]);
    assert_eq!(line.get_program(), "cc");
    assert_eq!(line.args_len(), 4);
    assert_eq!(line.get_arg(0), Some("-c"));
    assert_eq!(line.get_arg(3), Some("a.out"));
    assert_eq!(line.get_arg(4), None);
    assert_eq!(line.words(), ["cc", "-c", "a.c", "-o", "a.out"]);
    assert_eq!(line.shell_words(), "cc -c a.c -o a.out");
}

#[test]
fn rendered_line_splits_back_into_its_words() {
    let cases: Vec<(&str, Vec<&str>)> = vec![
        ("true", vec![]),
        ("echo", vec!["hello", "world"]),
        ("python", vec!["-c", "print('Hello world!')"]),
        ("echo", vec![" arg with spaces ", "arg ' with \" quotes"]),
        ("printf", vec!["%s\n", "\n", "\n\n\t "]),
        ("sh", vec!["-c", "echo $HOME `date` ~user/log* | wc -l > out; true & (false)"]),
        ("test", vec!["'a \"b", "\"X'", "a\\b", "#c", "k=v", "[x]?"]),
        ("empty", vec!["", "", ""]),
        ("/opt/my tools/run it", vec!["--name=J\u{fc}rgen", "\u{1f989}"]),
    ];
    for (program, args) in cases {
        let cmd = EasyCommand::simple(program, &args);
        let line = cmd.shell_words();
        let mut expected = vec![program.to_string()];
        expected.extend(args.iter().map(|a| a.to_string()));
        assert_eq!(shell_words::split(&line).unwrap(), expected, "line: {line}");
    }
}

#[test]
fn argument_with_space_and_quotes_survives() {
    let cmd = EasyCommand::simple("echo", &["a \"b\""]);
    let line = cmd.shell_words();
    assert_eq!(line, "echo 'a \"b\"'");
    assert_eq!(shell_words::split(&line).unwrap(), ["echo", "a \"b\""]);
}

#[test]
fn single_quote_is_escaped_outside_the_quotes() {
    let cmd = EasyCommand::simple("echo", &["it's"]);
    assert_eq!(cmd.shell_words(), "echo 'it'\\''s'");
    assert_eq!(cmd.to_string(), "`echo 'it'\\''s'`");
}

#[test]
fn empty_argument_is_rendered_as_empty_quotes() {
    let cmd = EasyCommand::simple("printf", &[""]);
    assert_eq!(cmd.shell_words(), "printf ''");
}

#[test]
fn invocation_is_a_copy_of_the_rendered_line() {
    let cmd = EasyCommand::simple("ls", &["-l", "my dir"]);
    let invocation = EasyCommandInvocation::new(&cmd);
    assert_eq!(invocation.as_str(), "ls -l 'my dir'");
    assert_eq!(invocation.to_string(), cmd.shell_words());
}

#[test]
fn rendering_is_not_the_words_handed_back() {
    let cmd = EasyCommand::simple("a b", &["c"]);
    assert_ne!(cmd.shell_words(), "a b c");
    assert_eq!(cmd.shell_words(), "'a b' c");
}

#[test]
fn display_puts_backticks_around_any_line() {
    assert_eq!(ezcmd::command::display_line("ls -l 'my dir'"), "`ls -l 'my dir'`");
    assert_eq!(ezcmd::command::display_line(""), "``");
}

#[test]
fn failure_message_names_the_command() {
    assert_eq!(ezcmd::error::failure_message("make all"), "failed to execute make all");
    assert_eq!(ezcmd::error::failure_message("'a b'"), "failed to execute 'a b'");
}
