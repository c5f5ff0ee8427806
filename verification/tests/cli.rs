use ccg::output_lines;

const BANNER_TAIL: [&str; 9] = [
    "",
    "Usage: ./ccg [options] [--] [file...]",
    "",
    "Arguments:",
    "  -h, --help",
    "    Display this usage message and exit.",
    "",
    "  -h <command>, --help <command>",
    "    Shows useful informateion about the given command.",
];

fn args_of(user_args: &[&str]) -> Vec<String> {
    let mut v: Vec<String> = vec!["./ccg".to_string()];
    for a in user_args {
        v.push(a.to_string());
    }
    v
}

#[test]
fn no_arguments_prints_banner_verbatim() {
    colored::control::set_override(false);
    let lines = output_lines(&args_of(&[]));
    assert_eq!(lines.len(), 10);
    assert_eq!(lines[0], "Welcome to CleanCodersGIT!");
    for (i, expected) in BANNER_TAIL.iter().enumerate() {
        assert_eq!(&lines[i + 1], expected);
    }
}

#[test]
fn no_arguments_omits_echo_line() {
    let lines = output_lines(&args_of(&[]));
    assert_eq!(lines.len(), 10);
    for line in &lines {
        assert!(!line.starts_with("The first argument is"));
    }
}

#[test]
fn status_argument_is_echoed_first() {
    colored::control::set_override(false);
    let lines = output_lines(&args_of(&["status"]));
    assert_eq!(lines.len(), 11);
    assert_eq!(lines[0], "The first argument is status");
    assert_eq!(lines[1], "Welcome to CleanCodersGIT!");
    for (i, expected) in BANNER_TAIL.iter().enumerate() {
        assert_eq!(&lines[i + 2], expected);
    }
}

#[test]
fn help_flag_is_echoed_not_dispatched() {
    let lines = output_lines(&args_of(&["-h", "commit"]));
    assert_eq!(lines.len(), 11);
    assert_eq!(lines[0], "The first argument is -h");
    for line in &lines[1..] {
        assert!(!line.contains("commit"));
        assert!(!line.starts_with("The first argument is"));
    }
}

#[test]
fn echo_keeps_argument_text_exactly() {
    let lines = output_lines(&args_of(&["  MiXeD CaSe  "]));
    assert_eq!(lines[0], "The first argument is   MiXeD CaSe  ");
    let lines = output_lines(&args_of(&[""]));
    assert_eq!(lines[0], "The first argument is ");
}

#[test]
fn only_the_first_argument_is_echoed() {
    let lines = output_lines(&args_of(&["one", "two", "three"]));
    assert_eq!(lines.len(), 11);
    assert_eq!(lines[0], "The first argument is one");
    for line in &lines[1..] {
        assert!(!line.contains("two"));
        assert!(!line.contains("three"));
    }
}

#[test]
fn greeting_line_carries_the_greeting_text() {
    // Whether colouring is applied depends on the environment, so only the
    // presence of the greeting text within the line is fixed.
    let lines = output_lines(&args_of(&[]));
    assert!(lines[0].contains("Welcome to CleanCodersGIT!"));
}

#[test]
fn forced_colour_wraps_greeting_in_green_escapes() {
    colored::control::set_override(true);
    let lines = output_lines(&args_of(&[]));
    assert_eq!(lines[0], "\u{1B}[32mWelcome to CleanCodersGIT!\u{1B}[0m");
    colored::control::unset_override();
}
