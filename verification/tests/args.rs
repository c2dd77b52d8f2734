use procactivity::args::{ArgAttach, ArgCommand, Args, ParseFailure};

fn argv(words: &[&str]) -> Vec<String> {
    words.iter().map(|word| word.to_string()).collect()
}

fn parse(words: &[&str]) -> Result<Args, ParseFailure> {
    Args::parse_from(&argv(words))
}

#[test]
fn test_args_simple() {
    let args = parse(&["procactivity", "app"]).unwrap();
    assert_eq!(
        args.command,
        Some(ArgCommand::Command(vec!["app".to_string()])),
    );
}

#[test]
fn flags_come_before_the_command() {
    let args = parse(&["procactivity", "-f", "--collapse-exec-retries", "ls", "-l"]).unwrap();
    assert!(args.follow_forks);
    assert!(args.collapse_exec_retries);
    assert_eq!(
        args.command,
        Some(ArgCommand::Command(argv(&["ls", "-l"]))),
    );
}

#[test]
fn flags_after_the_command_belong_to_it() {
    let args = parse(&["procactivity", "ls", "--follow-forks"]).unwrap();
    assert!(!args.follow_forks);
    assert_eq!(
        args.command,
        Some(ArgCommand::Command(argv(&["ls", "--follow-forks"]))),
    );
}

#[test]
fn nothing_but_the_program() {
    let args = parse(&["procactivity", "--follow-forks"]).unwrap();
    assert!(args.follow_forks);
    assert!(!args.collapse_exec_retries);
    assert_eq!(args.command, None);
}

#[test]
fn unknown_flag_is_rejected() {
    let failure = parse(&["procactivity", "--nonsense"]).unwrap_err();
    assert_eq!(failure.exit_code, 2);
    assert!(failure.message.contains("--nonsense"));
}

#[test]
fn help_and_version_are_no_errors() {
    let help = parse(&["procactivity", "-h"]).unwrap_err();
    assert_eq!(help.exit_code, 0);
    assert!(help.message.contains("--follow-forks"));
    assert!(help.message.contains("--collapse-exec-retries"));
    let version = parse(&["procactivity", "--version"]).unwrap_err();
    assert_eq!(version.exit_code, 0);
    assert!(version.message.starts_with("procactivity "));
}

#[test]
fn command_line_becomes_options() {
    let args = Args::from_command_line((
        false,
        true,
        Some(("cat".to_string(), argv(&["a", "b"]))),
    ));
    assert!(!args.follow_forks);
    assert!(args.collapse_exec_retries);
    assert_eq!(
        args.command,
        Some(ArgCommand::Command(argv(&["cat", "a", "b"]))),
    );
    assert_eq!(Args::from_command_line((true, false, None)).command, None);
}

#[test]
fn default_options_ask_for_nothing() {
    let args = Args::default();
    assert!(!args.follow_forks);
    assert!(!args.collapse_exec_retries);
    assert_eq!(args.command, None);
    assert_eq!(ArgAttach { attach: 12 }.attach, 12);
}

#[test]
fn filter_lets_everything_through() {
    let mut filter = Args::default().create_filter().unwrap();
    assert!(filter.matches());
    let enabled = filter.all_enabled();
    assert_eq!(enabled.count(), 373);
    assert!(enabled.contains(syscalls::Sysno::openat));
}
