use m0n1t0r_proxy::command::{program_and_args, split_command, Execute};
use m0n1t0r_proxy::error::{Error, ParseError};

fn strings(v: &[&str]) -> Vec<String> {
    v.iter().map(|s| s.to_string()).collect()
}

#[test]
fn splits_program_and_arguments() {
    let (p, args) = split_command("ls -la /tmp").unwrap();
    assert_eq!(p, "ls");
    assert_eq!(args, strings(&["-la", "/tmp"]));
}

#[test]
fn quotes_group_words() {
    let (p, args) = split_command("echo \"a b\" 'c d' e\\ f").unwrap();
    assert_eq!(p, "echo");
    assert_eq!(args, strings(&["a b", "c d", "e f"]));
}

#[test]
fn unclosed_quote_is_a_command_error() {
    assert_eq!(split_command("echo 'oops"), Err(Error::Parse(ParseError::Command)));
}

#[test]
fn empty_command_is_a_command_error() {
    assert_eq!(split_command(""), Err(Error::Parse(ParseError::Command)));
    assert_eq!(split_command("   # only a comment"), Err(Error::Parse(ParseError::Command)));
}

#[test]
fn program_is_the_first_word() {
    assert_eq!(program_and_args(Vec::new()), None);
    assert_eq!(
        program_and_args(strings(&["cat", "a", "b"])),
        Some(("cat".to_string(), strings(&["a", "b"])))
    );
    assert_eq!(program_and_args(strings(&["pwd"])), Some(("pwd".to_string(), Vec::new())));
}

#[test]
fn execution_blocks_by_default() {
    assert_eq!(Execute::default(), Execute::Blocked);
}
