//! The command-normalisation step of the shell path.

use germ::input::prepare_command;

#[test]
fn prepare_appends_a_missing_newline() {
    assert_eq!(prepare_command(String::from("echo hello")), "echo hello\n");
    assert_eq!(prepare_command(String::new()), "\n");
}

#[test]
fn prepare_keeps_a_present_newline() {
    assert_eq!(prepare_command(String::from("echo hello\n")), "echo hello\n");
}

#[test]
fn test_usr_bin() {}
