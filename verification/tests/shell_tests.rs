use pi_firmware::shell::{Command, CommandKind, Error};

fn storage(n: usize) -> Vec<Vec<u8>> {
    vec![Vec::new(); n]
}

#[test]
fn parse_splits_on_spaces() {
    let cmd = Command::parse(b"echo hello world", storage(8)).unwrap();
    assert_eq!(cmd.arg_count(), 3);
    assert_eq!(cmd.path(), &b"echo".to_vec());
    assert_eq!(cmd.arg(1), &b"hello".to_vec());
    assert_eq!(cmd.arg(2), &b"world".to_vec());
}

#[test]
fn parse_drops_repeated_spaces() {
    let cmd = Command::parse(b"  ls   -a  ", storage(8)).unwrap();
    assert_eq!(cmd.arg_count(), 2);
    assert_eq!(cmd.path(), &b"ls".to_vec());
    assert_eq!(cmd.arg(1), &b"-a".to_vec());
}

#[test]
fn parse_empty_line_fails() {
    assert!(matches!(Command::parse(b"", storage(4)), Err(Error::Empty)));
    assert!(matches!(Command::parse(b"   ", storage(4)), Err(Error::Empty)));
}

#[test]
fn parse_too_many_args_fails() {
    assert!(matches!(
        Command::parse(b"a b c", storage(2)),
        Err(Error::TooManyArgs)
    ));
    assert!(Command::parse(b"a b", storage(2)).is_ok());
}

#[test]
fn kind_selects_known_commands() {
    let echo = Command::parse(b"echo x", storage(4)).unwrap();
    assert_eq!(echo.kind(), CommandKind::Echo);
    let exit = Command::parse(b"exit", storage(4)).unwrap();
    assert_eq!(exit.kind(), CommandKind::Exit);
    let other = Command::parse(b"reboot now", storage(4)).unwrap();
    assert_eq!(other.kind(), CommandKind::Unknown);
}
