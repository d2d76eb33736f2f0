use oh_my_shell::builtin::{builtin, Builtin};

#[test]
fn exit_alone() {
    assert!(matches!(builtin("exit"), Some(Builtin::Exit)));
    assert!(matches!(builtin("  exit \n"), Some(Builtin::Exit)));
    assert!(builtin("exit now").is_none());
    assert!(builtin("exits").is_none());
}

#[test]
fn cd_with_and_without_path() {
    assert!(matches!(builtin("cd /tmp"), Some(Builtin::Cd(p)) if p == "/tmp"));
    assert!(matches!(builtin("cd"), Some(Builtin::Cd(p)) if p == "/"));
    assert!(builtin("cdrom").is_none());
}

#[test]
fn other_lines_are_not_builtins() {
    assert!(builtin("ls -l").is_none());
    assert!(builtin("").is_none());
}
