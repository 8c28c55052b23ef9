use fsengine::launch::{open_command, terminal_commands, terminal_outcome, Platform};
use fsengine::FsError;

#[test]
fn open_uses_platform_launcher() {
    let mac = open_command(Platform::MacOs, "/d/f.txt");
    assert_eq!(mac.program, "open");
    assert_eq!(mac.args, vec!["/d/f.txt"]);
    assert!(mac.workdir.is_none());

    let linux = open_command(Platform::Linux, "/d/f.txt");
    assert_eq!(linux.program, "xdg-open");
    assert_eq!(linux.args, vec!["/d/f.txt"]);

    let win = open_command(Platform::Windows, "C:/d/f.txt");
    assert_eq!(win.program, "cmd");
    assert_eq!(win.args, vec!["/C", "start", "", "C:/d/f.txt"]);
}

#[test]
fn linux_terminals_are_tried_in_preference_order() {
    let cs = terminal_commands(Platform::Linux, "/work", false);
    let programs: Vec<&str> = cs.iter().map(|c| c.program.as_str()).collect();
    assert_eq!(programs, vec!["x-terminal-emulator", "gnome-terminal", "konsole", "xterm"]);
    assert_eq!(cs[0].workdir.as_deref(), Some("/work"));
    assert!(cs[0].args.is_empty());
    assert_eq!(cs[1].args, vec!["--working-directory", "/work"]);
    assert!(cs[1].workdir.is_none());
    assert_eq!(cs[2].workdir.as_deref(), Some("/work"));
    assert_eq!(cs[3].workdir.as_deref(), Some("/work"));
}

#[test]
fn macos_prefers_iterm_when_installed() {
    let with_iterm = terminal_commands(Platform::MacOs, "/work", true);
    assert_eq!(with_iterm.len(), 1);
    assert_eq!(with_iterm[0].program, "open");
    assert_eq!(with_iterm[0].args, vec!["-a", "iTerm", "/work"]);

    let without = terminal_commands(Platform::MacOs, "/work", false);
    assert_eq!(without[0].args, vec!["-a", "Terminal", "/work"]);
}

#[test]
fn windows_terminal_changes_into_directory() {
    let cs = terminal_commands(Platform::Windows, "C:/work", false);
    assert_eq!(cs.len(), 1);
    assert_eq!(cs[0].program, "cmd");
    assert_eq!(cs[0].args, vec!["/C", "start", "cmd", "/K", "cd /d C:/work"]);
}

#[test]
fn no_launched_terminal_is_unsupported_platform() {
    assert_eq!(terminal_outcome(false), Err(FsError::UnsupportedPlatform));
    assert_eq!(terminal_outcome(true), Ok(()));
}
