//! Launch commands for opening an entry and opening a terminal.
//!
//! Opening delegates to an external process; the engine only decides
//! which program to spawn with which arguments on which platform, and
//! how the Linux terminal candidates are tried in order. The spawning
//! itself happens in the unverified shell.

use vstd::prelude::*;
use crate::errors::FsError;

verus! {

/// The platform the shell runs on, fixed at build time.
#[derive(Clone, Copy, Debug, PartialEq, Eq, Structural)]
pub enum Platform {
    MacOs,
    Windows,
    Linux,
}

/// An external process to spawn: a program, its arguments, and an
/// optional working directory to spawn it in.
pub struct LaunchCommand {
    pub program: String,
    pub args: Vec<String>,
    pub workdir: Option<String>,
}

/// The views of an argument list.
pub open spec fn args_view(args: Seq<String>) -> Seq<Seq<char>> {
    args.map_values(|s: String| s@)
}

/// The command that opens `path` with the platform's default
/// application.
pub fn open_command(platform: Platform, path: &str) -> (c: LaunchCommand)
    ensures
        c.workdir is None,
        match platform {
            Platform::MacOs => c.program@ == "open"@ && args_view(c.args@) == seq![path@],
            Platform::Windows => c.program@ == "cmd"@ && args_view(c.args@) == seq![
                "/C"@,
                "start"@,
                ""@,
                path@,
            ],
            Platform::Linux => c.program@ == "xdg-open"@ && args_view(c.args@) == seq![path@],
        },
{
    let mut args: Vec<String> = Vec::new();
    match platform {
        Platform::MacOs => {
            args.push(String::from_str(path));
            proof {
                assert(args_view(args@) =~= seq![path@]);
            }
            LaunchCommand { program: String::from_str("open"), args, workdir: None }
        },
        Platform::Windows => {
            args.push(String::from_str("/C"));
            args.push(String::from_str("start"));
            args.push(String::from_str(""));
            args.push(String::from_str(path));
            proof {
                assert(args_view(args@) =~= seq!["/C"@, "start"@, ""@, path@]);
            }
            LaunchCommand { program: String::from_str("cmd"), args, workdir: None }
        },
        Platform::Linux => {
            args.push(String::from_str(path));
            proof {
                assert(args_view(args@) =~= seq![path@]);
            }
            LaunchCommand { program: String::from_str("xdg-open"), args, workdir: None }
        },
    }
}

/// The terminal commands for `path`, to be tried in order until one
/// spawns. On macOS a single command opens iTerm when it is installed
/// and Terminal otherwise; on Windows a single `cmd` invocation starts a
/// shell in the directory; on Linux the common emulators are tried in a
/// fixed preference order, `gnome-terminal` taking the directory as an
/// argument and the others as their working directory.
pub fn terminal_commands(platform: Platform, path: &str, iterm_installed: bool) -> (cs: Vec<
    LaunchCommand,
>)
    ensures
        match platform {
            Platform::MacOs => {
                &&& cs@.len() == 1
                &&& cs@[0].program@ == "open"@
                &&& args_view(cs@[0].args@) == seq![
                    "-a"@,
                    if iterm_installed { "iTerm"@ } else { "Terminal"@ },
                    path@,
                ]
                &&& cs@[0].workdir is None
            },
            Platform::Windows => {
                &&& cs@.len() == 1
                &&& cs@[0].program@ == "cmd"@
                &&& args_view(cs@[0].args@) == seq!["/C"@, "start"@, "cmd"@, "/K"@, "cd /d "@
                    + path@]
                &&& cs@[0].workdir is None
            },
            Platform::Linux => {
                &&& cs@.len() == 4
                &&& cs@[0].program@ == "x-terminal-emulator"@
                &&& args_view(cs@[0].args@) == Seq::<Seq<char>>::empty()
                &&& cs@[0].workdir matches Some(w) && w@ == path@
                &&& cs@[1].program@ == "gnome-terminal"@
                &&& args_view(cs@[1].args@) == seq!["--working-directory"@, path@]
                &&& cs@[1].workdir is None
                &&& cs@[2].program@ == "konsole"@
                &&& args_view(cs@[2].args@) == Seq::<Seq<char>>::empty()
                &&& cs@[2].workdir matches Some(w) && w@ == path@
                &&& cs@[3].program@ == "xterm"@
                &&& args_view(cs@[3].args@) == Seq::<Seq<char>>::empty()
                &&& cs@[3].workdir matches Some(w) && w@ == path@
            },
        },
{
    let mut cs: Vec<LaunchCommand> = Vec::new();
    match platform {
        Platform::MacOs => {
            let mut args: Vec<String> = Vec::new();
            args.push(String::from_str("-a"));
            if iterm_installed {
                args.push(String::from_str("iTerm"));
            } else {
                args.push(String::from_str("Terminal"));
            }
            args.push(String::from_str(path));
            proof {
                assert(args_view(args@) =~= seq![
                    "-a"@,
                    if iterm_installed { "iTerm"@ } else { "Terminal"@ },
                    path@,
                ]);
            }
            cs.push(LaunchCommand { program: String::from_str("open"), args, workdir: None });
        },
        Platform::Windows => {
            let mut change_dir = String::from_str("cd /d ");
            change_dir.append(path);
            let mut args: Vec<String> = Vec::new();
            args.push(String::from_str("/C"));
            args.push(String::from_str("start"));
            args.push(String::from_str("cmd"));
            args.push(String::from_str("/K"));
            args.push(change_dir);
            proof {
                assert(args_view(args@) =~= seq!["/C"@, "start"@, "cmd"@, "/K"@, "cd /d "@
                    + path@]);
            }
            cs.push(LaunchCommand { program: String::from_str("cmd"), args, workdir: None });
        },
        Platform::Linux => {
            let empty1: Vec<String> = Vec::new();
            proof {
                assert(args_view(empty1@) =~= Seq::<Seq<char>>::empty());
            }
            cs.push(LaunchCommand {
                program: String::from_str("x-terminal-emulator"),
                args: empty1,
                workdir: Some(String::from_str(path)),
            });
            let mut gnome_args: Vec<String> = Vec::new();
            gnome_args.push(String::from_str("--working-directory"));
            gnome_args.push(String::from_str(path));
            proof {
                assert(args_view(gnome_args@) =~= seq!["--working-directory"@, path@]);
            }
            cs.push(LaunchCommand {
                program: String::from_str("gnome-terminal"),
                args: gnome_args,
                workdir: None,
            });
            let empty2: Vec<String> = Vec::new();
            proof {
                assert(args_view(empty2@) =~= Seq::<Seq<char>>::empty());
            }
            cs.push(LaunchCommand {
                program: String::from_str("konsole"),
                args: empty2,
                workdir: Some(String::from_str(path)),
            });
            let empty3: Vec<String> = Vec::new();
            proof {
                assert(args_view(empty3@) =~= Seq::<Seq<char>>::empty());
            }
            cs.push(LaunchCommand {
                program: String::from_str("xterm"),
                args: empty3,
                workdir: Some(String::from_str(path)),
            });
        },
    }
    cs
}

/// The outcome of the try-each-candidate policy: success once any
/// candidate spawned, `UnsupportedPlatform` when none did.
pub fn terminal_outcome(launched: bool) -> (r: Result<(), FsError>)
    ensures
        match r {
            Ok(u) => launched,
            Err(e) => !launched && e == FsError::UnsupportedPlatform,
        },
{
    if launched {
        Ok(())
    } else {
        Err(FsError::UnsupportedPlatform)
    }
}

} // verus!
