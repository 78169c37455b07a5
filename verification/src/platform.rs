//! What depends on the machine: the platform, its paths, and the commands by
//! which it opens things.
//!
//! The commands are data. This module says which program is to be started
//! with which arguments; starting it is the caller's work.

use vstd::prelude::*;
use vstd::string::StringExecFns;

verus! {

/// The operating system that the client runs on.
#[derive(Debug, Clone, Copy, PartialEq, Eq, Structural)]
pub enum Platform {
    Windows,
    MacOs,
    Linux,
    /// Any other system: nothing can be opened or installed there.
    Other,
}

/// A program to start, with its arguments in order.
#[derive(Debug, Clone, PartialEq, Eq)]
pub struct ShellCommand {
    pub program: String,
    pub args: Vec<String>,
}

/// What a [`ShellCommand`] holds.
pub struct Invocation {
    pub program: Seq<char>,
    pub args: Seq<Seq<char>>,
}

impl View for ShellCommand {
    type V = Invocation;

    open spec fn view(&self) -> Invocation {
        Invocation { program: self.program@, args: self.args.deep_view() }
    }
}

/// What an optional command holds.
pub open spec fn invocation(command: Option<ShellCommand>) -> Option<Invocation> {
    match command {
        Some(c) => Some(c@),
        None => None,
    }
}

/// The command that shows a file in its directory: the file manager with the
/// file selected on Windows and macOS, the directory itself on Linux.
pub open spec fn reveal_invocation(platform: Platform, file_path: Seq<char>, directory: Seq<char>)
    -> Option<Invocation> {
    match platform {
        Platform::Windows => Some(
            Invocation { program: "explorer"@, args: seq!["/select,"@, file_path] },
        ),
        Platform::MacOs => Some(Invocation { program: "open"@, args: seq!["-R"@, file_path] }),
        Platform::Linux => Some(Invocation { program: "xdg-open"@, args: seq![directory] }),
        Platform::Other => None,
    }
}

/// The program that opens a directory or a link with the system's handler.
pub open spec fn opener(platform: Platform) -> Option<Seq<char>> {
    match platform {
        Platform::Windows => Some("explorer"@),
        Platform::MacOs => Some("open"@),
        Platform::Linux => Some("xdg-open"@),
        Platform::Other => None,
    }
}

/// The command that opens a directory in the file manager.
pub open spec fn open_directory_invocation(platform: Platform, directory: Seq<char>) -> Option<
    Invocation,
> {
    match opener(platform) {
        Some(program) => Some(Invocation { program, args: seq![directory] }),
        None => None,
    }
}

/// The command that opens a link with the system's handler.
pub open spec fn open_link_invocation(platform: Platform, url: Seq<char>) -> Option<Invocation> {
    match platform {
        Platform::Windows => Some(
            Invocation { program: "cmd"@, args: seq!["/C"@, "start"@, url] },
        ),
        Platform::MacOs => Some(Invocation { program: "open"@, args: seq![url] }),
        Platform::Linux => Some(Invocation { program: "xdg-open"@, args: seq![url] }),
        Platform::Other => None,
    }
}

/// The command that runs an installer unattended. Only Windows has one.
pub open spec fn installer_invocation(
    platform: Platform,
    installer: Seq<char>,
    install_params: Seq<char>,
) -> Option<Invocation> {
    match platform {
        Platform::Windows => Some(
            Invocation { program: "cmd"@, args: seq!["/C"@, installer, install_params] },
        ),
        _ => None,
    }
}

impl ShellCommand {
    /// A command with one argument.
    pub fn with_one(program: &str, first: &str) -> (command: ShellCommand)
        ensures
            command@ == (Invocation { program: program@, args: seq![first@] }),
    {
        let mut args: Vec<String> = Vec::new();
        args.push(String::from_str(first));
        let command = ShellCommand { program: String::from_str(program), args };
        assert(command@.args =~= seq![first@]);
        command
    }

    /// A command with two arguments.
    pub fn with_two(program: &str, first: &str, second: &str) -> (command: ShellCommand)
        ensures
            command@ == (Invocation { program: program@, args: seq![first@, second@] }),
    {
        let mut args: Vec<String> = Vec::new();
        args.push(String::from_str(first));
        args.push(String::from_str(second));
        let command = ShellCommand { program: String::from_str(program), args };
        assert(command@.args =~= seq![first@, second@]);
        command
    }

    /// A command with three arguments.
    pub fn with_three(program: &str, first: &str, second: &str, third: &str) -> (command:
        ShellCommand)
        ensures
            command@ == (Invocation { program: program@, args: seq![first@, second@, third@] }),
    {
        let mut args: Vec<String> = Vec::new();
        args.push(String::from_str(first));
        args.push(String::from_str(second));
        args.push(String::from_str(third));
        let command = ShellCommand { program: String::from_str(program), args };
        assert(command@.args =~= seq![first@, second@, third@]);
        command
    }
}

/// The command that shows `file_path` in `directory`, if the platform has one.
pub fn reveal_command(platform: Platform, file_path: &str, directory: &str) -> (command: Option<
    ShellCommand,
>)
    ensures
        invocation(command) == reveal_invocation(platform, file_path@, directory@),
{
    match platform {
        Platform::Windows => Some(ShellCommand::with_two("explorer", "/select,", file_path)),
        Platform::MacOs => Some(ShellCommand::with_two("open", "-R", file_path)),
        Platform::Linux => Some(ShellCommand::with_one("xdg-open", directory)),
        Platform::Other => None,
    }
}

/// The command that opens `directory`, if the platform has one.
pub fn open_directory_command(platform: Platform, directory: &str) -> (command: Option<
    ShellCommand,
>)
    ensures
        invocation(command) == open_directory_invocation(platform, directory@),
{
    match platform {
        Platform::Windows => Some(ShellCommand::with_one("explorer", directory)),
        Platform::MacOs => Some(ShellCommand::with_one("open", directory)),
        Platform::Linux => Some(ShellCommand::with_one("xdg-open", directory)),
        Platform::Other => None,
    }
}

/// The command that opens `url` with the handler of the system, if the
/// platform has one. Where it has none, nothing is to be done and the
/// request counts as served.
pub fn open_external_link(platform: Platform, url: &str) -> (command: Option<ShellCommand>)
    ensures
        invocation(command) == open_link_invocation(platform, url@),
{
    match platform {
        Platform::Windows => Some(ShellCommand::with_three("cmd", "/C", "start", url)),
        Platform::MacOs => Some(ShellCommand::with_one("open", url)),
        Platform::Linux => Some(ShellCommand::with_one("xdg-open", url)),
        Platform::Other => None,
    }
}

/// The command that runs `installer` unattended with `install_params`, if the
/// platform has one.
pub fn installer_command(platform: Platform, installer: &str, install_params: &str) -> (command:
    Option<ShellCommand>)
    ensures
        invocation(command) == installer_invocation(platform, installer@, install_params@),
{
    match platform {
        Platform::Windows => Some(
            ShellCommand::with_three("cmd", "/C", installer, install_params),
        ),
        _ => None,
    }
}

/// `std::path::Path::join` on text: `name` adjoined to `directory` by the
/// rules of the platform, which decide the separator and what an absolute
/// `name` does. Nothing is claimed of the result.
#[verifier::external_body]
pub(crate) fn join_path(directory: &str, name: &str) -> String {
    std::path::Path::new(directory).join(name).to_string_lossy().into_owned()
}

/// `std::path::Path::parent` on text: the path without its last component,
/// or `None` where the path ends in a root or is empty. Which text that is
/// depends on the platform, so nothing is claimed of the result.
#[verifier::external_body]
pub(crate) fn parent_directory(path: &str) -> Option<String> {
    match std::path::Path::new(path).parent() {
        Some(parent) => Some(parent.to_string_lossy().into_owned()),
        None => None,
    }
}

} // verus!
