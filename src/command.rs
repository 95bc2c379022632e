use vstd::prelude::*;
use vstd::string::StringExecFns;

use crate::builder::Builder;
use crate::words::{split_white_space, white_space_words};

verus! {

/// The family of the host that a command is described for.
#[derive(Clone, Copy, Debug, PartialEq, Eq, Structural)]
pub enum Platform {
    /// Runs commands through `cmd /C`.
    Windows,
    /// Runs commands through `sh -c`.
    Posix,
}

/// A process to start: a program, its arguments and the directory it runs in.
#[derive(Clone, Debug, PartialEq)]
pub struct ProcessDescriptor {
    pub program: String,
    pub args: Vec<String>,
    pub cwd: String,
}

/// The shell that runs commands on `platform`.
pub open spec fn shell_program(platform: Platform) -> Seq<char> {
    match platform {
        Platform::Windows => "cmd"@,
        Platform::Posix => "sh"@,
    }
}

/// The arguments that make the shell of `platform` run the command line
/// `cmd`: on Windows its white-space separated words after `/C`, elsewhere
/// the line as written after `-c`.
pub open spec fn shell_args(platform: Platform, cmd: Seq<char>) -> Seq<Seq<char>> {
    match platform {
        Platform::Windows => seq!["/C"@] + white_space_words(cmd),
        Platform::Posix => seq!["-c"@, cmd],
    }
}

impl Builder {
    /// The process that runs the custom build command in the working
    /// directory, with the command line itself; `None` where no command is
    /// configured.
    pub fn build_command(&self, platform: Platform) -> (r: Option<(&str, ProcessDescriptor)>)
        ensures
            self.command is None <==> r is None,
            self.command matches Some(cmd) ==> r matches Some((text, p)) && {
                &&& text@ == cmd@
                &&& p.program@ == shell_program(platform)
                &&& p.args.deep_view() == shell_args(platform, cmd@)
                &&& p.cwd@ == self.cwd@
            },
    {
        match &self.command {
            Some(cmd) => {
                let (program, args) = match platform {
                    Platform::Windows => {
                        let mut args: Vec<String> = Vec::new();
                        args.push(String::from_str("/C"));
                        let mut words = split_white_space(cmd.as_str());
                        args.append(&mut words);
                        (String::from_str("cmd"), args)
                    },
                    Platform::Posix => {
                        let mut args: Vec<String> = Vec::new();
                        args.push(String::from_str("-c"));
                        args.push(cmd.clone());
                        (String::from_str("sh"), args)
                    },
                };
                let p = ProcessDescriptor { program, args, cwd: self.cwd.clone() };
                proof {
                    assert(p.args.deep_view() =~= shell_args(platform, cmd@));
                }
                Some((cmd.as_str(), p))
            },
            None => None,
        }
    }
}

} // verus!
