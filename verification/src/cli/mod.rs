//! The command-line front end: shell, error chains and their display.

pub mod chain;
pub mod errors;
pub mod parser;
pub mod render;
pub mod shell;
pub mod text;

use vstd::prelude::*;

pub use chain::{ErrorChain, NodeKind, NodeView};
pub use errors::{
    _display_error, display_error, exit_with_error, indented_lines, internal,
    AlreadyPrintedError, CliError, CliResult, InternalError, IoFailure, ParseFailure,
    VerboseError,
};
pub use parser::{get_help_text, print_help};
pub use shell::{Shell, ShellView, Verbosity};

verus! {

/// The message that stands above a failure to find the working directory.
pub const NO_CURRENT_DIR: &'static str = "couldn't get the current directory of the process";

/// What a configuration is, as far as its callers can tell.
pub struct ConfigView {
    pub shell: ShellView,
    pub cwd: Seq<char>,
}

/// What every command works with: the shell, which it owns alone, and the
/// working directory.
#[derive(Debug)]
pub struct Config {
    shell: Shell,
    cwd: String,
}

impl View for Config {
    type V = ConfigView;

    closed spec fn view(&self) -> ConfigView {
        ConfigView { shell: self.shell@, cwd: self.cwd@ }
    }
}

impl Config {
    pub fn new(shell: Shell, cwd: String) -> (config: Config)
        ensures
            config@ == (ConfigView { shell: shell@, cwd: cwd@ }),
    {
        Config { shell, cwd }
    }

    /// The configuration of a process that starts: a fresh shell and the
    /// working directory, if the process could find it. A failure to find it
    /// comes back under the context that says so.
    pub fn with_current_dir(cwd: Result<String, IoFailure>) -> (res: Result<Config, ErrorChain>)
        ensures
            match cwd {
                Ok(dir) => res matches Ok(config) && config@ == (ConfigView {
                    shell: (ShellView {
                        verbosity: Verbosity::Normal,
                        color: false,
                        out: Seq::empty(),
                        err: Seq::empty(),
                    }),
                    cwd: dir@,
                }),
                Err(failure) => res matches Err(chain) && chain@ == seq![
                    NodeView { kind: NodeKind::Plain, message: NO_CURRENT_DIR@ },
                    NodeView { kind: NodeKind::Plain, message: failure.message@ },
                ],
            },
    {
        match cwd {
            Ok(dir) => Ok(Config::new(Shell::new(), dir)),
            Err(failure) => {
                let cause = ErrorChain::from_message(NodeKind::Plain, failure.message);
                Err(cause.context(NO_CURRENT_DIR))
            },
        }
    }

    /// The shell, to write through.
    pub fn shell(&mut self) -> (shell: &mut Shell)
        ensures
            shell@ == old(self)@.shell,
            final(self)@ == (ConfigView { shell: final(shell)@, ..old(self)@ }),
    {
        &mut self.shell
    }

    /// The current working directory.
    pub fn cwd(&self) -> (cwd: &str)
        ensures
            cwd@ == self@.cwd,
    {
        self.cwd.as_str()
    }
}

/// What the `new` command was asked for.
#[derive(Debug)]
pub struct NewOptions {
    /// Absolute path to the directory for the new package
    pub path: String,
    pub name: Option<String>,
}

impl NewOptions {
    pub fn new(path: String, name: Option<String>) -> (res: Result<NewOptions, ErrorChain>)
        ensures
            res matches Ok(opts) && opts.path == path && opts.name == name,
    {
        let opts = NewOptions { path, name };
        Ok(opts)
    }
}

} // verus!
