//! The help text of the program.

use vstd::prelude::*;
use crate::cli::shell::Shell;
use crate::cli::text::push_char;

verus! {

/// The usage line of the program.
pub const USAGE: &'static str = "kakasi [OPTIONS] [SUBCOMMAND]";

/// The options that the help text of the program lists.
pub const OPTIONS: &'static str = "\t--help";

/// The place in the help template that the usage line takes.
pub const USAGE_SLOT: &'static str = "{usage}";

/// The place in the help template that the list of options takes.
pub const OPTIONS_SLOT: &'static str = "{options}";

/// The help text up to the usage line.
pub const HELP_HEAD: &'static str = "\
Kakasi fullstack web framework v0.1
USAGE:
    ";

/// The help text between the usage line and the options.
pub const HELP_OPTIONS_HEAD: &'static str = "
OPTIONS:
";

/// The help text behind the options.
pub const HELP_COMMANDS: &'static str = "
Some common kakasi commands are (see all commands with --list):
    new           Create a new project
    controller    Create a new controller in an existing directory
    model         Create a model layer to your database
    serve         Run local development server
See 'kakasi help <command>' for more information on a specific command.\n";

/// The help text around the given usage line and list of options.
pub open spec fn help_text(usage: Seq<char>, options: Seq<char>) -> Seq<char> {
    HELP_HEAD@ + usage + HELP_OPTIONS_HEAD@ + options + HELP_COMMANDS@
}

/// Builds the help text around the given usage line and list of options.
pub fn fill_help_text(usage: &str, options: &str) -> (text: String)
    ensures
        text@ == help_text(usage@, options@),
{
    let mut text = String::from_str(HELP_HEAD);
    text.append(usage);
    text.append(HELP_OPTIONS_HEAD);
    text.append(options);
    text.append(HELP_COMMANDS);
    text
}

/// The help template: the help text with a slot each for the usage line and
/// the list of options, as the argument parser fills them.
pub fn get_help_text() -> (template: String)
    ensures
        template@ == help_text(USAGE_SLOT@, OPTIONS_SLOT@),
{
    fill_help_text(USAGE_SLOT, OPTIONS_SLOT)
}

/// Writes the help text of the program, with its usage line and its options,
/// and a line feed behind it to the standard output.
pub fn print_help(shell: &mut Shell)
    ensures
        final(shell)@ == old(shell)@.write_out(help_text(USAGE@, OPTIONS@) + seq!['\n']),
{
    let text = fill_help_text(USAGE, OPTIONS);
    let out = shell.out();
    out.append(text.as_str());
    push_char(out, '\n');
}

} // verus!
