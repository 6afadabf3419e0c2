//! The `new` command: what a fresh project consists of, and how the command
//! ends.

use vstd::prelude::*;
use crate::cli::chain::ErrorChain;
use crate::cli::errors::{CliError, CliResult, EXIT_FAILURE};
use crate::cli::shell::ShellView;
use crate::cli::text::push_char;
use crate::cli::{Config, ConfigView, NewOptions};
use crate::util::paths::{get_template_file, template_text, MAIN_RS_STUB_NAME};

verus! {

/// The directory of a project's sources, below its root.
pub const SOURCE_DIR: &'static str = "src";

/// The name of the project's manifest.
pub const MANIFEST_NAME: &'static str = "Cargo.toml";

/// The name of the project's page.
pub const PAGE_NAME: &'static str = "chat.html";

/// The name of the template of the project's page.
pub const PAGE_STUB_NAME: &'static str = "chat.html.stub";

/// The name of the project's main source file.
pub const MAIN_RS_NAME: &'static str = "main.rs";

/// The manifest up to the name of the package.
pub const MANIFEST_HEAD: &'static str = "[package]
name = \"";

/// The manifest behind the name of the package, up to the dependencies.
pub const MANIFEST_BODY: &'static str = "\"
version = \"0.1.0\"
edition = \"2021\"
publish = false

[dependencies]
";

/// The dependencies of a fresh project.
pub const DEPENDENCIES: &'static str = "axum = { version = \"0.5.8\", features = [\"ws\"] }
futures = \"0.3\"
tokio = { version = \"1\", features = [\"full\"] }
tower = { version = \"0.4\", features = [\"util\"] }
tracing = \"0.1\"
tracing-subscriber = { version = \"0.3\", features = [\"env-filter\"] }";

/// The label of the status line of a project that was made.
pub const CREATED: &'static str = "Created";

/// What stands between the name of the project and its path in that line.
pub const CREATED_AT: &'static str = "` at: ";

/// A directory of the project.
#[derive(Clone, Copy, Debug, PartialEq, Eq, Structural)]
pub enum Place {
    /// The root of the project.
    Root,
    /// The directory `src` below the root.
    Source,
}

/// One step of making a project. The steps are carried out in their order,
/// and the first that fails ends the command.
#[derive(Debug)]
pub enum FsAction {
    /// Create the directory, with its parents.
    CreateDir { place: Place },
    /// Write the file `name` in the directory.
    WriteFile { place: Place, name: String, contents: String },
}

impl FsAction {
    /// Whether this step writes the file `name` with `contents` at `place`.
    pub open spec fn writes(self, at: Place, file: Seq<char>, text: Seq<char>) -> bool {
        self matches FsAction::WriteFile { place, name, contents } && place == at && name@ == file
            && contents@ == text
    }
}

/// The manifest of a project with the given name.
pub open spec fn manifest_text(project_name: Seq<char>) -> Seq<char> {
    MANIFEST_HEAD@ + project_name + MANIFEST_BODY@ + DEPENDENCIES@
}

/// Builds the manifest of a project with the given name.
pub fn manifest(project_name: &str) -> (text: String)
    ensures
        text@ == manifest_text(project_name@),
{
    let mut deps = String::new();
    deps.append(DEPENDENCIES);
    let mut text = String::from_str(MANIFEST_HEAD);
    text.append(project_name);
    text.append(MANIFEST_BODY);
    text.append(deps.as_str());
    text
}

/// The name of the project: the name that was asked for, or else the path as
/// it was given.
pub fn project_name<'a>(opts: &'a NewOptions, path: &'a str) -> (name: &'a str)
    ensures
        name@ == match opts.name {
            Some(given) => given@,
            None => path@,
        },
{
    match &opts.name {
        Some(given) => given.as_str(),
        None => path,
    }
}

/// The steps that make a project with the given name: the root and the
/// source directory, then the manifest, the page and the main source file.
pub fn make_project(project_name: &str) -> (plan: Vec<FsAction>)
    ensures
        plan@.len() == 5,
        plan@[0] == (FsAction::CreateDir { place: Place::Root }),
        plan@[1] == (FsAction::CreateDir { place: Place::Source }),
        plan@[2].writes(Place::Root, MANIFEST_NAME@, manifest_text(project_name@)),
        plan@[3].writes(Place::Root, PAGE_NAME@, template_text(PAGE_STUB_NAME@)),
        plan@[4].writes(Place::Source, MAIN_RS_NAME@, template_text(MAIN_RS_STUB_NAME@)),
{
    let mut plan: Vec<FsAction> = Vec::new();
    plan.push(FsAction::CreateDir { place: Place::Root });
    plan.push(FsAction::CreateDir { place: Place::Source });
    plan.push(
        FsAction::WriteFile {
            place: Place::Root,
            name: String::from_str(MANIFEST_NAME),
            contents: manifest(project_name),
        },
    );
    plan.push(
        FsAction::WriteFile {
            place: Place::Root,
            name: String::from_str(PAGE_NAME),
            contents: get_template_file(PAGE_STUB_NAME),
        },
    );
    plan.push(
        FsAction::WriteFile {
            place: Place::Source,
            name: String::from_str(MAIN_RS_NAME),
            contents: get_template_file(MAIN_RS_STUB_NAME),
        },
    );
    plan
}

/// The message of the status line of a project that was made.
pub open spec fn created_message(project_name: Seq<char>, path: Seq<char>) -> Seq<char> {
    seq!['`'] + project_name + CREATED_AT@ + path
}

/// The shell after the status line of a project that was made.
pub open spec fn announced(shell: ShellView, project_name: Seq<char>, path: Seq<char>) -> ShellView {
    shell.status(CREATED@, created_message(project_name, path))
}

/// Ends the `new` command once the steps of `make_project` were carried out,
/// with `made` as their outcome. A project that was made is announced on the
/// shell; a failure is handed on as a failure of the application, and nothing
/// is written.
pub fn exec(config: &mut Config, opts: &NewOptions, path: &str, made: Result<(), ErrorChain>) -> (res:
    CliResult)
    ensures
        match made {
            Ok(_) => res is Ok && final(config)@ == (ConfigView {
                shell: announced(
                    old(config)@.shell,
                    match opts.name {
                        Some(given) => given@,
                        None => path@,
                    },
                    opts.path@,
                ),
                ..old(config)@
            }),
            Err(chain) => res matches Err(err) && err.error == Some(chain) && err.exit_code
                == EXIT_FAILURE && final(config)@ == old(config)@,
        },
{
    match made {
        Ok(_) => {
            let name = project_name(opts, path);
            let mut message = String::new();
            push_char(&mut message, '`');
            message.append(name);
            message.append(CREATED_AT);
            message.append(opts.path.as_str());
            config.shell().status(CREATED, message.as_str());
            Ok(())
        },
        Err(chain) => Err(CliError::from(chain)),
    }
}

} // verus!
