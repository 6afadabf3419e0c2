use kakasi::cli::chain::{ErrorChain, NodeKind};
use kakasi::cli::errors::{exit_with_error, CliError, IoFailure};
use kakasi::cli::parser::{fill_help_text, get_help_text, print_help};
use kakasi::cli::shell::{Shell, Verbosity};
use kakasi::cli::{Config, NewOptions};
use kakasi::commands::new::{exec, make_project, manifest, project_name, FsAction, Place};
use kakasi::util::paths;
use kakasi::util::paths::{create_dir_all, get_template_file};

const HELP_TEMPLATE: &str = "\
Kakasi fullstack web framework v0.1
USAGE:
    {usage}
OPTIONS:
{options}
Some common kakasi commands are (see all commands with --list):
    new           Create a new project
    controller    Create a new controller in an existing directory
    model         Create a model layer to your database
    serve         Run local development server
See 'kakasi help <command>' for more information on a specific command.\n";

fn nodes(chain: &ErrorChain) -> Vec<(NodeKind, String)> {
    let mut out = Vec::new();
    let mut cur = Some(chain);
    while let Some(node) = cur {
        out.push((node.kind(), node.message().to_string()));
        cur = node.source();
    }
    out
}

#[test]
fn help_template_has_its_slots() {
    assert_eq!(get_help_text(), HELP_TEMPLATE);
}

#[test]
fn print_help_fills_the_slots() {
    let mut shell = Shell::new();
    print_help(&mut shell);
    let expected = HELP_TEMPLATE
        .replace("{usage}", "kakasi [OPTIONS] [SUBCOMMAND]")
        .replace("{options}", "\t--help");
    assert_eq!(shell.out_text(), format!("{}\n", expected));
    assert_eq!(shell.err_text(), "");
}

#[test]
fn print_help_is_not_suppressed_when_quiet() {
    let mut shell = Shell::new();
    shell.set_verbosity(Verbosity::Quiet);
    print_help(&mut shell);
    assert!(shell.out_text().starts_with("Kakasi fullstack web framework v0.1\nUSAGE:\n    kakasi "));
}

#[test]
fn fill_help_text_puts_usage_and_options_in_place() {
    let text = fill_help_text("U", "O");
    assert!(text.starts_with("Kakasi fullstack web framework v0.1\nUSAGE:\n    U\nOPTIONS:\nO\nSome common"));
    assert!(text.ends_with("on a specific command.\n"));
}

#[test]
fn config_holds_shell_and_working_directory() {
    let mut shell = Shell::new();
    shell.set_verbosity(Verbosity::Verbose);
    let mut config = Config::new(shell, "/work".to_string());
    assert_eq!(config.cwd(), "/work");
    assert_eq!(config.shell().verbosity(), Verbosity::Verbose);
    config.shell().error("x");
    assert_eq!(config.shell().err_text(), "error: x\n");
    assert_eq!(config.cwd(), "/work");
}

#[test]
fn config_of_a_starting_process() {
    let mut config = match Config::with_current_dir(Ok("/here".to_string())) {
        Ok(config) => config,
        Err(_) => panic!("a working directory was given"),
    };
    assert_eq!(config.cwd(), "/here");
    assert_eq!(config.shell().verbosity(), Verbosity::Normal);
    assert_eq!(config.shell().err_text(), "");
}

#[test]
fn missing_working_directory_is_reported_with_context() {
    let failure = IoFailure { message: "No such file or directory (os error 2)".to_string() };
    let chain = match Config::with_current_dir(Err(failure)) {
        Ok(_) => panic!("no working directory was given"),
        Err(chain) => chain,
    };
    assert_eq!(
        nodes(&chain),
        vec![
            (NodeKind::Plain, "couldn't get the current directory of the process".to_string()),
            (NodeKind::Plain, "No such file or directory (os error 2)".to_string()),
        ]
    );
    let mut shell = Shell::new();
    let code: i32 = exit_with_error(CliError::from(chain), &mut shell);
    assert_eq!(code, 101);
    assert_eq!(
        shell.err_text(),
        "error: couldn't get the current directory of the process\n\nCaused by:\n  No such file or directory (os error 2)\n"
    );
}

#[test]
fn new_options_keep_what_they_are_given() {
    let opts = NewOptions::new("/work/demo".to_string(), Some("shop".to_string())).unwrap();
    assert_eq!(opts.path, "/work/demo");
    assert_eq!(opts.name.as_deref(), Some("shop"));
    let opts = NewOptions::new("/work/demo".to_string(), None).unwrap();
    assert_eq!(opts.name, None);
}

#[test]
fn only_the_main_template_has_text() {
    let main = get_template_file("main.rs.stub");
    assert!(main.contains("async fn main()"));
    assert!(main.contains("axum"));
    assert_eq!(get_template_file("chat.html.stub"), "");
    assert_eq!(get_template_file(""), "");
    assert_eq!(get_template_file("main.rs"), "");
    assert_eq!(get_template_file("MAIN.RS.STUB"), "");
}

#[test]
fn successful_io_stays_successful() {
    assert!(paths::write("/x/Cargo.toml", Ok(())).is_ok());
    assert!(create_dir_all("/x/src", Ok(())).is_ok());
}

#[test]
fn failed_write_names_the_file() {
    let failure = IoFailure { message: "permission denied".to_string() };
    let chain = paths::write("/x/Cargo.toml", Err(failure)).unwrap_err();
    assert_eq!(
        nodes(&chain),
        vec![
            (NodeKind::Plain, "failed to write `/x/Cargo.toml`".to_string()),
            (NodeKind::Plain, "permission denied".to_string()),
        ]
    );
}

#[test]
fn failed_directory_names_the_directory() {
    let failure = IoFailure { message: "read-only file system".to_string() };
    let chain = create_dir_all("/x/src", Err(failure)).unwrap_err();
    assert_eq!(
        nodes(&chain),
        vec![
            (NodeKind::Plain, "failed to create directory `/x/src`".to_string()),
            (NodeKind::Plain, "read-only file system".to_string()),
        ]
    );
}

#[test]
fn manifest_names_the_package() {
    let expected = r#"[package]
name = "demo"
version = "0.1.0"
edition = "2021"
publish = false

[dependencies]
axum = { version = "0.5.8", features = ["ws"] }
futures = "0.3"
tokio = { version = "1", features = ["full"] }
tower = { version = "0.4", features = ["util"] }
tracing = "0.1"
tracing-subscriber = { version = "0.3", features = ["env-filter"] }"#;
    assert_eq!(manifest("demo"), expected);
}

#[test]
fn project_name_defaults_to_the_path_as_given() {
    let named = NewOptions::new("/work/demo".to_string(), Some("shop".to_string())).unwrap();
    assert_eq!(project_name(&named, "demo"), "shop");
    let unnamed = NewOptions::new("/work/demo".to_string(), None).unwrap();
    assert_eq!(project_name(&unnamed, "demo"), "demo");
}

#[test]
fn project_is_made_in_five_steps() {
    let plan = make_project("demo");
    assert_eq!(plan.len(), 5);
    assert!(matches!(plan[0], FsAction::CreateDir { place: Place::Root }));
    assert!(matches!(plan[1], FsAction::CreateDir { place: Place::Source }));
    match &plan[2] {
        FsAction::WriteFile { place, name, contents } => {
            assert_eq!(*place, Place::Root);
            assert_eq!(name, "Cargo.toml");
            assert_eq!(*contents, manifest("demo"));
        }
        _ => panic!("the third step writes the manifest"),
    }
    match &plan[3] {
        FsAction::WriteFile { place, name, contents } => {
            assert_eq!(*place, Place::Root);
            assert_eq!(name, "chat.html");
            assert_eq!(contents, "");
        }
        _ => panic!("the fourth step writes the page"),
    }
    match &plan[4] {
        FsAction::WriteFile { place, name, contents } => {
            assert_eq!(*place, Place::Source);
            assert_eq!(name, "main.rs");
            assert_eq!(*contents, get_template_file("main.rs.stub"));
        }
        _ => panic!("the fifth step writes the main source file"),
    }
}

#[test]
fn made_project_is_announced() {
    let mut config = Config::new(Shell::new(), "/work".to_string());
    let opts = NewOptions::new("/work/demo".to_string(), None).unwrap();
    assert!(exec(&mut config, &opts, "demo", Ok(())).is_ok());
    assert_eq!(config.shell().out_text(), "Created `demo` at: /work/demo\n");
    assert_eq!(config.shell().err_text(), "");
}

#[test]
fn made_project_is_announced_under_its_given_name() {
    let mut config = Config::new(Shell::new(), "/work".to_string());
    let opts = NewOptions::new("/work/demo".to_string(), Some("shop".to_string())).unwrap();
    assert!(exec(&mut config, &opts, "demo", Ok(())).is_ok());
    assert_eq!(config.shell().out_text(), "Created `shop` at: /work/demo\n");
}

#[test]
fn quiet_shell_does_not_announce() {
    let mut shell = Shell::new();
    shell.set_verbosity(Verbosity::Quiet);
    let mut config = Config::new(shell, "/work".to_string());
    let opts = NewOptions::new("/work/demo".to_string(), None).unwrap();
    assert!(exec(&mut config, &opts, "demo", Ok(())).is_ok());
    assert_eq!(config.shell().out_text(), "");
}

#[test]
fn failed_project_is_handed_on_as_application_failure() {
    let mut config = Config::new(Shell::new(), "/work".to_string());
    let opts = NewOptions::new("/x".to_string(), None).unwrap();
    let failure = IoFailure { message: "permission denied".to_string() };
    let made = paths::write("/x/Cargo.toml", Err(failure));
    let err = exec(&mut config, &opts, "x", made).unwrap_err();
    assert_eq!(err.exit_code, 101);
    assert_eq!(config.shell().out_text(), "");
    assert_eq!(config.shell().err_text(), "");
    let code: i32 = exit_with_error(err, config.shell());
    assert_eq!(code, 101);
    assert_eq!(
        config.shell().err_text(),
        "error: failed to write `/x/Cargo.toml`\n\nCaused by:\n  permission denied\n"
    );
}
