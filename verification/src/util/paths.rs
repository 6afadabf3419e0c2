//! Templates of the files of a new project, and the context that a failed
//! write or a failed creation of a directory is reported under.

use vstd::prelude::*;
use crate::cli::chain::{ErrorChain, NodeKind, NodeView};
use crate::cli::errors::IoFailure;
use crate::cli::text::{push_char, same_text};

verus! {

/// The name of the template of `src/main.rs`.
pub const MAIN_RS_STUB_NAME: &'static str = "main.rs.stub";

/// The template of `src/main.rs`.
pub const MAIN_RS_STUB: &'static str = "\
use axum::{routing::get, Router};
use std::net::SocketAddr;

#[tokio::main]
async fn main() {
    tracing_subscriber::fmt::init();

    let app = Router::new().route(\"/\", get(index));

    let addr = SocketAddr::from(([127, 0, 0, 1], 3000));
    tracing::debug!(\"listening on {}\", addr);
    axum::Server::bind(&addr)
        .serve(app.into_make_service())
        .await
        .unwrap();
}

async fn index() -> &'static str {
    \"Hello, World!\"
}
";

/// The text of the template with the given name: the template of
/// `src/main.rs` under its name, the empty text under every other name.
pub open spec fn template_text(name: Seq<char>) -> Seq<char> {
    if name == MAIN_RS_STUB_NAME@ {
        MAIN_RS_STUB@
    } else {
        Seq::empty()
    }
}

pub fn get_template_file(name: &str) -> (text: String)
    ensures
        text@ == template_text(name@),
{
    if same_text(name, MAIN_RS_STUB_NAME) {
        String::from_str(MAIN_RS_STUB)
    } else {
        String::new()
    }
}

/// What stands in front of the path in the context of a failed write.
pub const WRITE_FAILED: &'static str = "failed to write `";

/// What stands in front of the path in the context of a failed creation of a
/// directory.
pub const CREATE_DIR_FAILED: &'static str = "failed to create directory `";

/// `{prefix}{path}` and a closing backquote.
pub open spec fn quoted_path(prefix: Seq<char>, path: Seq<char>) -> Seq<char> {
    prefix + path + seq!['`']
}

/// The chain of a failed operation on `path`: the context that names the
/// path, and below it the failure itself.
pub open spec fn failure_chain(prefix: Seq<char>, path: Seq<char>, failure: IoFailure) -> Seq<
    NodeView,
> {
    seq![
        NodeView { kind: NodeKind::Plain, message: quoted_path(prefix, path) },
        NodeView { kind: NodeKind::Plain, message: failure.message@ },
    ]
}

/// Puts a failure under the context `{prefix}{path}` and a closing
/// backquote; success stays success.
fn with_path_context(prefix: &str, path: &str, outcome: Result<(), IoFailure>) -> (res: Result<
    (),
    ErrorChain,
>)
    ensures
        match outcome {
            Ok(_) => res is Ok,
            Err(failure) => res matches Err(chain) && chain@ == failure_chain(
                prefix@,
                path@,
                failure,
            ),
        },
{
    match outcome {
        Ok(_) => Ok(()),
        Err(failure) => {
            let mut context = String::from_str(prefix);
            context.append(path);
            push_char(&mut context, '`');
            assert(context@ =~= quoted_path(prefix@, path@));
            let cause = ErrorChain::from_message(NodeKind::Plain, failure.message);
            Err(cause.context(context.as_str()))
        },
    }
}

/// Gives the outcome of writing the file at `path` a better error message:
/// a failure comes back under the context ``failed to write `{path}` ``.
pub fn write(path: &str, outcome: Result<(), IoFailure>) -> (res: Result<(), ErrorChain>)
    ensures
        match outcome {
            Ok(_) => res is Ok,
            Err(failure) => res matches Err(chain) && chain@ == failure_chain(
                WRITE_FAILED@,
                path@,
                failure,
            ),
        },
{
    with_path_context(WRITE_FAILED, path, outcome)
}

/// Gives the outcome of creating the directory `path` and its parents a
/// better error message: a failure comes back under the context
/// ``failed to create directory `{path}` ``.
pub fn create_dir_all(path: &str, outcome: Result<(), IoFailure>) -> (res: Result<
    (),
    ErrorChain,
>)
    ensures
        match outcome {
            Ok(_) => res is Ok,
            Err(failure) => res matches Err(chain) && chain@ == failure_chain(
                CREATE_DIR_FAILED@,
                path@,
                failure,
            ),
        },
{
    with_path_context(CREATE_DIR_FAILED, path, outcome)
}

} // verus!
