//! How a failure reaches the user: which part of an error chain is shown,
//! how it is laid out, and which status the process ends with.

use vstd::prelude::*;
use crate::cli::chain::{ErrorChain, NodeKind, NodeView};
use crate::cli::render::{
    chain_text, displayed, hides, lemma_nodes_text_push, lemma_visible_len_at, nodes_text,
    stopped_by_verbosity, BUG_REPORT_NOTE, CAUSED_BY, INTERNAL_ERROR_NOTE, PROGRAM, VERSION,
};
use crate::cli::shell::{Shell, ShellView, Verbosity};
use crate::cli::text::{
    after_first_line, chars_of, find_line_feed, first_line, indent_line, indented,
    lemma_indented_step, push_char, push_chars,
};

verus! {

/// Indents every line of `text` by two spaces and ends it with a line feed.
/// An empty line stays a bare line feed.
pub fn indented_lines(text: &str) -> (out: String)
    ensures
        out@ == indented(text@),
{
    let chars = chars_of(text);
    let n = chars.len();
    let mut out = String::new();
    let mut start: usize = 0;
    assert(chars@.skip(0) =~= chars@);
    while start < n
        invariant
            n == chars.len(),
            start <= n,
            indented(chars@) == out@ + indented(chars@.skip(start as int)),
        decreases n - start,
    {
        let ghost rest = chars@.skip(start as int);
        let ghost before = out@;
        let end = find_line_feed(&chars, start);
        let stop = if start < end && end < n && chars[end - 1] == '\r' {
            end - 1
        } else {
            end
        };
        proof {
            lemma_indented_step(rest);
            assert(first_line(rest) =~= chars@.subrange(start as int, stop as int));
        }
        if start < stop {
            push_char(&mut out, ' ');
            push_char(&mut out, ' ');
            push_chars(&mut out, &chars, start, stop);
        }
        push_char(&mut out, '\n');
        let next = if end < n { end + 1 } else { end };
        proof {
            assert(after_first_line(rest) =~= chars@.skip(next as int));
            assert(out@ =~= before + indent_line(first_line(rest)));
        }
        start = next;
    }
    out
}

/// Walks the chain from the root and writes what is shown of it to the
/// standard error stream of `shell`.
///
/// The walk ends in front of the first node that was already printed, and,
/// unless the shell is verbose, in front of the first verbose node. The root
/// is written as `error: {message}` when `as_err` is set and as the bare
/// message otherwise; every further node is written as a `Caused by:` block.
/// The result tells whether the walk ended at a verbose node.
pub fn _display_error(err: &ErrorChain, shell: &mut Shell, as_err: bool) -> (stopped: bool)
    ensures
        final(shell)@ == old(shell)@.write_err(
            chain_text(err@, old(shell)@.verbosity, as_err, old(shell)@.color),
        ),
        stopped == stopped_by_verbosity(err@, old(shell)@.verbosity),
{
    let ghost before = shell@;
    let ghost verbosity = shell@.verbosity;
    let ghost color = shell@.color;
    let verbose = match shell.verbosity() {
        Verbosity::Verbose => true,
        _ => false,
    };
    let mut cur: &ErrorChain = err;
    let mut first = true;
    let ghost mut i: int = 0;
    proof {
        err.lemma_nonempty();
        assert(err@.skip(0) =~= err@);
        assert(shell@ =~= before.write_err(nodes_text(err@.take(0), as_err, color)));
    }
    loop
        invariant
            0 <= i < err@.len(),
            cur@ == err@.skip(i),
            first == (i == 0),
            verbose == (verbosity == Verbosity::Verbose),
            forall|j: int| 0 <= j < i ==> !hides((#[trigger] err@[j]).kind, verbosity),
            shell@ == before.write_err(nodes_text(err@.take(i), as_err, color)),
            before == old(shell)@,
            before.verbosity == verbosity,
            before.color == color,
        decreases err@.len() - i,
    {
        assert(cur@[0] == err@[i]);
        let ghost shown = shell@;
        match cur.kind() {
            NodeKind::Verbose => {
                if !verbose {
                    proof {
                        lemma_visible_len_at(err@, verbosity, i);
                    }
                    return true;
                }
            },
            NodeKind::AlreadyPrinted => {
                proof {
                    lemma_visible_len_at(err@, verbosity, i);
                }
                return false;
            },
            _ => {},
        }
        if first {
            if as_err {
                shell.error(cur.message());
            } else {
                let w = shell.err();
                w.append(cur.message());
                push_char(w, '\n');
            }
        } else {
            let block = indented_lines(cur.message());
            let w = shell.err();
            w.append(CAUSED_BY);
            w.append(block.as_str());
        }
        first = false;
        proof {
            let nodes = err@.take(i + 1);
            assert(nodes =~= err@.take(i).push(err@[i]));
            if i > 0 {
                lemma_nodes_text_push(err@.take(i), err@[i], as_err, color);
            } else {
                assert(nodes.drop_first() =~= Seq::<NodeView>::empty());
            }
            assert(shell@ =~= before.write_err(nodes_text(nodes, as_err, color)));
        }
        match cur.source() {
            Some(cause) => {
                proof {
                    assert(err@.skip(i).drop_first() =~= err@.skip(i + 1));
                    i = i + 1;
                }
                cur = cause;
            },
            None => {
                proof {
                    assert(err@.take(i + 1) =~= err@);
                    lemma_visible_len_at(err@, verbosity, i + 1);
                }
                return false;
            },
        }
    }
}

/// Displays an error and all its causes on the standard error stream of
/// `shell`, and after them, if any node of the chain is an internal error,
/// the three notes that ask for a bug report.
pub fn display_error(err: &ErrorChain, shell: &mut Shell)
    ensures
        final(shell)@ == displayed(old(shell)@, err@),
{
    let ghost before = shell@;
    _display_error(err, shell, true);
    if err.is_internal() {
        shell.note(INTERNAL_ERROR_NOTE);
        shell.note(BUG_REPORT_NOTE);
        let mut version = String::from_str(PROGRAM);
        push_char(&mut version, ' ');
        version.append(VERSION);
        shell.note(version.as_str());
    }
    proof {
        assert(shell@ =~= displayed(before, err@));
    }
}

/// What a failed operation hands to the top of the program: the chain to
/// report, if there is anything to report, and the status to exit with.
///
/// Without a chain the failure is silent: its reason was already told by
/// other means, and only the exit status takes effect.
#[derive(Debug)]
pub struct CliError {
    pub error: Option<ErrorChain>,
    pub exit_code: i32,
}

impl CliError {
    /// A failure that is reported with `error` and ends the process with
    /// `code`.
    pub fn new(error: ErrorChain, code: i32) -> (err: CliError)
        ensures
            err.error == Some(error),
            err.exit_code == code,
    {
        CliError { error: Some(error), exit_code: code }
    }

    /// A silent failure: nothing is printed, the process ends with `code`.
    pub fn code(code: i32) -> (err: CliError)
        ensures
            err.error.is_none(),
            err.exit_code == code,
    {
        CliError { error: None, exit_code: code }
    }
}

/// The outcome of a command.
pub type CliResult = Result<(), CliError>;

/// Exit status of a failure of the application itself.
pub const EXIT_FAILURE: i32 = 101;

/// Exit status of a parse failure that is an error, and of a plain
/// input/output failure.
pub const EXIT_USAGE: i32 = 1;

/// Exit status of a parse outcome that is no error, such as a request for
/// the help text.
pub const EXIT_OK: i32 = 0;

impl From<ErrorChain> for CliError {
    /// A failure of the application: it is reported and ends the process
    /// with status 101.
    fn from(err: ErrorChain) -> (res: CliError) {
        CliError::new(err, EXIT_FAILURE)
    }
}

impl vstd::std_specs::convert::FromSpecImpl<ErrorChain> for CliError {
    open spec fn obeys_from_spec() -> bool {
        true
    }

    open spec fn from_spec(err: ErrorChain) -> CliError {
        CliError { error: Some(err), exit_code: EXIT_FAILURE }
    }
}

/// What the argument parser hands over when it does not return arguments:
/// its own formatted text, and whether that text is an error, which goes to
/// the standard error stream, or an answer such as the help text, which goes
/// to the standard output.
#[derive(Debug)]
pub struct ParseFailure {
    pub message_text: String,
    pub use_stderr: bool,
}

impl ParseFailure {
    /// The exit status that belongs to the failure: 1 for an error, 0 for an
    /// answer.
    pub open spec fn spec_exit_code(self) -> i32 {
        if self.use_stderr {
            EXIT_USAGE
        } else {
            EXIT_OK
        }
    }
}

impl From<ParseFailure> for CliError {
    /// The parser's text becomes a chain of one parse node; the exit status
    /// is 1 for an error and 0 for an answer.
    fn from(failure: ParseFailure) -> (res: CliError) {
        let code = if failure.use_stderr { EXIT_USAGE } else { EXIT_OK };
        let kind = NodeKind::Parse { use_stderr: failure.use_stderr };
        CliError::new(ErrorChain::from_message(kind, failure.message_text), code)
    }
}

impl vstd::std_specs::convert::FromSpecImpl<ParseFailure> for CliError {
    open spec fn obeys_from_spec() -> bool {
        true
    }

    open spec fn from_spec(failure: ParseFailure) -> CliError {
        CliError {
            error: Some(
                ErrorChain::leaf(
                    NodeKind::Parse { use_stderr: failure.use_stderr },
                    failure.message_text,
                ),
            ),
            exit_code: failure.spec_exit_code(),
        }
    }
}

/// A failure of plain input or output, by its message.
#[derive(Debug)]
pub struct IoFailure {
    pub message: String,
}

impl From<IoFailure> for CliError {
    /// The message becomes a plain chain of one node; the exit status is 1.
    fn from(failure: IoFailure) -> (res: CliError) {
        CliError::new(ErrorChain::from_message(NodeKind::Plain, failure.message), EXIT_USAGE)
    }
}

impl vstd::std_specs::convert::FromSpecImpl<IoFailure> for CliError {
    open spec fn obeys_from_spec() -> bool {
        true
    }

    open spec fn from_spec(failure: IoFailure) -> CliError {
        CliError {
            error: Some(ErrorChain::leaf(NodeKind::Plain, failure.message)),
            exit_code: EXIT_USAGE,
        }
    }
}

/// Marks a failure as one that the program did not anticipate: display adds
/// the notes that ask for a bug report.
#[derive(Debug)]
pub struct InternalError {
    inner: ErrorChain,
}

impl InternalError {
    pub fn new(inner: ErrorChain) -> (err: InternalError)
        ensures
            err.inner() == inner,
    {
        InternalError { inner }
    }

    /// The chain that was marked.
    pub closed spec fn inner(self) -> ErrorChain {
        self.inner
    }
}

impl From<InternalError> for ErrorChain {
    /// The marked chain: the root has become an internal node, its message
    /// and its causes are those of the chain that was marked.
    fn from(err: InternalError) -> (res: ErrorChain) {
        err.inner.with_kind(NodeKind::Internal)
    }
}

impl vstd::std_specs::convert::FromSpecImpl<InternalError> for ErrorChain {
    open spec fn obeys_from_spec() -> bool {
        true
    }

    open spec fn from_spec(err: InternalError) -> ErrorChain {
        err.inner().retagged(NodeKind::Internal)
    }
}

/// An internal error with the given message and no cause.
pub fn internal(error: &str) -> (chain: ErrorChain)
    ensures
        chain@ == seq![NodeView { kind: NodeKind::Internal, message: error@ }],
{
    let plain = ErrorChain::new(error);
    proof {
        plain.lemma_retagged_view(NodeKind::Internal);
    }
    ErrorChain::from(InternalError::new(plain))
}

/// Marks a failure as noise: it and its causes are shown only when the
/// output is verbose.
#[derive(Debug)]
pub struct VerboseError {
    inner: ErrorChain,
}

impl VerboseError {
    pub fn new(inner: ErrorChain) -> (err: VerboseError)
        ensures
            err.inner() == inner,
    {
        VerboseError { inner }
    }

    /// The chain that was marked.
    pub closed spec fn inner(self) -> ErrorChain {
        self.inner
    }
}

impl From<VerboseError> for ErrorChain {
    /// The marked chain: the root has become a verbose node, its message and
    /// its causes are those of the chain that was marked.
    fn from(err: VerboseError) -> (res: ErrorChain) {
        err.inner.with_kind(NodeKind::Verbose)
    }
}

impl vstd::std_specs::convert::FromSpecImpl<VerboseError> for ErrorChain {
    open spec fn obeys_from_spec() -> bool {
        true
    }

    open spec fn from_spec(err: VerboseError) -> ErrorChain {
        err.inner().retagged(NodeKind::Verbose)
    }
}

/// Marks a failure as one that was already shown: display stops in front of
/// it.
#[derive(Debug)]
pub struct AlreadyPrintedError {
    inner: ErrorChain,
}

impl AlreadyPrintedError {
    pub fn new(inner: ErrorChain) -> (err: AlreadyPrintedError)
        ensures
            err.inner() == inner,
    {
        AlreadyPrintedError { inner }
    }

    /// The chain that was marked.
    pub closed spec fn inner(self) -> ErrorChain {
        self.inner
    }
}

impl From<AlreadyPrintedError> for ErrorChain {
    /// The marked chain: the root has become an already-printed node, its
    /// message and its causes are those of the chain that was marked.
    fn from(err: AlreadyPrintedError) -> (res: ErrorChain) {
        err.inner.with_kind(NodeKind::AlreadyPrinted)
    }
}

impl vstd::std_specs::convert::FromSpecImpl<AlreadyPrintedError> for ErrorChain {
    open spec fn obeys_from_spec() -> bool {
        true
    }

    open spec fn from_spec(err: AlreadyPrintedError) -> ErrorChain {
        err.inner().retagged(NodeKind::AlreadyPrinted)
    }
}

/// The shell after a failure was reported.
///
/// A parse failure at the root brings its own text, which goes as it is to
/// the stream that the failure names. Any other chain is displayed as a
/// top-level error. A silent failure leaves the shell as it was.
pub open spec fn reported(shell: ShellView, error: Option<Seq<NodeView>>) -> ShellView {
    match error {
        Some(chain) => match chain[0].kind {
            NodeKind::Parse { use_stderr } => if use_stderr {
                shell.write_err(chain[0].message)
            } else {
                shell.write_out(chain[0].message)
            },
            _ => displayed(shell, chain),
        },
        None => shell,
    }
}

/// The status that the process ends with after a failure: 1 or 0 for a parse
/// failure at the root, by the stream that it names, and the stored status in
/// every other case.
pub open spec fn exit_status(error: Option<Seq<NodeView>>, exit_code: i32) -> i32 {
    match error {
        Some(chain) => match chain[0].kind {
            NodeKind::Parse { use_stderr } => if use_stderr {
                EXIT_USAGE
            } else {
                EXIT_OK
            },
            _ => exit_code,
        },
        None => exit_code,
    }
}

/// The chain of a failure as display sees it, if it has one.
pub open spec fn error_view(error: Option<ErrorChain>) -> Option<Seq<NodeView>> {
    match error {
        Some(chain) => Some(chain@),
        None => None,
    }
}

/// Reports the failure through `shell` and returns the status with which
/// the process has to end. The caller drains the shell and ends the process;
/// the failure is used up, so it is reported once.
pub fn exit_with_error(err: CliError, shell: &mut Shell) -> (code: i32)
    ensures
        final(shell)@ == reported(old(shell)@, error_view(err.error)),
        code == exit_status(error_view(err.error), err.exit_code),
{
    let CliError { error, exit_code } = err;
    match error {
        Some(chain) => {
            match chain.kind() {
                NodeKind::Parse { use_stderr } => {
                    if use_stderr {
                        shell.err().append(chain.message());
                        EXIT_USAGE
                    } else {
                        shell.out().append(chain.message());
                        EXIT_OK
                    }
                },
                _ => {
                    display_error(&chain, shell);
                    exit_code
                },
            }
        },
        None => exit_code,
    }
}

} // verus!
