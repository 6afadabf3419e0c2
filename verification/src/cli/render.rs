//! What displaying an error chain writes, as a function of the chain, the
//! verbosity and the color policy, and what follows from that definition.

use vstd::prelude::*;
use crate::cli::chain::{has_internal, NodeKind, NodeView};
use crate::cli::shell::{error_line, note_line, ShellView, Verbosity};
use crate::cli::text::indented;

verus! {

/// The header that stands between an error and its cause.
pub const CAUSED_BY: &'static str = "\nCaused by:\n";

/// First note behind an internal error.
pub const INTERNAL_ERROR_NOTE: &'static str = "this is an unexpected cargo internal error";

/// Second note behind an internal error: where to report it.
pub const BUG_REPORT_NOTE: &'static str =
    "we would appreciate a bug report: https://github.com/ahmadrosid/kakasi/issues/";

/// The name under which the program reports its version.
pub const PROGRAM: &'static str = "kakasi";

/// The version of the program.
pub const VERSION: &'static str = "v0.1";

/// Third note behind an internal error: program and version.
pub open spec fn version_note() -> Seq<char> {
    PROGRAM@ + seq![' '] + VERSION@
}

/// Whether display stops in front of a node of this kind: always at one that
/// was already printed, and at a verbose one unless the output is verbose.
pub open spec fn hides(kind: NodeKind, verbosity: Verbosity) -> bool {
    kind == NodeKind::AlreadyPrinted || (kind == NodeKind::Verbose && verbosity
        != Verbosity::Verbose)
}

/// How many nodes display shows: those in front of the first node at which
/// it stops, or all of them.
pub open spec fn visible_len(chain: Seq<NodeView>, verbosity: Verbosity) -> nat
    decreases chain.len(),
{
    if chain.len() == 0 || hides(chain[0].kind, verbosity) {
        0
    } else {
        1 + visible_len(chain.drop_first(), verbosity)
    }
}

/// The nodes that display shows, from the root on.
pub open spec fn visible(chain: Seq<NodeView>, verbosity: Verbosity) -> Seq<NodeView> {
    chain.take(visible_len(chain, verbosity) as int)
}

/// Whether display stops early at a verbose node that the verbosity hides.
pub open spec fn stopped_by_verbosity(chain: Seq<NodeView>, verbosity: Verbosity) -> bool {
    let n = visible_len(chain, verbosity) as int;
    n < chain.len() && chain[n].kind == NodeKind::Verbose
}

/// The line of the root: `error: {message}` for a top-level error, the bare
/// message otherwise.
pub open spec fn headline(message: Seq<char>, as_err: bool, color: bool) -> Seq<char> {
    if as_err {
        error_line(message, color)
    } else {
        message + seq!['\n']
    }
}

/// The block of one cause: an empty line, `Caused by:`, and the message with
/// every line indented.
pub open spec fn cause_block(message: Seq<char>) -> Seq<char> {
    CAUSED_BY@ + indented(message)
}

/// One block for each of the given nodes, in their order.
pub open spec fn causes_text(nodes: Seq<NodeView>) -> Seq<char>
    decreases nodes.len(),
{
    if nodes.len() == 0 {
        Seq::empty()
    } else {
        cause_block(nodes[0].message) + causes_text(nodes.drop_first())
    }
}

/// The text of the given nodes when all of them are shown: the headline of
/// the first, then the blocks of the others.
pub open spec fn nodes_text(nodes: Seq<NodeView>, as_err: bool, color: bool) -> Seq<char> {
    if nodes.len() == 0 {
        Seq::empty()
    } else {
        headline(nodes[0].message, as_err, color) + causes_text(nodes.drop_first())
    }
}

/// What the walk over a chain writes: the text of the nodes that are shown.
pub open spec fn chain_text(
    chain: Seq<NodeView>,
    verbosity: Verbosity,
    as_err: bool,
    color: bool,
) -> Seq<char> {
    nodes_text(visible(chain, verbosity), as_err, color)
}

/// The three notes behind an internal error, as a shell that is not quiet
/// writes them.
pub open spec fn internal_notes(color: bool) -> Seq<char> {
    note_line(INTERNAL_ERROR_NOTE@, color) + note_line(BUG_REPORT_NOTE@, color) + note_line(
        version_note(),
        color,
    )
}

/// The notes that follow a chain: the three notes if some node of the chain
/// is an internal error, whether it is shown or not. They are notes of the
/// shell, so a quiet shell drops them.
pub open spec fn notes_text(chain: Seq<NodeView>, verbosity: Verbosity, color: bool) -> Seq<char> {
    if has_internal(chain) && verbosity != Verbosity::Quiet {
        internal_notes(color)
    } else {
        Seq::empty()
    }
}

/// Everything that displaying a chain as a top-level error writes.
pub open spec fn display_text(chain: Seq<NodeView>, verbosity: Verbosity, color: bool) -> Seq<
    char,
> {
    chain_text(chain, verbosity, true, color) + notes_text(chain, verbosity, color)
}

/// The shell after a chain was displayed as a top-level error.
pub open spec fn displayed(shell: ShellView, chain: Seq<NodeView>) -> ShellView {
    shell.write_err(display_text(chain, shell.verbosity, shell.color))
}

/// `visible_len` is the position of the first node that display stops at.
pub proof fn lemma_visible_len_at(chain: Seq<NodeView>, verbosity: Verbosity, k: int)
    requires
        0 <= k <= chain.len(),
        forall|j: int| 0 <= j < k ==> !hides((#[trigger] chain[j]).kind, verbosity),
        k == chain.len() || hides(chain[k].kind, verbosity),
    ensures
        visible_len(chain, verbosity) == k,
    decreases k,
{
    if k > 0 {
        let rest = chain.drop_first();
        assert(!hides(chain[0].kind, verbosity));
        assert forall|j: int| 0 <= j < k - 1 implies !hides(
            (#[trigger] rest[j]).kind,
            verbosity,
        ) by {
            assert(rest[j] == chain[j + 1]);
        }
        lemma_visible_len_at(rest, verbosity, k - 1);
    }
}

/// One more node at the end adds its block at the end.
pub proof fn lemma_causes_text_push(nodes: Seq<NodeView>, node: NodeView)
    ensures
        causes_text(nodes.push(node)) == causes_text(nodes) + cause_block(node.message),
    decreases nodes.len(),
{
    let longer = nodes.push(node);
    if nodes.len() == 0 {
        assert(longer.drop_first() =~= nodes);
        assert(causes_text(nodes) =~= Seq::<char>::empty());
        assert(causes_text(longer) =~= cause_block(node.message));
    } else {
        assert(longer.drop_first() =~= nodes.drop_first().push(node));
        lemma_causes_text_push(nodes.drop_first(), node);
        assert(causes_text(longer) =~= causes_text(nodes) + cause_block(node.message));
    }
}

/// Behind at least one node, one more node adds its block at the end.
pub proof fn lemma_nodes_text_push(nodes: Seq<NodeView>, node: NodeView, as_err: bool, color: bool)
    requires
        nodes.len() >= 1,
    ensures
        nodes_text(nodes.push(node), as_err, color) == nodes_text(nodes, as_err, color)
            + cause_block(node.message),
{
    let longer = nodes.push(node);
    assert(longer.drop_first() =~= nodes.drop_first().push(node));
    lemma_causes_text_push(nodes.drop_first(), node);
    assert(nodes_text(longer, as_err, color) =~= nodes_text(nodes, as_err, color) + cause_block(
        node.message,
    ));
}

/// At verbose output a chain without a node that was already printed is
/// shown whole: the headline of the root, then the block of every cause, from
/// the root to the original failure. This holds in particular of a chain
/// that was built by wrapping a failure in layers of context.
pub proof fn lemma_verbose_shows_whole_chain(chain: Seq<NodeView>, as_err: bool, color: bool)
    requires
        chain.len() >= 1,
        forall|i: int| 0 <= i < chain.len() ==> (#[trigger] chain[i]).kind != NodeKind::AlreadyPrinted,
    ensures
        visible(chain, Verbosity::Verbose) == chain,
        !stopped_by_verbosity(chain, Verbosity::Verbose),
        chain_text(chain, Verbosity::Verbose, as_err, color) == headline(
            chain[0].message,
            as_err,
            color,
        ) + causes_text(chain.drop_first()),
{
    lemma_visible_len_at(chain, Verbosity::Verbose, chain.len() as int);
    assert(chain.take(chain.len() as int) =~= chain);
}

/// Below verbose output, a verbose node hides itself and everything below
/// it: if no node in front of position `k` stops display and the node at `k`
/// is verbose, exactly the nodes in front of `k` are shown.
pub proof fn lemma_verbose_node_hides_rest(chain: Seq<NodeView>, verbosity: Verbosity, k: int)
    requires
        0 <= k < chain.len(),
        chain[k].kind == NodeKind::Verbose,
        verbosity != Verbosity::Verbose,
        forall|j: int| 0 <= j < k ==> !hides((#[trigger] chain[j]).kind, verbosity),
    ensures
        visible(chain, verbosity) == chain.take(k),
        stopped_by_verbosity(chain, verbosity),
        forall|as_err: bool, color: bool| #[trigger]
            chain_text(chain, verbosity, as_err, color) == nodes_text(chain.take(k), as_err, color),
{
    lemma_visible_len_at(chain, verbosity, k);
}

/// At every verbosity, a node that was already printed hides itself and
/// everything below it: if no node in front of position `k` stops display and
/// the node at `k` was already printed, exactly the nodes in front of `k` are
/// shown.
pub proof fn lemma_already_printed_node_hides_rest(
    chain: Seq<NodeView>,
    verbosity: Verbosity,
    k: int,
)
    requires
        0 <= k < chain.len(),
        chain[k].kind == NodeKind::AlreadyPrinted,
        forall|j: int| 0 <= j < k ==> !hides((#[trigger] chain[j]).kind, verbosity),
    ensures
        visible(chain, verbosity) == chain.take(k),
        !stopped_by_verbosity(chain, verbosity),
        forall|as_err: bool, color: bool| #[trigger]
            chain_text(chain, verbosity, as_err, color) == nodes_text(chain.take(k), as_err, color),
{
    lemma_visible_len_at(chain, verbosity, k);
}

/// What is shown of a chain depends only on the nodes in front of the first
/// one that display stops at: two chains that agree up to there are shown
/// alike.
pub proof fn lemma_hidden_part_is_not_shown(
    chain: Seq<NodeView>,
    other: Seq<NodeView>,
    verbosity: Verbosity,
    k: int,
)
    requires
        0 <= k < chain.len(),
        0 <= k < other.len(),
        chain.take(k) == other.take(k),
        hides(chain[k].kind, verbosity),
        hides(other[k].kind, verbosity),
        forall|j: int| 0 <= j < k ==> !hides((#[trigger] chain[j]).kind, verbosity),
    ensures
        visible(chain, verbosity) == visible(other, verbosity),
{
    lemma_visible_len_at(chain, verbosity, k);
    assert forall|j: int| 0 <= j < k implies !hides((#[trigger] other[j]).kind, verbosity) by {
        assert(other[j] == other.take(k)[j]);
        assert(chain[j] == chain.take(k)[j]);
    }
    lemma_visible_len_at(other, verbosity, k);
}

/// Quiet and normal output show the same part of a chain: quiet output drops
/// notes, not causes.
pub proof fn lemma_quiet_shows_chain_as_normal(chain: Seq<NodeView>)
    ensures
        visible_len(chain, Verbosity::Quiet) == visible_len(chain, Verbosity::Normal),
        visible(chain, Verbosity::Quiet) == visible(chain, Verbosity::Normal),
    decreases chain.len(),
{
    if chain.len() > 0 && !hides(chain[0].kind, Verbosity::Quiet) {
        lemma_quiet_shows_chain_as_normal(chain.drop_first());
    }
}

/// A chain with an internal error anywhere in it is followed by exactly the
/// three notes, unless the shell is quiet, and then by none. The chain itself
/// is written in either case, and at quiet output as at normal output: what
/// hides notes and what hides causes are two different things.
pub proof fn lemma_internal_error_adds_notes(
    chain: Seq<NodeView>,
    k: int,
    verbosity: Verbosity,
    color: bool,
)
    requires
        0 <= k < chain.len(),
        chain[k].kind == NodeKind::Internal,
    ensures
        verbosity != Verbosity::Quiet ==> display_text(chain, verbosity, color) == chain_text(
            chain,
            verbosity,
            true,
            color,
        ) + note_line(INTERNAL_ERROR_NOTE@, color) + note_line(BUG_REPORT_NOTE@, color)
            + note_line(version_note(), color),
        display_text(chain, Verbosity::Quiet, color) == chain_text(
            chain,
            Verbosity::Normal,
            true,
            color,
        ),
{
    assert(has_internal(chain));
    lemma_quiet_shows_chain_as_normal(chain);
    let shown = chain_text(chain, verbosity, true, color);
    assert(shown + internal_notes(color) =~= shown + note_line(INTERNAL_ERROR_NOTE@, color)
        + note_line(BUG_REPORT_NOTE@, color) + note_line(version_note(), color));
    assert(display_text(chain, Verbosity::Quiet, color) =~= chain_text(
        chain,
        Verbosity::Normal,
        true,
        color,
    ));
}

/// A chain without an internal error is followed by no note.
pub proof fn lemma_no_internal_error_no_notes(
    chain: Seq<NodeView>,
    verbosity: Verbosity,
    color: bool,
)
    requires
        forall|i: int| 0 <= i < chain.len() ==> (#[trigger] chain[i]).kind != NodeKind::Internal,
    ensures
        display_text(chain, verbosity, color) == chain_text(chain, verbosity, true, color),
{
    assert(!has_internal(chain));
    assert(display_text(chain, verbosity, color) =~= chain_text(chain, verbosity, true, color));
}

/// Display changes nothing in the shell but the text of the standard error
/// stream, so chains with the same nodes are displayed alike, once or again:
/// displaying two such chains one after the other writes the same text
/// twice.
pub proof fn lemma_display_repeats(shell: ShellView, first: Seq<NodeView>, second: Seq<NodeView>)
    requires
        first == second,
    ensures
        displayed(shell, first).verbosity == shell.verbosity,
        displayed(shell, first).color == shell.color,
        displayed(shell, first).out == shell.out,
        displayed(shell, first).err == shell.err + display_text(
            first,
            shell.verbosity,
            shell.color,
        ),
        displayed(displayed(shell, first), second).err == displayed(shell, first).err
            + display_text(first, shell.verbosity, shell.color),
{
}

} // verus!
