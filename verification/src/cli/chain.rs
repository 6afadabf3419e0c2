//! Error chains: a failure together with the failures that caused it.

use vstd::prelude::*;

verus! {

/// What display does with a node of an error chain.
#[derive(Clone, Copy, Debug, PartialEq, Eq, Structural, Hash)]
pub enum NodeKind {
    /// An ordinary failure.
    Plain,
    /// This node and everything below it is shown only at verbose output.
    Verbose,
    /// This node and everything below it was already shown elsewhere.
    AlreadyPrinted,
    /// A failure that the program did not anticipate.
    Internal,
    /// A failure of the argument parser, which brings its own formatted text
    /// and says which stream the text is for.
    Parse { use_stderr: bool },
}

/// One node of a chain as display sees it: its kind and its message.
pub struct NodeView {
    pub kind: NodeKind,
    pub message: Seq<char>,
}

/// A failure and its causes, outermost context first.
///
/// A chain is never empty, and it grows at the top only: wrapping makes a new
/// root whose cause is the chain as it was.
#[derive(Debug)]
pub struct ErrorChain {
    kind: NodeKind,
    message: String,
    source: Option<Box<ErrorChain>>,
}

/// Whether some node of `chain` is an internal error.
pub open spec fn has_internal(chain: Seq<NodeView>) -> bool {
    exists|i: int| 0 <= i < chain.len() && (#[trigger] chain[i]).kind == NodeKind::Internal
}

impl View for ErrorChain {
    type V = Seq<NodeView>;

    /// The nodes from the root to the original cause.
    closed spec fn view(&self) -> Seq<NodeView> {
        self.nodes()
    }
}

impl ErrorChain {
    /// The root, then the nodes of its cause.
    spec fn nodes(&self) -> Seq<NodeView>
        decreases self,
    {
        seq![NodeView { kind: self.kind, message: self.message@ }] + match self.source {
            Some(cause) => (*cause).nodes(),
            None => Seq::empty(),
        }
    }

    /// The chain of one node.
    pub closed spec fn leaf(kind: NodeKind, message: String) -> ErrorChain {
        ErrorChain { kind, message, source: None }
    }

    /// This chain with the kind of its root replaced.
    pub closed spec fn retagged(self, kind: NodeKind) -> ErrorChain {
        ErrorChain { kind, ..self }
    }

    /// A chain holds its root at least.
    pub broadcast proof fn lemma_nonempty(self)
        ensures
            #[trigger] self@.len() >= 1,
    {
    }

    /// The view of a chain of one node.
    pub broadcast proof fn lemma_leaf_view(kind: NodeKind, message: String)
        ensures
            #[trigger] Self::leaf(kind, message)@ == seq![NodeView { kind, message: message@ }],
    {
    }

    /// Replacing the kind of the root changes nothing else.
    pub broadcast proof fn lemma_retagged_view(self, kind: NodeKind)
        ensures
            #[trigger] self.retagged(kind)@ == self@.update(
                0,
                NodeView { kind, message: self@[0].message },
            ),
    {
    }

    /// A plain failure without a cause.
    pub fn new(message: &str) -> (chain: ErrorChain)
        ensures
            chain@ == seq![NodeView { kind: NodeKind::Plain, message: message@ }],
    {
        ErrorChain { kind: NodeKind::Plain, message: String::from_str(message), source: None }
    }

    /// A failure of the given kind without a cause, around a message that the
    /// caller already owns.
    pub fn from_message(kind: NodeKind, message: String) -> (chain: ErrorChain)
        ensures
            chain == Self::leaf(kind, message),
            chain@ == seq![NodeView { kind, message: message@ }],
    {
        ErrorChain { kind, message, source: None }
    }

    /// Wraps the chain in one more layer of context: the result has a new
    /// plain root with the given message, and its cause is `self`.
    pub fn context(self, message: &str) -> (chain: ErrorChain)
        ensures
            chain@ == seq![NodeView { kind: NodeKind::Plain, message: message@ }] + self@,
    {
        ErrorChain {
            kind: NodeKind::Plain,
            message: String::from_str(message),
            source: Some(Box::new(self)),
        }
    }

    /// Replaces the kind of the root; message and causes stay.
    pub fn with_kind(self, kind: NodeKind) -> (chain: ErrorChain)
        ensures
            chain == self.retagged(kind),
            chain@ == self@.update(0, NodeView { kind, message: self@[0].message }),
    {
        let ErrorChain { kind: _, message, source } = self;
        ErrorChain { kind, message, source }
    }

    /// The kind of the root.
    pub fn kind(&self) -> (kind: NodeKind)
        ensures
            kind == self@[0].kind,
    {
        self.kind
    }

    /// The message of the root.
    pub fn message(&self) -> (message: &str)
        ensures
            message@ == self@[0].message,
    {
        self.message.as_str()
    }

    /// Whether some node of the chain, the root or any cause, is an internal
    /// error.
    pub fn is_internal(&self) -> (found: bool)
        ensures
            found == has_internal(self@),
    {
        let mut cur: &ErrorChain = self;
        let ghost mut i: int = 0;
        proof {
            self.lemma_nonempty();
            assert(self@.skip(0) =~= self@);
        }
        loop
            invariant
                0 <= i < self@.len(),
                cur@ == self@.skip(i),
                forall|j: int| 0 <= j < i ==> (#[trigger] self@[j]).kind != NodeKind::Internal,
            decreases self@.len() - i,
        {
            assert(cur@[0] == self@[i]);
            if cur.kind() == NodeKind::Internal {
                return true;
            }
            match cur.source() {
                Some(cause) => {
                    proof {
                        assert(self@.skip(i).drop_first() =~= self@.skip(i + 1));
                        i = i + 1;
                    }
                    cur = cause;
                },
                None => {
                    return false;
                },
            }
        }
    }

    /// The cause of the root: the chain without its root, if anything is
    /// left.
    pub fn source(&self) -> (cause: Option<&ErrorChain>)
        ensures
            match cause {
                Some(c) => self@.len() > 1 && c@ == self@.drop_first(),
                None => self@.len() == 1,
            },
    {
        match &self.source {
            Some(cause) => {
                proof {
                    cause.lemma_nonempty();
                    assert(self@.drop_first() =~= cause@);
                }
                Some(&**cause)
            },
            None => None,
        }
    }
}

} // verus!
