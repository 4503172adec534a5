//! The mathematical model of error values.
//!
//! Every contract of this crate is stated over these types: a message is
//! three texts, an error value is a finite chain of nodes, and a chain is a
//! sequence. Nothing here exists at run time.

use vstd::prelude::*;

verus! {

/// Tells the concrete kinds of failure apart; what `find` and `is` search for.
#[derive(Clone, Copy, Debug, PartialEq, Eq, Structural)]
pub enum TypeTag {
    /// A node built by `new` or `wrap`.
    Wrapper,
    /// A bare string turned into a failure.
    StringPayload,
    /// A failure type defined elsewhere. The number tells such types apart;
    /// whoever adapts them picks it.
    Foreign(u64),
}

/// What a message says, in each of the ways it can be asked to say it.
pub struct MessageModel {
    /// The message's own immediate text: what it prints when asked to leave
    /// any chain of its own out.
    pub top: Seq<char>,
    /// What the message prints by default. A message that knows about a chain
    /// of its own may print some of it here.
    pub full: Seq<char>,
    /// What the message prints for debugging.
    pub debug: Seq<char>,
}

impl MessageModel {
    /// The text of the message under the suppress-self-chain signal.
    pub open spec fn render(self, suppress_self_chain: bool) -> Seq<char> {
        if suppress_self_chain {
            self.top
        } else {
            self.full
        }
    }
}

/// An error value: a message with an optional cause, or a node that hides
/// the value it wraps from inspection.
pub enum ErrorModel {
    /// A transparent node. Its cause, if any, is visible.
    Wrapper { type_tag: TypeTag, message: MessageModel, cause: Option<Box<ErrorModel>> },
    /// A chain-hiding node. What it hides is kept in full and is rendered,
    /// but is never reported as a cause.
    Opaque { hidden: Box<ErrorModel> },
}

impl ErrorModel {
    /// The cause that this node reports: the one it was built with for a
    /// `Wrapper`, none for an `Opaque`.
    pub open spec fn source(self) -> Option<ErrorModel> {
        match self {
            ErrorModel::Wrapper { cause: Some(c), .. } => Some(*c),
            _ => None,
        }
    }

    /// Whether this node is of the kind `tag`. An `Opaque` node is of none.
    pub open spec fn has_type(self, tag: TypeTag) -> bool {
        match self {
            ErrorModel::Wrapper { type_tag, .. } => type_tag == tag,
            ErrorModel::Opaque { .. } => false,
        }
    }

    /// The node itself, then its visible cause, then that one's, to the end.
    pub open spec fn chain(self) -> Seq<ErrorModel>
        decreases self,
    {
        match self {
            ErrorModel::Wrapper { cause: Some(c), .. } => seq![self] + c.chain(),
            _ => seq![self],
        }
    }

    /// The chain without its first element.
    pub open spec fn sources(self) -> Seq<ErrorModel> {
        self.chain().drop_first()
    }

    /// The first node of the chain that is of the kind `tag`.
    pub open spec fn find(self, tag: TypeTag) -> Option<ErrorModel> {
        first_of_type(self.chain(), tag)
    }

    /// Whether some node of the chain is of the kind `tag`.
    pub open spec fn contains(self, tag: TypeTag) -> bool {
        self.find(tag) is Some
    }

    /// The number of nodes below and including this one, hidden ones too.
    pub open spec fn depth(self) -> nat
        decreases self,
    {
        match self {
            ErrorModel::Wrapper { cause: Some(c), .. } => 1 + c.depth(),
            ErrorModel::Wrapper { cause: None, .. } => 1,
            ErrorModel::Opaque { hidden } => 1 + hidden.depth(),
        }
    }

    /// The transparent node that this one is rendered as: itself, or for an
    /// `Opaque` the first transparent node under it.
    pub open spec fn unveiled(self) -> ErrorModel
        decreases self,
    {
        match self {
            ErrorModel::Opaque { hidden } => hidden.unveiled(),
            _ => self,
        }
    }

    /// The message that heads a rendering of this node.
    pub open spec fn head(self) -> MessageModel
        decreases self,
    {
        match self {
            ErrorModel::Wrapper { message, .. } => message,
            ErrorModel::Opaque { hidden } => hidden.head(),
        }
    }
}

/// The chain that starts at `next`; empty where there is no node.
pub open spec fn chain_from(next: Option<ErrorModel>) -> Seq<ErrorModel> {
    match next {
        Some(e) => e.chain(),
        None => Seq::empty(),
    }
}

/// The depth of the node `next`; zero where there is none.
pub open spec fn depth_from(next: Option<ErrorModel>) -> nat {
    match next {
        Some(e) => e.depth(),
        None => 0,
    }
}

/// The first element of `nodes` that is of the kind `tag`.
pub open spec fn first_of_type(nodes: Seq<ErrorModel>, tag: TypeTag) -> Option<ErrorModel>
    decreases nodes.len(),
{
    if nodes.len() == 0 {
        None
    } else if nodes[0].has_type(tag) {
        Some(nodes[0])
    } else {
        first_of_type(nodes.drop_first(), tag)
    }
}

/// A chain has its node in front, and what follows is the chain of the
/// node's visible cause.
pub proof fn lemma_chain_unfold(e: ErrorModel)
    ensures
        e.chain().len() >= 1,
        e.chain()[0] == e,
        e.sources() == chain_from(e.source()),
{
}

/// The last node of a chain is that of the cause's chain, or the node
/// itself where it has no visible cause.
pub proof fn lemma_chain_last(e: ErrorModel)
    ensures
        e.chain().last() == match e.source() {
            Some(c) => c.chain().last(),
            None => e,
        },
{
    match e {
        ErrorModel::Wrapper { cause: Some(c), .. } => {
            lemma_chain_unfold(*c);
        },
        _ => {},
    }
}

} // verus!
