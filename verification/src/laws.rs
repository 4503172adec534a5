//! What holds of every error value, proved once for all of them.
//!
//! The laws speak of the model, as the contracts of the functions do: what
//! `new`, `wrap` and `opaque` return, what a chain looks like, and how a
//! rendering changes with the depth limit.

use crate::fmt::{joiner_text, lemma_expanded_unfold, lower, Flags};
use crate::model::{first_of_type, lemma_chain_last, lemma_chain_unfold, ErrorModel, MessageModel, TypeTag};
use vstd::prelude::*;

verus! {

/// The flags `flags` with one cause less allowed.
pub open spec fn one_less(flags: Flags) -> Flags {
    Flags {
        expand: flags.expand,
        joiner: flags.joiner,
        depth_limit: match flags.depth_limit {
            Some(n) => Some((n - 1) as usize),
            None => None,
        },
        suppress_self_chain: flags.suppress_self_chain,
    }
}

/// The flags `flags` without `expand`.
pub open spec fn plain_of(flags: Flags) -> Flags {
    Flags {
        expand: false,
        joiner: flags.joiner,
        depth_limit: flags.depth_limit,
        suppress_self_chain: flags.suppress_self_chain,
    }
}

/// The flags `flags` with `expand`.
pub open spec fn expanded_of(flags: Flags) -> Flags {
    Flags {
        expand: true,
        joiner: flags.joiner,
        depth_limit: flags.depth_limit,
        suppress_self_chain: flags.suppress_self_chain,
    }
}

impl ErrorModel {
    /// The texts that an expanded rendering without a limit prints one after
    /// the other: the own text of each message on the way from this node to
    /// the end, the way leading through opaque nodes into what they hide.
    pub open spec fn segments(self) -> Seq<Seq<char>>
        decreases self,
    {
        match self {
            ErrorModel::Opaque { hidden } => hidden.segments(),
            ErrorModel::Wrapper { message, cause: Some(c), .. } => seq![message.top] + c.segments(),
            ErrorModel::Wrapper { message, cause: None, .. } => seq![message.top],
        }
    }

    /// The texts that an expanded rendering prints under `limit`: the first
    /// one and as many more as the limit allows.
    pub open spec fn shown(self, limit: Option<nat>) -> Seq<Seq<char>> {
        self.segments().take(printed(self.segments().len(), limit) as int)
    }
}

/// How many of `count` texts are printed under `limit`: all of them, or one
/// more than the limit where that is less.
pub open spec fn printed(count: nat, limit: Option<nat>) -> nat {
    match limit {
        Some(n) => if n + 1 < count {
            n + 1
        } else {
            count
        },
        None => count,
    }
}

/// The texts `parts` in a row, with `joiner` between each two.
pub open spec fn join(parts: Seq<Seq<char>>, joiner: Seq<char>) -> Seq<char>
    decreases parts.len(),
{
    if parts.len() == 0 {
        Seq::empty()
    } else if parts.len() == 1 {
        parts[0]
    } else {
        parts[0] + (joiner + join(parts.drop_first(), joiner))
    }
}

/// A value with a message and no cause reports no cause, is a chain of one,
/// and prints as its message does, with or without `expand`.
pub proof fn law_new(message: MessageModel, flags: Flags)
    ensures
        ({
            let e = ErrorModel::Wrapper { type_tag: TypeTag::Wrapper, message, cause: None };
            &&& e.source() is None
            &&& e.chain() == seq![e]
            &&& e.rendering(plain_of(flags)) == message.full
            &&& e.rendering(expanded_of(flags)) == message.top
        }),
{
}

/// A value built from a message and a cause reports that cause. By default
/// it prints its message alone. Expanded it prints the own text of its
/// message, and then, unless the limit is zero, the joiner and the expanded
/// rendering of the cause with one cause less allowed.
pub proof fn law_wrap(message: MessageModel, cause: ErrorModel, flags: Flags)
    ensures
        ({
            let e = ErrorModel::Wrapper {
                type_tag: TypeTag::Wrapper,
                message,
                cause: Some(Box::new(cause)),
            };
            &&& e.source() == Some(cause)
            &&& e.chain() == seq![e] + cause.chain()
            &&& e.rendering(plain_of(flags)) == message.full
            &&& flags.depth_limit == Some(0usize) ==> e.rendering(expanded_of(flags))
                == message.top
            &&& flags.depth_limit != Some(0usize) ==> e.rendering(expanded_of(flags))
                == message.top + joiner_text(flags.joiner) + cause.rendering(
                one_less(expanded_of(flags)),
            )
        }),
{
}

/// An opaque value reports no cause and is a chain of one, so that no kind
/// is found in it, whatever it hides; and it prints exactly as what it
/// hides, under any flags.
pub proof fn law_opaque(hidden: ErrorModel, tag: TypeTag, flags: Flags)
    ensures
        ({
            let e = ErrorModel::Opaque { hidden: Box::new(hidden) };
            &&& e.source() is None
            &&& e.chain() == seq![e]
            &&& e.find(tag) is None
            &&& !e.contains(tag)
            &&& e.rendering(flags) == hidden.rendering(flags)
            &&& e.debug() == hidden.debug()
        }),
{
    reveal_with_fuel(first_of_type, 2);
}

/// A value that stands before an opaque one has a chain that ends there:
/// a kind that only occurs in what the opaque value hides is not found.
pub proof fn law_opaque_ends_chain(message: MessageModel, hidden: ErrorModel, tag: TypeTag)
    requires
        tag != TypeTag::Wrapper,
    ensures
        ({
            let o = ErrorModel::Opaque { hidden: Box::new(hidden) };
            let e = ErrorModel::Wrapper {
                type_tag: TypeTag::Wrapper,
                message,
                cause: Some(Box::new(o)),
            };
            &&& e.chain() == seq![e, o]
            &&& e.find(tag) is None
        }),
{
    let o = ErrorModel::Opaque { hidden: Box::new(hidden) };
    assert(o.chain() == seq![o]);
    reveal_with_fuel(first_of_type, 3);
}

/// A chain starts with the value itself, so it is never empty; and the
/// causes are the chain of the visible cause.
pub proof fn law_chain(e: ErrorModel)
    ensures
        e.chain().len() >= 1,
        e.chain()[0] == e,
        e.sources().len() == e.chain().len() - 1,
        e.sources() == match e.source() {
            Some(c) => c.chain(),
            None => Seq::empty(),
        },
        forall|i: int|
            0 <= i < e.chain().len() - 1 ==> (#[trigger] e.chain()[i]).source() == Some(
                e.chain()[i + 1],
            ),
    decreases e,
{
    lemma_chain_unfold(e);
    match e {
        ErrorModel::Wrapper { cause: Some(c), .. } => {
            law_chain(*c);
        },
        _ => {},
    }
}

/// The root of a chain is its last node, which reports no cause. A value
/// that reports no cause is its own root.
pub proof fn law_root(e: ErrorModel)
    ensures
        e.chain().last().source() is None,
        e.source() is None ==> e.chain().last() == e,
        e.source() is Some ==> e.chain().last() == e.source().unwrap().chain().last(),
    decreases e,
{
    lemma_chain_last(e);
    match e {
        ErrorModel::Wrapper { cause: Some(c), .. } => {
            law_root(*c);
        },
        _ => {},
    }
}

/// `find` gives a node of the chain that is of the kind asked for and has
/// none of that kind before it, and `contains` says whether there is one.
pub proof fn law_find(e: ErrorModel, tag: TypeTag)
    ensures
        e.contains(tag) <==> exists|i: int|
            0 <= i < e.chain().len() && (#[trigger] e.chain()[i]).has_type(tag),
        e.find(tag) matches Some(found) ==> found.has_type(tag) && exists|i: int|
            0 <= i < e.chain().len() && #[trigger] e.chain()[i] == found && forall|j: int|
                0 <= j < i ==> !(#[trigger] e.chain()[j]).has_type(tag),
{
    crate::iter::lemma_first_of_type(e.chain(), tag);
}

/// An expanded rendering is the texts that it shows, joined: the own text
/// of each message on the way, the first and as many more as the limit
/// allows.
pub proof fn law_expanded_is_joined(e: ErrorModel, joiner: Seq<char>, limit: Option<nat>)
    ensures
        e.segments().len() >= 1,
        e.expanded(joiner, limit) == join(e.shown(limit), joiner),
    decreases e,
{
    match e {
        ErrorModel::Opaque { hidden } => {
            law_expanded_is_joined(*hidden, joiner, limit);
        },
        ErrorModel::Wrapper { cause: Some(c), .. } => {
            law_expanded_is_joined(*c, joiner, lower(limit));
            if limit != Some(0nat) {
                // All but the first of the texts shown are those that the cause shows.
                assert(e.shown(limit).drop_first() =~= c.shown(lower(limit)));
            }
        },
        ErrorModel::Wrapper { cause: None, .. } => {},
    }
}

/// An expanded rendering shows at least as many texts as the chain has
/// nodes: one for each node of the chain, and more where an opaque node
/// hides a chain of its own.
pub proof fn lemma_segments_cover_chain(e: ErrorModel)
    ensures
        e.chain().len() <= e.segments().len(),
    decreases e,
{
    match e {
        ErrorModel::Opaque { hidden } => {
            lemma_segments_cover_chain(*hidden);
        },
        ErrorModel::Wrapper { cause: Some(c), .. } => {
            lemma_segments_cover_chain(*c);
        },
        _ => {},
    }
}

/// Joining the first few texts gives a text that the whole starts with.
pub proof fn lemma_join_prefix(parts: Seq<Seq<char>>, joiner: Seq<char>, k: int)
    requires
        0 <= k <= parts.len(),
    ensures
        join(parts.take(k), joiner).is_prefix_of(join(parts, joiner)),
    decreases parts.len(),
{
    if k == parts.len() {
        assert(parts.take(k) =~= parts);
    } else if k > 0 {
        let rest = parts.drop_first();
        lemma_join_prefix(rest, joiner, k - 1);
        assert(parts.take(k).drop_first() =~= rest.take(k - 1));
        if k > 1 {
            // Both start with the first text and the joiner; what follows is
            // a start of what follows.
            let short = parts[0] + (joiner + join(rest.take(k - 1), joiner));
            let long = parts[0] + (joiner + join(rest, joiner));
            assert forall|i: int| 0 <= i < short.len() implies short[i] == long[i] by {}
        }
    }
}

/// The depth limit cuts a rendering short and changes nothing else. Where
/// a rendering has more than `n` texts to show, as it has wherever the
/// chain has more than `n` nodes, the one under the limit `n` is the one
/// under the limit `n + 1` cut off after `1 + n` texts: it shows the first
/// `1 + n` of the texts that the other shows, and is the start of the
/// other.
pub proof fn law_depth_limit(e: ErrorModel, joiner: Seq<char>, n: nat)
    requires
        e.segments().len() > n,
    ensures
        e.chain().len() <= e.segments().len(),
        e.shown(Some(n)).len() == 1 + n,
        e.shown(Some(n + 1)).len() >= 1 + n,
        e.shown(Some(n)) == e.shown(Some(n + 1)).take(n + 1 as int),
        e.expanded(joiner, Some(n)) == join(e.shown(Some(n + 1)).take(n + 1 as int), joiner),
        e.expanded(joiner, Some(n)).is_prefix_of(e.expanded(joiner, Some(n + 1))),
{
    lemma_segments_cover_chain(e);
    law_expanded_is_joined(e, joiner, Some(n));
    law_expanded_is_joined(e, joiner, Some(n + 1));
    lemma_join_prefix(e.shown(Some(n + 1)), joiner, n + 1 as int);
}

/// A depth limit that no chain reaches changes nothing: with a limit of at
/// least the number of causes on the way, the rendering is the one without
/// a limit. And a limit of zero leaves the own text of the top message.
pub proof fn law_depth_limit_ends(e: ErrorModel, joiner: Seq<char>, n: nat)
    ensures
        e.segments().len() <= n + 1 ==> e.expanded(joiner, Some(n)) == e.expanded(joiner, None),
        e.expanded(joiner, Some(0nat)) == e.head().top,
{
    law_expanded_is_joined(e, joiner, Some(n));
    law_expanded_is_joined(e, joiner, None);
    lemma_expanded_unfold(e, joiner, Some(0nat));
}

} // verus!
