//! Walking the chain of causes of an error value.
//!
//! [`chain`] gives the nodes of a chain one by one, starting with the value
//! itself; [`sources`] leaves that first one out. [`root`], [`find`] and
//! [`is`] answer the usual questions about a chain.
//!
//! A chain follows the causes that the nodes report, so it ends at an opaque
//! node: nothing here sees what such a node hides.

use crate::model::{chain_from, first_of_type, lemma_chain_last, lemma_chain_unfold, ErrorModel, TypeTag};
use crate::new::{view_of, ErrorValue};
use vstd::prelude::*;

verus! {

/// The nodes of a chain that are still to come, handed out one by one.
pub struct Iter<'a> {
    err: Option<&'a ErrorValue>,
}

impl<'a> Iter<'a> {
    /// The node that `next` hands out next, if there is one.
    pub closed spec fn head(&self) -> Option<ErrorModel> {
        view_of(self.err)
    }

    /// The walk that starts at `err`, or the one that is over at once.
    pub(crate) fn new(err: Option<&'a ErrorValue>) -> (it: Self)
        ensures
            it.head() == view_of(err),
    {
        Iter { err }
    }

    /// Hands out the next node and moves on to its visible cause. Gives
    /// `None`, and changes nothing, once the chain has ended.
    pub fn next(&mut self) -> (r: Option<&'a ErrorValue>)
        ensures
            view_of(r) == old(self).head(),
            final(self).head() == match old(self).head() {
                Some(e) => e.source(),
                None => None,
            },
            match r {
                Some(e) => old(self)@.len() >= 1 && old(self)@[0] == e@ && final(self)@ == old(
                    self,
                )@.drop_first(),
                None => old(self)@.len() == 0 && final(self)@.len() == 0,
            },
    {
        match self.err {
            Some(next) => {
                proof {
                    lemma_chain_unfold(next@);
                }
                self.err = next.source();
                Some(next)
            },
            None => None,
        }
    }
}

impl<'a> View for Iter<'a> {
    type V = Seq<ErrorModel>;

    /// The nodes still to come, in the order in which they come.
    open spec fn view(&self) -> Seq<ErrorModel> {
        chain_from(self.head())
    }
}

/// Walks the whole chain of `err`: `err` itself comes first, so there is
/// always at least one node.
pub fn chain<'a>(err: &'a ErrorValue) -> (it: Iter<'a>)
    ensures
        it.head() == Some(err@),
        it@ == err@.chain(),
        it@.len() >= 1,
        it@[0] == err@,
{
    proof {
        lemma_chain_unfold(err@);
    }
    Iter::new(Some(err))
}

/// Walks the causes of `err`: its chain without `err` itself.
pub fn sources<'a>(err: &'a ErrorValue) -> (it: Iter<'a>)
    ensures
        it.head() == err@.source(),
        it@ == err@.sources(),
{
    proof {
        lemma_chain_unfold(err@);
    }
    Iter::new(err.source())
}

/// Finds the first node in the chain of `err` that is of the kind `tag`.
pub fn find<'a>(err: &'a ErrorValue, tag: TypeTag) -> (r: Option<&'a ErrorValue>)
    ensures
        view_of(r) == err@.find(tag),
        r is Some <==> exists|i: int|
            0 <= i < err@.chain().len() && (#[trigger] err@.chain()[i]).has_type(tag),
{
    let mut it = chain(err);
    loop
        invariant
            first_of_type(it@, tag) == err@.find(tag),
        decreases it@.len(),
    {
        proof {
            lemma_first_of_type(err@.chain(), tag);
        }
        match it.next() {
            Some(e) => {
                if e.has_type(tag) {
                    return Some(e);
                }
            },
            None => {
                return None;
            },
        }
    }
}

/// Tells whether some node in the chain of `err` is of the kind `tag`:
/// whether `find` would find one.
pub fn is(err: &ErrorValue, tag: TypeTag) -> (r: bool)
    ensures
        r == err@.contains(tag),
        r <==> exists|i: int|
            0 <= i < err@.chain().len() && (#[trigger] err@.chain()[i]).has_type(tag),
{
    let mut it = chain(err);
    loop
        invariant
            first_of_type(it@, tag) == err@.find(tag),
        decreases it@.len(),
    {
        proof {
            lemma_first_of_type(err@.chain(), tag);
        }
        match it.next() {
            Some(e) => {
                if e.has_type(tag) {
                    return true;
                }
            },
            None => {
                return false;
            },
        }
    }
}

/// Gives the last node in the chain of `err`: the failure that started it
/// all. That is `err` itself where it reports no cause.
pub fn root<'a>(err: &'a ErrorValue) -> (r: &'a ErrorValue)
    ensures
        r@ == err@.chain().last(),
        r@.source() is None,
        err@.source() is None ==> r@ == err@,
{
    let mut it = sources(err);
    let mut last = err;
    proof {
        lemma_chain_last(err@);
    }
    loop
        invariant
            it.head() == last@.source(),
            last@.chain().last() == err@.chain().last(),
            err@.source() is None ==> last@ == err@,
        decreases it@.len(),
    {
        match it.next() {
            Some(e) => {
                proof {
                    lemma_chain_last(last@);
                    lemma_chain_last(e@);
                }
                last = e;
            },
            None => {
                proof {
                    lemma_chain_last(last@);
                }
                return last;
            },
        }
    }
}

/// What the first node of a kind is, said without recursion: it is of that
/// kind, it is in the sequence, and no node before it is of that kind; and
/// there is none exactly where no node of the sequence is of that kind.
pub proof fn lemma_first_of_type(nodes: Seq<ErrorModel>, tag: TypeTag)
    ensures
        match first_of_type(nodes, tag) {
            Some(e) => exists|i: int|
                0 <= i < nodes.len() && #[trigger] nodes[i] == e && e.has_type(tag) && forall|
                    j: int,
                | 0 <= j < i ==> !(#[trigger] nodes[j]).has_type(tag),
            None => forall|i: int| 0 <= i < nodes.len() ==> !(#[trigger] nodes[i]).has_type(tag),
        },
        first_of_type(nodes, tag) is Some <==> exists|i: int|
            0 <= i < nodes.len() && (#[trigger] nodes[i]).has_type(tag),
    decreases nodes.len(),
{
    if nodes.len() > 0 && !nodes[0].has_type(tag) {
        let rest = nodes.drop_first();
        lemma_first_of_type(rest, tag);
        match first_of_type(rest, tag) {
            Some(e) => {
                let i = choose|i: int|
                    0 <= i < rest.len() && #[trigger] rest[i] == e && e.has_type(tag) && forall|
                        j: int,
                    | 0 <= j < i ==> !(#[trigger] rest[j]).has_type(tag);
                assert forall|j: int| 0 <= j < i + 1 implies !(#[trigger] nodes[j]).has_type(
                    tag,
                ) by {
                    if j > 0 {
                        assert(rest[j - 1] == nodes[j]);
                    }
                }
            },
            None => {
                assert forall|i: int| 0 <= i < nodes.len() implies !(#[trigger] nodes[i]).has_type(
                    tag,
                ) by {
                    if i > 0 {
                        assert(rest[i - 1] == nodes[i]);
                    }
                }
            },
        }
    }
}

} // verus!
