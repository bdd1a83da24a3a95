//! The executable list: a reference-counted tree of cons cells behind a
//! newtype, with the structural operations and the canonical rendering.
//! Every operation is total; `car` and `cdr` degrade to the empty list on
//! non-pair input instead of failing, and the recursive algorithms rely on
//! exactly that to terminate on malformed shapes.

use crate::model::{
    lemma_tail_size, node_append, node_head, node_len, node_rev, node_size, node_tail, render,
    render_elems, Node,
};
use std::rc::Rc;
use vstd::prelude::*;
use vstd::string::StringExecFns;

verus! {

/// The base node type. `Pair` forms trees (and, by convention, lists);
/// `Empty` terminates a list; `Lit` carries an opaque text payload.
#[derive(Debug)]
pub enum ListE {
    Empty(),
    Lit(String),
    Pair(ListR, ListR),
}

/// A reference-counted node reference: subtrees are shared across the
/// structural operations, never copied, and never mutated once built.
pub type ListR = Rc<ListE>;

/// The abstraction of a node: the mathematical tree it denotes, with each
/// literal payload read as its character sequence.
pub open spec fn node_of(l: ListE) -> Node
    decreases l,
{
    match l {
        ListE::Empty() => Node::Empty,
        ListE::Lit(s) => Node::Lit(s@),
        ListE::Pair(h, t) => Node::Pair(Box::new(node_of(*h)), Box::new(node_of(*t))),
    }
}

impl View for ListE {
    type V = Node;

    open spec fn view(&self) -> Node {
        node_of(*self)
    }
}

impl ListE {
    /// Render the elements of this node without enclosing parentheses:
    /// head first, then a single space if the tail is non-empty, then the
    /// tail, depth first.
    fn internal_fmt(&self) -> (r: String)
        ensures
            r@ == render_elems(self@),
        decreases node_size(self@),
    {
        match self {
            ListE::Empty() => String::new(),
            ListE::Lit(s) => {
                let mut out = String::new();
                out.append("'");
                out.append(s.as_str());
                out.append("'");
                proof {
                    reveal_strlit("'");
                    assert(out@ =~= render_elems(self@));
                }
                out
            },
            ListE::Pair(h, t) => {
                let mut out = (**h).internal_fmt();
                match &**t {
                    ListE::Empty() => {},
                    _ => {
                        out.append(" ");
                        proof {
                            reveal_strlit(" ");
                        }
                    },
                }
                let rest = (**t).internal_fmt();
                out.append(rest.as_str());
                proof {
                    assert(out@ =~= render_elems(self@));
                }
                out
            },
        }
    }

    /// Structural equality: equal shape and equal payloads, regardless of
    /// which allocations the two trees share.
    fn deep_eq(&self, other: &ListE) -> (r: bool)
        ensures
            r == (self@ == other@),
        decreases node_size(self@),
    {
        match (self, other) {
            (ListE::Empty(), ListE::Empty()) => true,
            (ListE::Lit(a), ListE::Lit(b)) => *a == *b,
            (ListE::Pair(h1, t1), ListE::Pair(h2, t2)) => {
                (**h1).deep_eq(&**h2) && (**t1).deep_eq(&**t2)
            },
            _ => false,
        }
    }
}

impl PartialEq for ListE {
    fn eq(&self, other: &ListE) -> (r: bool) {
        self.deep_eq(other)
    }
}

impl vstd::std_specs::cmp::PartialEqSpecImpl for ListE {
    open spec fn obeys_eq_spec() -> bool {
        true
    }

    open spec fn eq_spec(&self, other: &ListE) -> bool {
        self@ == other@
    }
}

/// A list: a newtype around a reference-counted node. Its view is the
/// mathematical tree the node denotes.
#[derive(Debug)]
pub struct List(ListR);

impl View for List {
    type V = Node;

    closed spec fn view(&self) -> Node {
        node_of(*self.0)
    }
}

impl PartialEq for List {
    fn eq(&self, other: &List) -> (r: bool) {
        (*self.0).deep_eq(&*other.0)
    }
}

impl vstd::std_specs::cmp::PartialEqSpecImpl for List {
    open spec fn obeys_eq_spec() -> bool {
        true
    }

    open spec fn eq_spec(&self, other: &List) -> bool {
        self@ == other@
    }
}

impl List {
    /// Wrap a text payload as a single literal leaf.
    pub fn lit(s: &str) -> (r: Self)
        ensures
            r@ == Node::Lit(s@),
    {
        List(Rc::new(ListE::Lit(s.to_owned())))
    }

    /// The canonical empty list.
    pub fn empty() -> (r: List)
        ensures
            r@ == Node::Empty,
    {
        List(Rc::new(ListE::Empty()))
    }

    /// Prepend `self` as the head of a new pair whose tail is `b`, sharing
    /// both substructures. No check keeps the result well formed: a literal
    /// tail is permitted.
    pub fn cons(self, b: List) -> (r: List)
        ensures
            r@ == Node::Pair(Box::new(self@), Box::new(b@)),
    {
        List(Rc::new(ListE::Pair(self.0, b.0)))
    }

    /// Whether this list is the `Empty` variant.
    pub fn is_empty(&self) -> (r: bool)
        ensures
            r == (self@ is Empty),
    {
        match &*self.0 {
            ListE::Empty() => true,
            _ => false,
        }
    }

    /// Whether this list is the `Pair` variant.
    pub fn is_pair(&self) -> (r: bool)
        ensures
            r == (self@ is Pair),
    {
        match &*self.0 {
            ListE::Pair(_, _) => true,
            _ => false,
        }
    }

    /// The first element of a pair, or the empty list if `self` is not a
    /// pair: access never fails, it degrades to empty.
    pub fn car(&self) -> (r: List)
        ensures
            r@ == node_head(self@),
    {
        match &*self.0 {
            ListE::Pair(h, _) => List(Rc::clone(h)),
            _ => List::empty(),
        }
    }

    /// The tail of a pair, or the empty list if `self` is not a pair,
    /// under the same degrade-to-empty policy as `car`.
    pub fn cdr(&self) -> (r: List)
        ensures
            r@ == node_tail(self@),
    {
        match &*self.0 {
            ListE::Pair(_, t) => List(Rc::clone(t)),
            _ => List::empty(),
        }
    }

    /// Append `b` to `self`: `b` itself when `self` is empty, otherwise the
    /// chain of `self` rebuilt node by node with its terminal empty marker
    /// replaced by `b`. No precaution keeps the result well formed.
    pub fn append(self, b: List) -> (r: List)
        ensures
            r@ == node_append(self@, b@),
        decreases node_size(self@),
    {
        if self.is_empty() {
            b
        } else {
            let h = self.car();
            let t = self.cdr();
            proof {
                lemma_tail_size(self@);
            }
            h.cons(t.append(b))
        }
    }

    /// Reverse the list: reverse its tail, then append the one-element
    /// list holding the head.
    pub fn reverse(self) -> (r: List)
        ensures
            r@ == node_rev(self@),
        decreases node_size(self@),
    {
        if self.is_empty() {
            self
        } else {
            let h = self.car();
            let t = self.cdr();
            proof {
                lemma_tail_size(self@);
            }
            t.reverse().append(h.cons(List::empty()))
        }
    }

    /// The length of the list: zero for empty, otherwise one plus the
    /// length of the tail, so a bare literal counts one and a malformed
    /// chain counts its consecutive pair tails.
    pub fn length(&self) -> (r: usize)
        requires
            node_len(self@) <= usize::MAX,
        ensures
            r == node_len(self@),
        decreases node_size(self@),
    {
        if self.is_empty() {
            0
        } else {
            let t = self.cdr();
            proof {
                lemma_tail_size(self@);
            }
            1 + t.length()
        }
    }

    /// The canonical rendering: the elements joined by single spaces,
    /// wrapped in one pair of parentheses, each literal in single quotes.
    pub fn display(&self) -> (r: String)
        ensures
            r@ == render(self@),
    {
        let mut out = String::new();
        out.append("(");
        let body = (*self.0).internal_fmt();
        out.append(body.as_str());
        out.append(")");
        proof {
            reveal_strlit("(");
            reveal_strlit(")");
            assert(out@ =~= render(self@));
        }
        out
    }
}

} // verus!
