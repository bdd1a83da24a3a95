//! The mathematical model of a list node and the specification functions
//! that the contracts of the executable operations are stated over.

use vstd::prelude::*;

verus! {

/// One position in the tree, as a pure mathematical value: either the
/// terminator `Empty`, a literal leaf carrying its text, or a pair of two
/// child nodes. A *well-formed list* is by convention a right-leaning chain
/// of pairs ending in `Empty`, but nothing enforces that shape; every
/// specification function below is total over arbitrary shapes.
pub enum Node {
    Empty,
    Lit(Seq<char>),
    Pair(Box<Node>, Box<Node>),
}

/// The number of `Lit` and `Pair` nodes in the tree. This serves as the
/// termination measure for the functions that recurse through `node_tail`,
/// which maps a `Lit` to `Empty` rather than to a structural subterm.
pub open spec fn node_size(n: Node) -> nat
    decreases n,
{
    match n {
        Node::Empty => 0,
        Node::Lit(_) => 1,
        Node::Pair(h, t) => 1 + node_size(*h) + node_size(*t),
    }
}

/// The first child of a pair; `Empty` for any non-pair node
/// (the degrade-to-empty policy).
pub open spec fn node_head(n: Node) -> Node {
    match n {
        Node::Pair(h, _) => *h,
        _ => Node::Empty,
    }
}

/// The second child of a pair; `Empty` for any non-pair node
/// (the degrade-to-empty policy).
pub open spec fn node_tail(n: Node) -> Node {
    match n {
        Node::Pair(_, t) => *t,
        _ => Node::Empty,
    }
}

/// Taking the tail of a non-empty node strictly shrinks the tree: a pair
/// loses its head subtree and a literal degrades to `Empty`.
pub proof fn lemma_tail_size(n: Node)
    requires
        !(n is Empty),
    ensures
        node_size(node_tail(n)) < node_size(n),
{
    match n {
        Node::Empty => {},
        Node::Lit(_) => {},
        Node::Pair(_, _) => {},
    }
}

/// The length of a node viewed as a list: zero for `Empty`, otherwise one
/// plus the length of the tail. A bare literal counts as a list of length
/// one, and a malformed pair chain terminates where `node_tail` degrades a
/// non-pair node to `Empty`.
pub open spec fn node_len(n: Node) -> nat
    decreases node_size(n),
{
    if n is Empty {
        0
    } else {
        1 + node_len(node_tail(n))
    }
}

/// Concatenation: `b` itself when `a` is `Empty`, otherwise the chain of
/// `a` rebuilt node by node with its terminal `Empty` replaced by `b`.
/// The subtrees of `a` and all of `b` are shared, never copied.
pub open spec fn node_append(a: Node, b: Node) -> Node
    decreases node_size(a),
{
    if a is Empty {
        b
    } else {
        Node::Pair(
            Box::new(node_head(a)),
            Box::new(node_append(node_tail(a), b)),
        )
    }
}

/// Reversal: `Empty` stays `Empty`; otherwise the reversed tail with a
/// one-element list holding the head appended at the end.
pub open spec fn node_rev(a: Node) -> Node
    decreases node_size(a),
{
    if a is Empty {
        a
    } else {
        node_append(
            node_rev(node_tail(a)),
            Node::Pair(Box::new(node_head(a)), Box::new(Node::Empty)),
        )
    }
}

/// Whether the node is a proper list: a right-leaning chain of pairs whose
/// innermost tail is `Empty`. The heads may hold anything; a bare literal
/// is not itself a proper list.
pub open spec fn well_formed(n: Node) -> bool
    decreases n,
{
    match n {
        Node::Empty => true,
        Node::Lit(_) => false,
        Node::Pair(_, t) => well_formed(*t),
    }
}

/// The canonical rendering of the elements of a node, without enclosing
/// parentheses: nothing for `Empty`, the text in single quotes for a
/// literal, and for a pair the head's rendering, then a single separating
/// space when the tail is non-empty, then the tail's rendering. A pair
/// nested in head position contributes no parentheses of its own, so a
/// genuine tree renders exactly like the flat list of its leaves.
pub open spec fn render_elems(n: Node) -> Seq<char>
    decreases n,
{
    match n {
        Node::Empty => Seq::empty(),
        Node::Lit(s) => seq!['\''] + s + seq!['\''],
        Node::Pair(h, t) => render_elems(*h) + (if *t is Empty {
            Seq::<char>::empty()
        } else {
            seq![' ']
        }) + render_elems(*t),
    }
}

/// The canonical rendering of a whole list: its elements wrapped in one
/// pair of parentheses. The empty list renders as `()`.
pub open spec fn render(n: Node) -> Seq<char> {
    seq!['('] + render_elems(n) + seq![')']
}

} // verus!
