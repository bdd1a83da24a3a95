//! The general laws of the structural operations, proved over the
//! mathematical model. Each public proof function states one law of the
//! specification functions that the executable operations are contracted
//! against; the supporting lemmas about well-formedness stand beside them.

use crate::model::{
    lemma_tail_size, node_append, node_head, node_len, node_rev, node_size, node_tail, well_formed, Node,
};
use vstd::prelude::*;

verus! {

/// A literal viewed as a list has length one, whatever its text.
pub proof fn lemma_lit_length(s: Seq<char>)
    ensures
        node_len(Node::Lit(s)) == 1,
{
    assert(node_tail(Node::Lit(s)) == Node::Empty);
    assert(node_len(Node::Empty) == 0);
}

/// Appending to the empty list yields the second list itself: `Empty` is a
/// left identity of `node_append`.
pub proof fn lemma_append_left_identity(b: Node)
    ensures
        node_append(Node::Empty, b) == b,
{
}

/// The length of a concatenation is the sum of the lengths, for all
/// shapes, well formed or not.
pub proof fn lemma_append_length(a: Node, b: Node)
    ensures
        node_len(node_append(a, b)) == node_len(a) + node_len(b),
    decreases node_size(a),
{
    if a is Empty {
    } else {
        lemma_tail_size(a);
        lemma_append_length(node_tail(a), b);
    }
}

/// Reversal preserves length, for all shapes, well formed or not.
pub proof fn lemma_reverse_length(a: Node)
    ensures
        node_len(node_rev(a)) == node_len(a),
    decreases node_size(a),
{
    if a is Empty {
    } else {
        lemma_tail_size(a);
        lemma_reverse_length(node_tail(a));
        lemma_append_length(
            node_rev(node_tail(a)),
            Node::Pair(Box::new(node_head(a)), Box::new(Node::Empty)),
        );
        assert(node_len(Node::Empty) == 0);
        assert(node_len(Node::Pair(Box::new(node_head(a)), Box::new(Node::Empty))) == 1);
    }
}

/// The head of a freshly built pair is its first argument and the tail its
/// second, for any two nodes.
pub proof fn lemma_cons_head_tail(x: Node, y: Node)
    ensures
        node_head(Node::Pair(Box::new(x), Box::new(y))) == x,
        node_tail(Node::Pair(Box::new(x), Box::new(y))) == y,
{
}

/// The degrade-to-empty policy: on any non-pair node, both accessors
/// yield the empty list rather than failing.
pub proof fn lemma_degrade_to_empty(n: Node)
    requires
        !(n is Pair),
    ensures
        node_head(n) == Node::Empty,
        node_tail(n) == Node::Empty,
{
}

/// A concatenation is well formed exactly when its second operand is:
/// `node_append` rebuilds the spine of `a` but ends it with `b`, and the
/// spine of a non-list `a` degrades into a proper chain along the way.
pub proof fn lemma_append_well_formed(a: Node, b: Node)
    ensures
        well_formed(node_append(a, b)) == well_formed(b),
    decreases node_size(a),
{
    if a is Empty {
    } else {
        lemma_tail_size(a);
        lemma_append_well_formed(node_tail(a), b);
    }
}

/// A reversal is always well formed, whatever the shape of its input.
pub proof fn lemma_reverse_well_formed(a: Node)
    ensures
        well_formed(node_rev(a)),
{
    if a is Empty {
    } else {
        lemma_append_well_formed(
            node_rev(node_tail(a)),
            Node::Pair(Box::new(node_head(a)), Box::new(Node::Empty)),
        );
        assert(well_formed(Node::Empty));
    }
}

/// Reversing a well-formed list with one element appended at its end
/// brings that element to the front of the reversed list.
proof fn lemma_reverse_append_single(a: Node, h: Node)
    requires
        well_formed(a),
    ensures
        node_rev(node_append(a, Node::Pair(Box::new(h), Box::new(Node::Empty)))) == Node::Pair(
            Box::new(h),
            Box::new(node_rev(a)),
        ),
    decreases node_size(a),
{
    if a is Empty {
    } else {
        lemma_tail_size(a);
        lemma_reverse_append_single(node_tail(a), h);
    }
}

/// Reversal is an involution on well-formed lists: reversing twice gives
/// back the original list.
pub proof fn lemma_reverse_involution(a: Node)
    requires
        well_formed(a),
    ensures
        node_rev(node_rev(a)) == a,
    decreases node_size(a),
{
    if a is Empty {
    } else {
        lemma_tail_size(a);
        lemma_reverse_involution(node_tail(a));
        lemma_reverse_well_formed(node_tail(a));
        lemma_reverse_append_single(node_rev(node_tail(a)), node_head(a));
    }
}

} // verus!
